//! Frame copies: a format descriptor plus an exclusively owned pixel buffer,
//! from which standard image views are derived on demand.
//!
//! Nothing is cached: every derived view is recomputed from the owned source
//! buffer. CPU-visible bytes exist only for shared-memory backed copies; a
//! GPU-resident buffer is reported as an invalid color state here.

use vstd::prelude::*;
use vstd::slice::slice_to_vec;

use crate::tenbit::convert_10bit_to_u16;
use crate::tenbit::unpacked_sample;
use crate::tenbit::ChannelOrder;
use crate::types::ColorType;
use crate::types::Error;
use crate::types::LogicalRegion;
use crate::types::PixelFormat;
use crate::types::Size;
use crate::types::Transform;

verus! {

#[verifier::external_type_specification]
#[verifier::external_body]
pub struct ExMmapMut(memmap2::MmapMut);

/// The bytes a live mapping holds. The capture discipline guarantees that
/// the compositor's completion signal has been observed before a copy is
/// handed over, so the contents are stable for the life of the mapping.
pub uninterp spec fn mmap_contents(m: memmap2::MmapMut) -> Seq<u8>;

/// Relies on memmap2::MmapMut's deref to a byte slice: the returned slice
/// is exactly the mapping's bytes.
#[verifier::external_body]
fn mmap_as_bytes(m: &memmap2::MmapMut) -> (r: &[u8])
    ensures
        r@ == mmap_contents(*m),
{
    &m[..]
}

/// Format of a shared-memory frame as the compositor announces it when the
/// buffer is negotiated; immutable afterwards.
#[derive(Debug, Copy, Clone, PartialEq, Eq, Structural)]
pub struct FrameFormat {
    pub format: PixelFormat,
    /// Size of the frame in pixels, always in "landscape".
    pub size: Size,
    /// Number of bytes between the start of a row and the start of the next.
    pub stride: u32,
}

impl FrameFormat {
    /// The size of the backing buffer in bytes: stride times height.
    pub fn byte_size(&self) -> (r: u64)
        ensures
            r == self.stride as int * self.size.height as int,
    {
        proof {
            assert(self.stride as int * self.size.height as int <= u64::MAX) by (nonlinear_arith)
                requires
                    self.stride as int <= u32::MAX,
                    self.size.height as int <= u32::MAX,
            ;
        }
        (self.stride as u64) * (self.size.height as u64)
    }
}

/// Format of a DMA-BUF frame as the compositor announces it. There is no
/// stride: the layout is described by an allocator modifier instead.
#[derive(Debug, Copy, Clone, PartialEq, Eq, Structural)]
pub struct DMAFrameFormat {
    pub format: u32,
    /// Size of the frame in pixels, always in "landscape".
    pub size: Size,
}

/// The concrete backing of a copied frame: exactly one of a live
/// shared-memory mapping or a GPU-resident buffer object.
#[derive(Debug)]
pub enum FrameData {
    /// A live shared-memory mapping with CPU-visible bytes.
    Mmap(memmap2::MmapMut),
    /// A GPU-resident buffer object. Its handle is owned by the DMA capture
    /// path; no CPU-visible bytes exist here without an explicit mapping,
    /// so byte-level operations on this variant fail fast.
    GBMBo,
}

impl FrameData {
    /// The CPU-visible bytes of the backing, for the shared-memory variant.
    pub open spec fn contents(self) -> Seq<u8>
        recommends
            self is Mmap,
    {
        match self {
            FrameData::Mmap(m) => mmap_contents(m),
            FrameData::GBMBo => Seq::empty(),
        }
    }
}

/// A standard in-memory image view in one of the canonical color layouts,
/// with tightly packed samples: the data holds exactly width * height
/// pixels.
#[allow(inconsistent_fields)]
#[derive(Debug, Clone, PartialEq, Eq)]
pub enum ImageView {
    Rgb8 { width: u32, height: u32, data: Vec<u8> },
    Rgba8 { width: u32, height: u32, data: Vec<u8> },
    Rgb16 { width: u32, height: u32, data: Vec<u16> },
    Rgba16 { width: u32, height: u32, data: Vec<u16> },
}

impl ImageView {
    /// The canonical color kind of this view.
    pub open spec fn color_type_spec(self) -> ColorType {
        match self {
            ImageView::Rgb8 { .. } => ColorType::Rgb8,
            ImageView::Rgba8 { .. } => ColorType::Rgba8,
            ImageView::Rgb16 { .. } => ColorType::Rgb16,
            ImageView::Rgba16 { .. } => ColorType::Rgba16,
        }
    }

    pub open spec fn width_spec(self) -> u32 {
        match self {
            ImageView::Rgb8 { width, .. } => width,
            ImageView::Rgba8 { width, .. } => width,
            ImageView::Rgb16 { width, .. } => width,
            ImageView::Rgba16 { width, .. } => width,
        }
    }

    pub open spec fn height_spec(self) -> u32 {
        match self {
            ImageView::Rgb8 { height, .. } => height,
            ImageView::Rgba8 { height, .. } => height,
            ImageView::Rgb16 { height, .. } => height,
            ImageView::Rgba16 { height, .. } => height,
        }
    }

    /// Samples per pixel of the layout.
    pub open spec fn channels_spec(self) -> int {
        match self {
            ImageView::Rgb8 { .. } => 3,
            ImageView::Rgba8 { .. } => 4,
            ImageView::Rgb16 { .. } => 3,
            ImageView::Rgba16 { .. } => 4,
        }
    }

    /// Number of stored samples (bytes for the 8-bit layouts, 16-bit words
    /// for the wide ones).
    pub open spec fn sample_len_spec(self) -> int {
        match self {
            ImageView::Rgb8 { data, .. } => data.len() as int,
            ImageView::Rgba8 { data, .. } => data.len() as int,
            ImageView::Rgb16 { data, .. } => data.len() as int,
            ImageView::Rgba16 { data, .. } => data.len() as int,
        }
    }

    /// Well-formedness: the samples are tightly packed, exactly
    /// channels * width * height of them.
    pub open spec fn wf(self) -> bool {
        self.sample_len_spec() == self.channels_spec() * self.width_spec()
            * self.height_spec()
    }

    /// The canonical color kind of this view.
    pub fn color_type(&self) -> (c: ColorType)
        ensures
            c == self.color_type_spec(),
    {
        match self {
            ImageView::Rgb8 { .. } => ColorType::Rgb8,
            ImageView::Rgba8 { .. } => ColorType::Rgba8,
            ImageView::Rgb16 { .. } => ColorType::Rgb16,
            ImageView::Rgba16 { .. } => ColorType::Rgba16,
        }
    }

    pub fn width(&self) -> (w: u32)
        ensures
            w == self.width_spec(),
    {
        match self {
            ImageView::Rgb8 { width, .. } => *width,
            ImageView::Rgba8 { width, .. } => *width,
            ImageView::Rgb16 { width, .. } => *width,
            ImageView::Rgba16 { width, .. } => *width,
        }
    }

    pub fn height(&self) -> (h: u32)
        ensures
            h == self.height_spec(),
    {
        match self {
            ImageView::Rgb8 { height, .. } => *height,
            ImageView::Rgba8 { height, .. } => *height,
            ImageView::Rgb16 { height, .. } => *height,
            ImageView::Rgba16 { height, .. } => *height,
        }
    }
}

/// The channel order in which a native 10-bit format unpacks to RGB
/// samples without alpha, if it supports that view.
pub open spec fn rgb16_order(format: PixelFormat) -> Option<ChannelOrder> {
    match format {
        PixelFormat::Xrgb2101010 | PixelFormat::Argb2101010 => Some(ChannelOrder::Rgb),
        PixelFormat::Xbgr2101010 | PixelFormat::Abgr2101010 => Some(ChannelOrder::Bgr),
        _ => None,
    }
}

/// The channel order in which a native 10-bit format unpacks to RGBA
/// samples, if it carries alpha.
pub open spec fn rgba16_order(format: PixelFormat) -> Option<ChannelOrder> {
    match format {
        PixelFormat::Argb2101010 => Some(ChannelOrder::Rgb),
        PixelFormat::Abgr2101010 => Some(ChannelOrder::Bgr),
        _ => None,
    }
}

/// A copied frame: the negotiated format, the resolved canonical color
/// kind, the exclusively owned pixel buffer, and capture metadata.
#[derive(Debug)]
pub struct FrameCopy {
    pub frame_format: FrameFormat,
    pub frame_color_type: ColorType,
    pub frame_data: FrameData,
    pub transform: Transform,
    /// Logical region with the transform already applied.
    pub logical_region: LogicalRegion,
    pub physical_size: Size,
}

/// `Some(c * w * h)` when that many samples are available, `None` when the
/// buffer falls short of the geometry.
pub(crate) fn sample_count(c: usize, w: u32, h: u32, available: usize) -> (r: Option<usize>)
    requires
        c <= 4,
    ensures
        r matches Some(n) ==> n == c * (w as int) * (h as int) && n <= available,
        r is None ==> c * (w as int) * (h as int) > available,
{
    proof {
        assert((c as int) * (w as int) <= 4 * (u32::MAX as int)) by (nonlinear_arith)
            requires
                c <= 4,
                w as int <= u32::MAX,
        ;
        assert((c as int) * (w as int) * (h as int) <= 4 * (u32::MAX as int) * (u32::MAX as int))
            by (nonlinear_arith)
            requires
                0 <= (c as int) * (w as int) <= 4 * (u32::MAX as int),
                0 <= h as int <= u32::MAX,
        ;
    }
    let total: u128 = (c as u128) * (w as u128) * (h as u128);
    if total <= available as u128 {
        Some(total as usize)
    } else {
        None
    }
}

impl FrameCopy {
    /// Borrow the CPU-visible bytes of the owned buffer. A GPU-resident
    /// buffer has none and is an invalid color state for byte access.
    pub fn mmap_bytes(&self) -> (r: Result<&[u8], Error>)
        ensures
            self.frame_data is Mmap ==> (r matches Ok(b) && b@ == self.frame_data.contents()),
            self.frame_data is GBMBo ==> r == Err::<&[u8], Error>(Error::InvalidColor),
    {
        match &self.frame_data {
            FrameData::Mmap(m) => Ok(mmap_as_bytes(m)),
            FrameData::GBMBo => Err(Error::InvalidColor),
        }
    }

    /// Unpack the owned 10-bit buffer into 16-bit RGB samples, 3 per pixel.
    pub fn to_rgb16_vec(&self) -> (r: Result<Vec<u16>, Error>)
        ensures
            rgb16_order(self.frame_format.format) is None ==> r == Err::<Vec<u16>, Error>(
                Error::InvalidColor,
            ),
            rgb16_order(self.frame_format.format) is Some && self.frame_data is GBMBo ==> r
                == Err::<Vec<u16>, Error>(Error::InvalidColor),
            rgb16_order(self.frame_format.format) matches Some(o) ==> self.frame_data is Mmap
                ==> {
                let bytes = self.frame_data.contents();
                if bytes.len() % 4 != 0 {
                    r == Err::<Vec<u16>, Error>(Error::BufferTooSmall)
                } else {
                    r matches Ok(v) && v@.len() == (bytes.len() as int / 4) * 3 && forall|k: int|
                        0 <= k < v@.len() ==> v@[k] == unpacked_sample(bytes, o, false, k)
                }
            },
    {
        let order: ChannelOrder = match self.frame_format.format {
            PixelFormat::Xrgb2101010 | PixelFormat::Argb2101010 => ChannelOrder::Rgb,
            PixelFormat::Xbgr2101010 | PixelFormat::Abgr2101010 => ChannelOrder::Bgr,
            _ => {
                return Err(Error::InvalidColor);
            },
        };
        match self.mmap_bytes() {
            Ok(bytes) => convert_10bit_to_u16(bytes, order, false),
            Err(e) => Err(e),
        }
    }

    /// Unpack the owned 10-bit buffer into 16-bit RGBA samples, 4 per
    /// pixel, expanding the 2-bit alpha field.
    pub fn to_rgba16_vec(&self) -> (r: Result<Vec<u16>, Error>)
        ensures
            rgba16_order(self.frame_format.format) is None ==> r == Err::<Vec<u16>, Error>(
                Error::InvalidColor,
            ),
            rgba16_order(self.frame_format.format) is Some && self.frame_data is GBMBo ==> r
                == Err::<Vec<u16>, Error>(Error::InvalidColor),
            rgba16_order(self.frame_format.format) matches Some(o) ==> self.frame_data is Mmap
                ==> {
                let bytes = self.frame_data.contents();
                if bytes.len() % 4 != 0 {
                    r == Err::<Vec<u16>, Error>(Error::BufferTooSmall)
                } else {
                    r matches Ok(v) && v@.len() == (bytes.len() as int / 4) * 4 && forall|k: int|
                        0 <= k < v@.len() ==> v@[k] == unpacked_sample(bytes, o, true, k)
                }
            },
    {
        let order: ChannelOrder = match self.frame_format.format {
            PixelFormat::Argb2101010 => ChannelOrder::Rgb,
            PixelFormat::Abgr2101010 => ChannelOrder::Bgr,
            _ => {
                return Err(Error::InvalidColor);
            },
        };
        match self.mmap_bytes() {
            Ok(bytes) => convert_10bit_to_u16(bytes, order, true),
            Err(e) => Err(e),
        }
    }

    /// Derive the standard image view the resolved color kind calls for,
    /// recomputed from the owned source buffer. The view's samples are
    /// tightly packed; stride padding beyond the pixels is dropped. A
    /// GPU-resident buffer, a native format without the requested 10-bit
    /// unpacking, or a buffer smaller than the geometry implies is a
    /// reported error, never a fault.
    pub fn get_image(&self) -> (r: Result<ImageView, Error>)
        ensures
            r matches Ok(img) ==> img.wf() && img.color_type_spec() == self.frame_color_type
                && img.width_spec() == self.frame_format.size.width && img.height_spec()
                == self.frame_format.size.height,
            self.frame_data is GBMBo ==> r == Err::<ImageView, Error>(Error::InvalidColor),
            self.frame_data is Mmap ==> {
                let bytes = self.frame_data.contents();
                let w = self.frame_format.size.width as int;
                let h = self.frame_format.size.height as int;
                match self.frame_color_type {
                    ColorType::Rgb8 => if 3 * w * h <= bytes.len() {
                        r matches Ok(img) && img matches ImageView::Rgb8 { data, .. } && data@
                            == bytes.take(3 * w * h)
                    } else {
                        r == Err::<ImageView, Error>(Error::BufferTooSmall)
                    },
                    ColorType::Rgba8 => if 4 * w * h <= bytes.len() {
                        r matches Ok(img) && img matches ImageView::Rgba8 { data, .. } && data@
                            == bytes.take(4 * w * h)
                    } else {
                        r == Err::<ImageView, Error>(Error::BufferTooSmall)
                    },
                    ColorType::Rgb16 => match rgb16_order(self.frame_format.format) {
                        Option::Some(o) => if bytes.len() % 4 != 0 {
                            r == Err::<ImageView, Error>(Error::BufferTooSmall)
                        } else if 3 * w * h <= (bytes.len() as int / 4) * 3 {
                            r matches Ok(img) && img matches ImageView::Rgb16 { data, .. }
                                && data@.len() == 3 * w * h && forall|k: int|
                                0 <= k < data@.len() ==> data@[k] == unpacked_sample(
                                    bytes,
                                    o,
                                    false,
                                    k,
                                )
                        } else {
                            r == Err::<ImageView, Error>(Error::BufferTooSmall)
                        },
                        Option::None => r == Err::<ImageView, Error>(Error::InvalidColor),
                    },
                    ColorType::Rgba16 => match rgba16_order(self.frame_format.format) {
                        Option::Some(o) => if bytes.len() % 4 != 0 {
                            r == Err::<ImageView, Error>(Error::BufferTooSmall)
                        } else if 4 * w * h <= (bytes.len() as int / 4) * 4 {
                            r matches Ok(img) && img matches ImageView::Rgba16 { data, .. }
                                && data@.len() == 4 * w * h && forall|k: int|
                                0 <= k < data@.len() ==> data@[k] == unpacked_sample(
                                    bytes,
                                    o,
                                    true,
                                    k,
                                )
                        } else {
                            r == Err::<ImageView, Error>(Error::BufferTooSmall)
                        },
                        Option::None => r == Err::<ImageView, Error>(Error::InvalidColor),
                    },
                }
            },
    {
        let w: u32 = self.frame_format.size.width;
        let h: u32 = self.frame_format.size.height;
        match self.frame_color_type {
            ColorType::Rgb8 => {
                let bytes: &[u8] = match self.mmap_bytes() {
                    Ok(b) => b,
                    Err(e) => {
                        return Err(e);
                    },
                };
                match sample_count(3, w, h, bytes.len()) {
                    Some(need) => {
                        let mut data: Vec<u8> = slice_to_vec(bytes);
                        data.truncate(need);
                        Ok(ImageView::Rgb8 { width: w, height: h, data })
                    },
                    None => Err(Error::BufferTooSmall),
                }
            },
            ColorType::Rgba8 => {
                let bytes: &[u8] = match self.mmap_bytes() {
                    Ok(b) => b,
                    Err(e) => {
                        return Err(e);
                    },
                };
                match sample_count(4, w, h, bytes.len()) {
                    Some(need) => {
                        let mut data: Vec<u8> = slice_to_vec(bytes);
                        data.truncate(need);
                        Ok(ImageView::Rgba8 { width: w, height: h, data })
                    },
                    None => Err(Error::BufferTooSmall),
                }
            },
            ColorType::Rgb16 => {
                match self.to_rgb16_vec() {
                    Ok(v) => {
                        let mut data: Vec<u16> = v;
                        match sample_count(3, w, h, data.len()) {
                            Some(need) => {
                                data.truncate(need);
                                Ok(ImageView::Rgb16 { width: w, height: h, data })
                            },
                            None => Err(Error::BufferTooSmall),
                        }
                    },
                    Err(e) => Err(e),
                }
            },
            ColorType::Rgba16 => {
                match self.to_rgba16_vec() {
                    Ok(v) => {
                        let mut data: Vec<u16> = v;
                        match sample_count(4, w, h, data.len()) {
                            Some(need) => {
                                data.truncate(need);
                                Ok(ImageView::Rgba16 { width: w, height: h, data })
                            },
                            None => Err(Error::BufferTooSmall),
                        }
                    },
                    Err(e) => Err(e),
                }
            },
        }
    }
}

} // verus!
