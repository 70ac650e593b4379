//! HDR-aware PNG emission: serializes a 16-bit image as big-endian
//! 16-bit-per-channel PNG samples, attaching a color-characteristics chunk
//! that identifies BT.2020 primaries with the PQ transfer, and a minimal,
//! syntactically valid but content-free EXIF chunk for viewers that expect
//! its presence.

use vstd::prelude::*;

use crate::screencopy::ImageView;
use crate::types::Error;

verus! {

/// Coding-independent code points for BT.2020 primaries with the PQ
/// transfer function, full range: the payload of the color chunk.
pub open spec fn cicp_bt2020_pq() -> Seq<u8> {
    seq![9u8, 16u8, 9u8, 1u8]
}

/// The content-free EXIF payload: a big-endian TIFF header pointing at a
/// first image file directory with zero entries.
pub open spec fn exif_stub() -> Seq<u8> {
    seq![0x4du8, 0x4du8, 0x00u8, 0x2au8, 0x00u8, 0x00u8, 0x00u8, 0x08u8, 0x00u8, 0x00u8]
}

/// High byte of a 16-bit sample in big-endian order.
pub open spec fn be_hi(v: u16) -> u8 {
    (v / 256) as u8
}

/// Low byte of a 16-bit sample in big-endian order.
pub open spec fn be_lo(v: u16) -> u8 {
    (v % 256) as u8
}

/// The samples laid out as big-endian byte pairs.
pub open spec fn be_bytes(s: Seq<u16>) -> Seq<u8> {
    Seq::new(
        2 * s.len(),
        |i: int|
            if i % 2 == 0 {
                be_hi(s[i / 2])
            } else {
                be_lo(s[i / 2])
            },
    )
}

/// The PNG byte stream the codec produces for a 16-bit image of the given
/// dimensions and layout, with the given big-endian sample bytes and the
/// two ancillary chunk payloads. The stream is a function of these
/// arguments alone.
pub uninterp spec fn png_stream(
    width: u32,
    height: u32,
    rgba: bool,
    data: Seq<u8>,
    cicp: Seq<u8>,
    exif: Seq<u8>,
) -> Seq<u8>;

/// Relies on png::Encoder and png::Writer: a 16-bit RGB or RGBA PNG stream
/// written into a byte vector, with one cICP and one eXIf chunk between
/// the header and the image data. With nonzero dimensions and exactly the
/// layout's number of sample bytes, every step writes into memory and
/// succeeds, as the codec's validation admits these inputs.
#[verifier::external_body]
fn png_encode_16bit(
    width: u32,
    height: u32,
    rgba: bool,
    data: &Vec<u8>,
    cicp: &Vec<u8>,
    exif: &Vec<u8>,
) -> (r: Result<Vec<u8>, Error>)
    requires
        width > 0,
        height > 0,
        data@.len() == (if rgba {
            8int
        } else {
            6int
        }) * width * height,
        cicp@.len() <= 1024,
        exif@.len() <= 1024,
    ensures
        r is Ok,
        r matches Ok(v) ==> v@ == png_stream(width, height, rgba, data@, cicp@, exif@),
{
    let mut out: Vec<u8> = Vec::new();
    let result = (|| -> Result<(), png::EncodingError> {
        let mut enc = png::Encoder::new(&mut out, width, height);
        enc.set_color(if rgba { png::ColorType::Rgba } else { png::ColorType::Rgb });
        enc.set_depth(png::BitDepth::Sixteen);
        let mut writer = enc.write_header()?;
        writer.write_chunk(png::chunk::cICP, cicp)?;
        writer.write_chunk(png::chunk::eXIf, exif)?;
        writer.write_image_data(data)?;
        writer.finish()
    })();
    match result {
        Ok(()) => Ok(out),
        Err(_) => Err(Error::BufferTooSmall),
    }
}

/// Append the minimal EXIF payload: a big-endian TIFF header and a zero
/// entry count, nothing more.
pub fn add_fake_exif(buffer: &mut Vec<u8>) -> (r: Result<(), Error>)
    ensures
        r == Ok::<(), Error>(()),
        final(buffer)@ == old(buffer)@ + exif_stub(),
{
    buffer.push(0x4d);
    buffer.push(0x4d);
    buffer.push(0x00);
    buffer.push(0x2a);
    buffer.push(0x00);
    buffer.push(0x00);
    buffer.push(0x00);
    buffer.push(0x08);
    buffer.push(0x00);
    buffer.push(0x00);
    proof {
        assert(buffer@ =~= old(buffer)@ + exif_stub());
    }
    Ok(())
}

/// The samples of `s` as big-endian byte pairs.
fn be_bytes_of(samples: &Vec<u16>) -> (r: Vec<u8>)
    ensures
        r@ == be_bytes(samples@),
{
    let n: usize = samples.len();
    proof {
        assert(2 * (n as int) <= 2 * (usize::MAX as int));
    }
    let mut out: Vec<u8> = Vec::new();
    let mut j: usize = 0;
    while j < n
        invariant
            n == samples@.len(),
            j <= n,
            out@.len() == 2 * j,
            forall|i: int| 0 <= i < out@.len() ==> out@[i] == be_bytes(samples@)[i],
        decreases n - j,
    {
        let v: u16 = samples[j];
        out.push((v / 256) as u8);
        out.push((v % 256) as u8);
        proof {
            assert((2 * j as int) % 2 == 0 && (2 * j as int) / 2 == j as int) by (nonlinear_arith);
            assert((2 * j as int + 1) % 2 == 1 && (2 * j as int + 1) / 2 == j as int)
                by (nonlinear_arith);
        }
        j = j + 1;
    }
    proof {
        assert(out@ =~= be_bytes(samples@));
    }
    out
}

/// Serialize a 16-bit RGB or RGBA image as a PNG stream with big-endian
/// samples, the BT.2020/PQ color-characteristics chunk, and the
/// content-free EXIF chunk. An 8-bit input is a reported error, never a
/// best-effort conversion; an empty geometry or a sample count that does
/// not match the geometry cannot be serialized and is reported too.
pub fn encode_hdr_png(image: &ImageView) -> (r: Result<Vec<u8>, Error>)
    ensures
        match *image {
            ImageView::Rgb8 { .. } | ImageView::Rgba8 { .. } => r == Err::<Vec<u8>, Error>(
                Error::InvalidColor,
            ),
            ImageView::Rgb16 { width, height, data } => if width > 0 && height > 0 && data@.len()
                == 3 * width * height {
                r matches Ok(v) && v@ == png_stream(
                    width,
                    height,
                    false,
                    be_bytes(data@),
                    cicp_bt2020_pq(),
                    exif_stub(),
                )
            } else {
                r == Err::<Vec<u8>, Error>(Error::BufferTooSmall)
            },
            ImageView::Rgba16 { width, height, data } => if width > 0 && height > 0 && data@.len()
                == 4 * width * height {
                r matches Ok(v) && v@ == png_stream(
                    width,
                    height,
                    true,
                    be_bytes(data@),
                    cicp_bt2020_pq(),
                    exif_stub(),
                )
            } else {
                r == Err::<Vec<u8>, Error>(Error::BufferTooSmall)
            },
        },
{
    match image {
        ImageView::Rgb8 { .. } | ImageView::Rgba8 { .. } => Err(Error::InvalidColor),
        ImageView::Rgb16 { width, height, data } => encode_hdr_png16(
            *width,
            *height,
            false,
            data,
        ),
        ImageView::Rgba16 { width, height, data } => encode_hdr_png16(
            *width,
            *height,
            true,
            data,
        ),
    }
}

/// Shared tail of the emitter for the two 16-bit layouts.
fn encode_hdr_png16(width: u32, height: u32, rgba: bool, data: &Vec<u16>) -> (r: Result<
    Vec<u8>,
    Error,
>)
    ensures
        if width > 0 && height > 0 && data@.len() == (if rgba {
            4int
        } else {
            3int
        }) * width * height {
            r matches Ok(v) && v@ == png_stream(
                width,
                height,
                rgba,
                be_bytes(data@),
                cicp_bt2020_pq(),
                exif_stub(),
            )
        } else {
            r == Err::<Vec<u8>, Error>(Error::BufferTooSmall)
        },
{
    let channels: usize = if rgba {
        4
    } else {
        3
    };
    if width == 0 || height == 0 {
        return Err(Error::BufferTooSmall);
    }
    let expected: Option<usize> = crate::screencopy::sample_count(channels, width, height, data.len());
    match expected {
        Some(need) if need == data.len() => {
            let bytes: Vec<u8> = be_bytes_of(data);
            let mut cicp: Vec<u8> = Vec::new();
            cicp.push(9);
            cicp.push(16);
            cicp.push(9);
            cicp.push(1);
            let mut exif: Vec<u8> = Vec::new();
            let exif_ok = add_fake_exif(&mut exif);
            proof {
                assert(cicp@ =~= cicp_bt2020_pq());
                assert(bytes@.len() == (if rgba {
                    8int
                } else {
                    6int
                }) * width * height) by (nonlinear_arith)
                    requires
                        bytes@.len() == 2 * data@.len(),
                        data@.len() == (if rgba {
                            4int
                        } else {
                            3int
                        }) * width * height,
                ;
            }
            match exif_ok {
                Ok(u) => png_encode_16bit(width, height, rgba, &bytes, &cicp, &exif),
                Err(e) => Err(e),
            }
        },
        _ => Err(Error::BufferTooSmall),
    }
}

} // verus!
