//! Stateless, in-place pixel-format normalizers keyed by native format.
//!
//! Each converter mutates a byte buffer in place and reports the canonical
//! color kind of the result. Buffers are processed in complete 4-byte groups;
//! a trailing partial group is never touched, so a buffer of any length is
//! handled without failure.

use vstd::prelude::*;

use crate::types::ColorType;
use crate::types::PixelFormat;

verus! {

/// The byte sequence after swapping the bytes at offsets 0 and 2 of every
/// complete 4-byte group. Bytes of a trailing partial group are unchanged.
pub open spec fn swap_rb_bytes(s: Seq<u8>) -> Seq<u8> {
    Seq::new(
        s.len(),
        |i: int|
            if i < 4 * (s.len() as int / 4) {
                if i % 4 == 0 {
                    s[i + 2]
                } else if i % 4 == 2 {
                    s[i - 2]
                } else {
                    s[i]
                }
            } else {
                s[i]
            },
    )
}

/// An in-place converter from one native pixel layout to a canonical one.
pub trait Convert: Sized {
    /// The buffer contents this converter leaves behind.
    spec fn spec_result(&self, input: Seq<u8>) -> Seq<u8>;

    /// The canonical color kind this converter reports.
    spec fn spec_color_type(&self) -> ColorType;

    /// Convert raw image data in place and report the canonical color kind.
    ///
    /// Never fails: the buffer keeps its length, only bytes within complete
    /// 4-byte groups are permuted, and a trailing partial group is left
    /// untouched.
    fn convert_inplace(&self, data: &mut Vec<u8>) -> (color: ColorType)
        ensures
            final(data)@ == self.spec_result(old(data)@),
            final(data)@.len() == old(data)@.len(),
            forall|i: int|
                4 * (old(data)@.len() as int / 4) <= i < old(data)@.len() ==> final(data)@[i]
                    == old(data)@[i],
            color == self.spec_color_type(),
    ;
}

/// Converter for buffers already in canonical RGBA byte order.
#[derive(Debug, Default, Copy, Clone, PartialEq, Eq, Structural)]
pub struct ConvertNone {}

/// Converter for 4-byte layouts with red and blue swapped relative to
/// canonical RGBA order.
#[derive(Debug, Default, Copy, Clone, PartialEq, Eq, Structural)]
pub struct ConvertRGB8 {}

/// Converter for 3-byte BGR buffers. No byte reordering is performed: the
/// native byte order of that format already matches the canonical layout.
#[derive(Debug, Default, Copy, Clone, PartialEq, Eq, Structural)]
pub struct ConvertBGR888 {}

impl Convert for ConvertNone {
    open spec fn spec_result(&self, input: Seq<u8>) -> Seq<u8> {
        input
    }

    open spec fn spec_color_type(&self) -> ColorType {
        ColorType::Rgba8
    }

    fn convert_inplace(&self, data: &mut Vec<u8>) -> (color: ColorType) {
        ColorType::Rgba8
    }
}

impl Convert for ConvertRGB8 {
    open spec fn spec_result(&self, input: Seq<u8>) -> Seq<u8> {
        swap_rb_bytes(input)
    }

    open spec fn spec_color_type(&self) -> ColorType {
        ColorType::Rgba8
    }

    fn convert_inplace(&self, data: &mut Vec<u8>) -> (color: ColorType) {
        let ghost input = data@;
        let groups: usize = data.len() / 4;
        let mut g: usize = 0;
        while g < groups
            invariant
                input.len() <= usize::MAX,
                groups == input.len() / 4,
                g <= groups,
                data@.len() == input.len(),
                forall|i: int|
                    0 <= i < input.len() ==> data@[i] == if i < 4 * g as int {
                        swap_rb_bytes(input)[i]
                    } else {
                        input[i]
                    },
            decreases groups - g,
        {
            proof {
                assert(4 * (g as int) + 4 <= 4 * (groups as int)) by (nonlinear_arith)
                    requires (g as int) < groups as int;
                assert(4 * (groups as int) <= input.len() as int) by (nonlinear_arith)
                    requires groups as int == input.len() as int / 4;
            }
            let lo: u8 = data[4 * g];
            let hi: u8 = data[4 * g + 2];
            data[4 * g] = hi;
            data[4 * g + 2] = lo;
            proof {
                assert forall|i: int| 0 <= i < input.len() implies data@[i] == (if i < 4 * (
                g + 1) as int {
                    swap_rb_bytes(input)[i]
                } else {
                    input[i]
                }) by {
                    if 4 * g as int <= i < 4 * (g + 1) as int {
                        assert(i / 4 == g as int) by (nonlinear_arith)
                            requires 4 * g as int <= i < 4 * (g + 1) as int;
                        assert(i % 4 == i - 4 * g as int) by (nonlinear_arith)
                            requires 4 * g as int <= i < 4 * (g + 1) as int;
                        assert(i < 4 * (input.len() as int / 4)) by (nonlinear_arith)
                            requires i / 4 == g as int, (g as int) < input.len() as int / 4, 0 <= i;
                    }
                }
            }
            g = g + 1;
        }
        proof {
            assert(data@ =~= swap_rb_bytes(input));
        }
        ColorType::Rgba8
    }
}

impl Convert for ConvertBGR888 {
    open spec fn spec_result(&self, input: Seq<u8>) -> Seq<u8> {
        input
    }

    open spec fn spec_color_type(&self) -> ColorType {
        ColorType::Rgb8
    }

    fn convert_inplace(&self, data: &mut Vec<u8>) -> (color: ColorType) {
        ColorType::Rgb8
    }
}

/// The converter strategy `create_converter` hands out for a supported
/// native format.
#[derive(Debug, Copy, Clone, PartialEq, Eq, Structural)]
pub enum Converter {
    /// The buffer is already canonical RGBA.
    Pass(ConvertNone),
    /// Red and blue must be swapped in every 4-byte group.
    SwapRedBlue(ConvertRGB8),
    /// 3-byte BGR kept as is.
    KeepBgr(ConvertBGR888),
}

impl Convert for Converter {
    open spec fn spec_result(&self, input: Seq<u8>) -> Seq<u8> {
        match self {
            Converter::Pass(c) => c.spec_result(input),
            Converter::SwapRedBlue(c) => c.spec_result(input),
            Converter::KeepBgr(c) => c.spec_result(input),
        }
    }

    open spec fn spec_color_type(&self) -> ColorType {
        match self {
            Converter::Pass(c) => c.spec_color_type(),
            Converter::SwapRedBlue(c) => c.spec_color_type(),
            Converter::KeepBgr(c) => c.spec_color_type(),
        }
    }

    fn convert_inplace(&self, data: &mut Vec<u8>) -> (color: ColorType) {
        match self {
            Converter::Pass(c) => c.convert_inplace(data),
            Converter::SwapRedBlue(c) => c.convert_inplace(data),
            Converter::KeepBgr(c) => c.convert_inplace(data),
        }
    }
}

/// The converter a native format calls for, if any.
pub open spec fn converter_for(format: PixelFormat) -> Option<Converter> {
    match format {
        PixelFormat::Xbgr8888 | PixelFormat::Abgr8888 => Some(Converter::Pass(ConvertNone {  })),
        PixelFormat::Xrgb8888 | PixelFormat::Argb8888 => Some(
            Converter::SwapRedBlue(ConvertRGB8 {  }),
        ),
        PixelFormat::Bgr888 => Some(Converter::KeepBgr(ConvertBGR888 {  })),
        _ => None,
    }
}

/// Creates a format converter based on the input format; returns `None` if
/// conversion isn't possible here. Conversion happens in place.
pub fn create_converter(format: PixelFormat) -> (r: Option<Converter>)
    ensures
        r == converter_for(format),
{
    match format {
        PixelFormat::Xbgr8888 | PixelFormat::Abgr8888 => Some(Converter::Pass(ConvertNone {  })),
        PixelFormat::Xrgb8888 | PixelFormat::Argb8888 => Some(
            Converter::SwapRedBlue(ConvertRGB8 {  }),
        ),
        PixelFormat::Bgr888 => Some(Converter::KeepBgr(ConvertBGR888 {  })),
        _ => None,
    }
}

/// Law: the red/blue byte swap is self-inverse. Applying it twice restores
/// the original bytes, whatever the buffer length.
pub proof fn lemma_swap_rb_bytes_involutive(s: Seq<u8>)
    ensures
        swap_rb_bytes(swap_rb_bytes(s)) == s,
{
    assert forall|i: int| 0 <= i < s.len() implies swap_rb_bytes(swap_rb_bytes(s))[i] == s[i] by {
        if i < 4 * (s.len() as int / 4) {
            if i % 4 == 0 {
                assert((i + 2) % 4 == 2) by (nonlinear_arith)
                    requires i % 4 == 0, 0 <= i;
            } else if i % 4 == 2 {
                assert((i - 2) % 4 == 0) by (nonlinear_arith)
                    requires i % 4 == 2, 0 <= i;
            }
        }
    }
    assert(swap_rb_bytes(swap_rb_bytes(s)) =~= s);
}

} // verus!
