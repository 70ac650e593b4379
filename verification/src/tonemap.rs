//! Gatekeeping for the HDR tone-mapping pipeline.
//!
//! The pipeline converts 16-bit PQ-encoded BT.2020 images to 8-bit sRGB.
//! Its per-channel transfer curves are real-valued and live with the
//! pipeline's driver; what is decided here, exactly, is which inputs may
//! enter the pipeline at all and how the alpha plane is carried through.

use vstd::prelude::*;

use crate::screencopy::ImageView;
use crate::types::ColorType;
use crate::types::Error;

verus! {

/// What the tone-mapping pipeline does with an input of a given color
/// kind: the 16-bit kinds are accepted, reporting whether an alpha plane
/// must be carried through; an already-8-bit image is rejected rather
/// than silently reinterpreted.
pub open spec fn tonemap_plan(color: ColorType) -> Result<bool, Error> {
    match color {
        ColorType::Rgb16 => Ok(false),
        ColorType::Rgba16 => Ok(true),
        ColorType::Rgb8 | ColorType::Rgba8 => Err(Error::InvalidColor),
    }
}

/// Decide whether a color kind may enter the tone-mapping pipeline.
/// Returns whether an alpha plane is carried; exactly the 8-bit kinds are
/// an invalid color state.
pub fn tonemap_validate(color: ColorType) -> (r: Result<bool, Error>)
    ensures
        r == tonemap_plan(color),
{
    match color {
        ColorType::Rgb16 => Ok(false),
        ColorType::Rgba16 => Ok(true),
        ColorType::Rgb8 | ColorType::Rgba8 => Err(Error::InvalidColor),
    }
}

/// Admit an image into the tone-mapping pipeline: hand back its geometry
/// and whether alpha is carried, or reject an 8-bit input.
pub fn tonemap_gate(image: &ImageView) -> (r: Result<(u32, u32, bool), Error>)
    ensures
        r == match tonemap_plan(image.color_type_spec()) {
            Ok(alpha) => Ok::<(u32, u32, bool), Error>(
                (image.width_spec(), image.height_spec(), alpha),
            ),
            Err(e) => Err::<(u32, u32, bool), Error>(e),
        },
{
    match tonemap_validate(image.color_type()) {
        Ok(alpha) => Ok((image.width(), image.height(), alpha)),
        Err(e) => Err(e),
    }
}

/// The alpha byte the tone-mapped output keeps for a 16-bit alpha sample:
/// the top 8 bits, preserved losslessly and never run through the color
/// pipeline.
pub fn alpha_high_byte(alpha: u16) -> (r: u8)
    ensures
        r == alpha / 256,
{
    proof {
        assert(alpha >> 8 == alpha / 256 && alpha >> 8 < 256) by (bit_vector);
    }
    (alpha >> 8u32) as u8
}

} // verus!
