//! The sidecar description of a DMA-BUF capture: one `key=value` line per
//! field, written next to the raw pixel dump so the dump can be decoded
//! later. A debug artifact, not a stable wire format.

use vstd::prelude::*;

use crate::numerals::decimal_digits;
use crate::numerals::hex_fixed;
use crate::numerals::push_decimal;
use crate::numerals::push_hex_fixed;
use crate::numerals::push_signed_decimal;
use crate::numerals::signed_decimal_digits;
use crate::types::LogicalRegion;
use crate::types::Size;
use crate::types::Transform;

verus! {

/// The token naming a transform in the sidecar, as the protocol enum
/// spells its variants.
pub open spec fn transform_label(t: Transform) -> Seq<char> {
    match t {
        Transform::Normal => "Normal"@,
        Transform::Rotated90 => "_90"@,
        Transform::Rotated180 => "_180"@,
        Transform::Rotated270 => "_270"@,
        Transform::Flipped => "Flipped"@,
        Transform::Flipped90 => "Flipped90"@,
        Transform::Flipped180 => "Flipped180"@,
        Transform::Flipped270 => "Flipped270"@,
    }
}

/// The token naming a transform in the sidecar.
pub fn transform_name(t: Transform) -> (r: &'static str)
    ensures
        r@ == transform_label(t),
{
    match t {
        Transform::Normal => "Normal",
        Transform::Rotated90 => "_90",
        Transform::Rotated180 => "_180",
        Transform::Rotated270 => "_270",
        Transform::Flipped => "Flipped",
        Transform::Flipped90 => "Flipped90",
        Transform::Flipped180 => "Flipped180",
        Transform::Flipped270 => "Flipped270",
    }
}

/// The whole sidecar text: format code in hexadecimal, geometry and stride
/// in decimal, the allocator modifier in hexadecimal, the transform's
/// name, and the transform-corrected logical region.
pub open spec fn dmabuf_metadata(
    format: u32,
    size: Size,
    stride: u32,
    modifier: u64,
    transform: Transform,
    region: LogicalRegion,
) -> Seq<char> {
    "format=0x"@ + hex_fixed(format as nat, 8) + "\nwidth="@ + decimal_digits(size.width as nat)
        + "\nheight="@ + decimal_digits(size.height as nat) + "\nstride="@ + decimal_digits(
        stride as nat,
    ) + "\nmodifier=0x"@ + hex_fixed(modifier as nat, 16) + "\ntransform="@ + transform_label(
        transform,
    ) + "\nlogical_x="@ + signed_decimal_digits(region.inner.position.x as int) + "\nlogical_y="@
        + signed_decimal_digits(region.inner.position.y as int) + "\nlogical_width="@
        + decimal_digits(region.inner.size.width as nat) + "\nlogical_height="@ + decimal_digits(
        region.inner.size.height as nat,
    ) + "\n"@
}

/// Render the sidecar description of a DMA-BUF capture.
pub fn format_dmabuf_metadata(
    format: u32,
    size: Size,
    stride: u32,
    modifier: u64,
    transform: Transform,
    region: LogicalRegion,
) -> (r: String)
    ensures
        r@ == dmabuf_metadata(format, size, stride, modifier, transform, region),
{
    let mut s: String = "format=0x".to_owned();
    push_hex_fixed(&mut s, format as u64, 8);
    s.push_str("\nwidth=");
    push_decimal(&mut s, size.width);
    s.push_str("\nheight=");
    push_decimal(&mut s, size.height);
    s.push_str("\nstride=");
    push_decimal(&mut s, stride);
    s.push_str("\nmodifier=0x");
    push_hex_fixed(&mut s, modifier, 16);
    s.push_str("\ntransform=");
    s.push_str(transform_name(transform));
    s.push_str("\nlogical_x=");
    push_signed_decimal(&mut s, region.inner.position.x);
    s.push_str("\nlogical_y=");
    push_signed_decimal(&mut s, region.inner.position.y);
    s.push_str("\nlogical_width=");
    push_decimal(&mut s, region.inner.size.width);
    s.push_str("\nlogical_height=");
    push_decimal(&mut s, region.inner.size.height);
    s.push_str("\n");
    proof {
        assert(s@ =~= dmabuf_metadata(format, size, stride, modifier, transform, region));
    }
    s
}

} // verus!
