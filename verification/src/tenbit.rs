//! Widening of packed 10/2-bit channel data to flat 16-bit samples.
//!
//! A packed pixel is 4 little-endian bytes holding a 2-bit alpha field and
//! three 10-bit channels. Unpacking emits 3 or 4 samples of 16 bits per
//! pixel, in straight or red/blue-swapped channel order, to cover the two
//! supported 10-bit format families.

use vstd::prelude::*;

use crate::types::Error;

verus! {

/// Order in which the three color channels of a packed pixel are emitted.
#[derive(Debug, Copy, Clone, PartialEq, Eq, Structural)]
pub enum ChannelOrder {
    Rgb,
    Bgr,
}

/// A 10-bit sample widened to 16 bits by repeating its high bits into the
/// vacated low bits (instead of zero-filling, which would cause banding).
pub open spec fn widen10(v: u16) -> u16 {
    (v << 6) | (v >> 4)
}

/// The fixed 2-bit alpha expansion table.
pub open spec fn alpha16(v: u16) -> u16 {
    if v == 0 {
        0x0000
    } else if v == 1 {
        0x5555
    } else if v == 2 {
        0xAAAA
    } else {
        0xFFFF
    }
}

/// The 32-bit packed pixel read little-endian from the 4 bytes starting at
/// byte `4 * g` of `s`.
pub open spec fn packed_pixel(s: Seq<u8>, g: int) -> u32 {
    (s[4 * g] as u32) | ((s[4 * g + 1] as u32) << 8) | ((s[4 * g + 2] as u32) << 16) | ((s[4 * g
        + 3] as u32) << 24)
}

/// The 10-bit channel of a packed pixel that starts at bit `sh`.
pub open spec fn chan10(p: u32, sh: u32) -> u16 {
    ((p >> sh) & 0x3ff) as u16
}

/// The 2-bit alpha field of a packed pixel.
pub open spec fn alpha2(p: u32) -> u16 {
    ((p >> 30) & 0x3) as u16
}

/// How many 16-bit samples unpacking emits per packed pixel.
pub open spec fn samples_per_pixel(include_alpha: bool) -> int {
    if include_alpha {
        4
    } else {
        3
    }
}

/// The `k`-th sample that unpacking `s` emits: the widened 10-bit channel
/// in the requested order, or, for the fourth sample of a pixel, the
/// expanded 2-bit alpha field.
pub open spec fn unpacked_sample(
    s: Seq<u8>,
    order: ChannelOrder,
    include_alpha: bool,
    k: int,
) -> u16 {
    let stride = samples_per_pixel(include_alpha);
    let p = packed_pixel(s, k / stride);
    let c = k % stride;
    if c == 3 {
        alpha16(alpha2(p))
    } else {
        let sh: u32 = match order {
            ChannelOrder::Rgb => if c == 0 {
                20u32
            } else if c == 1 {
                10u32
            } else {
                0u32
            },
            ChannelOrder::Bgr => if c == 0 {
                0u32
            } else if c == 1 {
                10u32
            } else {
                20u32
            },
        };
        widen10(chan10(p, sh))
    }
}

/// Scale a 10-bit sample to 16 bits by repeating the high bits.
pub fn expand_10_bit(value: u16) -> (r: u16)
    ensures
        r == widen10(value),
{
    (value << 6u32) | (value >> 4u32)
}

/// Expand a 2-bit alpha field through the fixed table
/// 0 -> 0x0000, 1 -> 0x5555, 2 -> 0xAAAA, 3 -> 0xFFFF.
pub fn expand_alpha_2bit(value: u16) -> (r: u16)
    ensures
        r == alpha16(value),
{
    match value {
        0 => 0x0000,
        1 => 0x5555,
        2 => 0xAAAA,
        _ => 0xFFFF,
    }
}

/// Law: widening is monotonic on 10-bit samples and exact at the extremes,
/// `widen10(0) == 0` and `widen10(1023) == 65535`.
pub proof fn lemma_widen10_monotonic(a: u16, b: u16)
    requires
        a <= b,
        b <= 1023,
    ensures
        widen10(a) <= widen10(b),
        widen10(0) == 0,
        widen10(1023) == 65535,
{
    assert(((a << 6) | (a >> 4)) <= ((b << 6) | (b >> 4))) by (bit_vector)
        requires
            a <= b,
            b <= 1023u16,
    ;
    assert(((0u16 << 6) | (0u16 >> 4)) == 0u16) by (bit_vector);
    assert(((1023u16 << 6) | (1023u16 >> 4)) == 65535u16) by (bit_vector);
}

/// Unpack a sequence of 4-byte little-endian packed pixels into flat 16-bit
/// samples, 3 per pixel, or 4 when the 2-bit alpha field is requested too.
/// A length that is not a multiple of 4 bytes is a format error, never a
/// fault.
pub fn convert_10bit_to_u16(data: &[u8], order: ChannelOrder, include_alpha: bool) -> (r: Result<
    Vec<u16>,
    Error,
>)
    ensures
        r is Ok <==> data@.len() % 4 == 0,
        data@.len() % 4 != 0 ==> r == Err::<Vec<u16>, Error>(Error::BufferTooSmall),
        r matches Ok(v) ==> v@.len() == (data@.len() as int / 4) * samples_per_pixel(include_alpha)
            && forall|k: int|
            0 <= k < v@.len() ==> v@[k] == unpacked_sample(data@, order, include_alpha, k),
{
    let n: usize = data.len();
    if n % 4 != 0 {
        return Err(Error::BufferTooSmall);
    }
    let groups: usize = n / 4;
    let stride: usize = if include_alpha {
        4
    } else {
        3
    };
    let mut out: Vec<u16> = Vec::new();
    let mut g: usize = 0;
    while g < groups
        invariant
            n == data@.len(),
            groups == n / 4,
            g <= groups,
            stride == samples_per_pixel(include_alpha),
            out@.len() == g * stride,
            forall|k: int|
                0 <= k < out@.len() ==> out@[k] == unpacked_sample(data@, order, include_alpha, k),
        decreases groups - g,
    {
        proof {
            assert(4 * (g as int) + 4 <= 4 * (groups as int)) by (nonlinear_arith)
                requires (g as int) < groups as int;
            assert(4 * (groups as int) <= n as int) by (nonlinear_arith)
                requires groups as int == n as int / 4;
            assert(out@.len() + stride as int <= groups as int * stride as int)
                by (nonlinear_arith)
                requires
                    out@.len() == g as int * stride as int,
                    (g as int) < groups as int,
                    1 <= stride as int,
            ;
            assert(groups as int * stride as int <= usize::MAX) by (nonlinear_arith)
                requires
                    groups as int <= n as int / 4,
                    n <= usize::MAX,
                    stride as int <= 4,
                    0 <= groups as int,
            ;
        }
        let b0: u8 = data[4 * g];
        let b1: u8 = data[4 * g + 1];
        let b2: u8 = data[4 * g + 2];
        let b3: u8 = data[4 * g + 3];
        let pixel: u32 = (b0 as u32) | ((b1 as u32) << 8u32) | ((b2 as u32) << 16u32) | ((b3
            as u32) << 24u32);
        proof {
            assert(pixel == packed_pixel(data@, g as int));
            assert(((pixel >> 20) & 0x3ff) <= 0x3ff) by (bit_vector);
            assert(((pixel >> 10) & 0x3ff) <= 0x3ff) by (bit_vector);
            assert((pixel & 0x3ff) == ((pixel >> 0) & 0x3ff)) by (bit_vector);
            assert((pixel & 0x3ff) <= 0x3ff) by (bit_vector);
            assert(((pixel >> 30) & 0x3) <= 0x3) by (bit_vector);
        }
        let red: u16 = expand_10_bit(((pixel >> 20u32) & 0x3ff) as u16);
        let green: u16 = expand_10_bit(((pixel >> 10u32) & 0x3ff) as u16);
        let blue: u16 = expand_10_bit((pixel & 0x3ff) as u16);
        let (c0, c1, c2): (u16, u16, u16) = match order {
            ChannelOrder::Rgb => (red, green, blue),
            ChannelOrder::Bgr => (blue, green, red),
        };
        let ghost base = out@.len();
        out.push(c0);
        out.push(c1);
        out.push(c2);
        if include_alpha {
            let alpha: u16 = ((pixel >> 30u32) & 0x3) as u16;
            out.push(expand_alpha_2bit(alpha));
        }
        proof {
            assert forall|k: int| base <= k < out@.len() implies out@[k] == unpacked_sample(
                data@,
                order,
                include_alpha,
                k,
            ) by {
                assert(k / stride as int == g as int && k % stride as int == k - base)
                    by (nonlinear_arith)
                    requires
                        base == g as int * stride as int,
                        base <= k < base + stride as int,
                        3 <= stride as int <= 4,
                ;
            }
        }
        g = g + 1;
    }
    proof {
        assert(out@.len() == (data@.len() as int / 4) * samples_per_pixel(include_alpha));
    }
    Ok(out)
}

} // verus!
