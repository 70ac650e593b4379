//! Decimal and hexadecimal rendering of machine integers into strings,
//! for time-derived shared-memory names and the DMA sidecar description.

use vstd::prelude::*;

verus! {

/// The character of one decimal digit.
pub open spec fn digit_char(d: nat) -> char
    recommends
        d < 10,
{
    ((48 + d) as u8) as char
}

/// The character of one lower-case hexadecimal digit.
pub open spec fn hex_digit_char(d: nat) -> char
    recommends
        d < 16,
{
    if d < 10 {
        digit_char(d)
    } else {
        ((87 + d) as u8) as char
    }
}

/// The decimal digit characters of `n`, most significant first, without
/// leading zeros (a lone zero for 0).
pub open spec fn decimal_digits(n: nat) -> Seq<char>
    decreases n,
{
    if n < 10 {
        seq![digit_char(n)]
    } else {
        decimal_digits(n / 10).push(digit_char(n % 10))
    }
}

/// The decimal rendering of a signed value: a minus sign before the digits
/// of its magnitude where it is negative.
pub open spec fn signed_decimal_digits(v: int) -> Seq<char> {
    if v < 0 {
        seq!['-'] + decimal_digits((-v) as nat)
    } else {
        decimal_digits(v as nat)
    }
}

/// The lowest `width` hexadecimal digits of `n`, most significant first,
/// zero-padded to exactly `width` characters.
pub open spec fn hex_fixed(n: nat, width: nat) -> Seq<char>
    decreases width,
{
    if width == 0 {
        Seq::empty()
    } else {
        hex_fixed(n / 16, (width - 1) as nat).push(hex_digit_char(n % 16))
    }
}

/// Append the decimal digits of `n` to `s`.
pub fn push_decimal(s: &mut String, n: u32)
    ensures
        final(s)@ == old(s)@ + decimal_digits(n as nat),
    decreases n,
{
    if n >= 10 {
        push_decimal(s, n / 10);
    }
    let d: u8 = (n % 10) as u8;
    s.push((48 + d) as char);
    proof {
        assert(s@ =~= old(s)@ + decimal_digits(n as nat));
    }
}

/// Append the decimal rendering of a signed value to `s`.
pub fn push_signed_decimal(s: &mut String, v: i32)
    ensures
        final(s)@ == old(s)@ + signed_decimal_digits(v as int),
{
    if v < 0 {
        s.push('-');
        let magnitude: u32 = (-(v as i64)) as u32;
        push_decimal(s, magnitude);
        proof {
            assert(s@ =~= old(s)@ + signed_decimal_digits(v as int));
        }
    } else {
        push_decimal(s, v as u32);
    }
}

/// Append exactly `width` zero-padded lower-case hexadecimal digits of `n`
/// to `s`, most significant first.
pub fn push_hex_fixed(s: &mut String, n: u64, width: u32)
    ensures
        final(s)@ == old(s)@ + hex_fixed(n as nat, width as nat),
    decreases width,
{
    if width == 0 {
        proof {
            assert(s@ =~= old(s)@ + hex_fixed(n as nat, 0));
        }
        return ;
    }
    push_hex_fixed(s, n / 16, width - 1);
    let d: u8 = (n % 16) as u8;
    let c: char = if d < 10 {
        (48 + d) as char
    } else {
        (87 + d) as char
    };
    s.push(c);
    proof {
        assert(s@ =~= old(s)@ + hex_fixed(n as nat, width as nat));
    }
}

} // verus!
