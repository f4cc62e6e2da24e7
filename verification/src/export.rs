//! The binary PPM (`P6`) export format.
//!
//! The on-disk form of an image is an ASCII header `P6 {width} {height} 255\n`
//! followed immediately by the raw channel bytes, with nothing in between and
//! no padding. This module states the header's bytes exactly and renders the
//! two dimensions in decimal.

use vstd::prelude::*;

verus! {

/// The decimal digits of `n` as ASCII bytes, most significant first,
/// without leading zeros (a single `'0'` for zero).
pub open spec fn dec_digits(n: nat) -> Seq<u8>
    decreases n,
{
    if n < 10 {
        seq![(n + 48) as u8]
    } else {
        dec_digits(n / 10).push(((n % 10) + 48) as u8)
    }
}

/// The exact bytes of the header `P6 {width} {height} 255\n`.
pub open spec fn header_bytes(width: u32, height: u32) -> Seq<u8> {
    seq![80u8, 54u8, 32u8] + dec_digits(width as nat) + seq![32u8] + dec_digits(height as nat)
        + seq![32u8, 50u8, 53u8, 53u8, 10u8]
}

/// Appends the decimal digits of `n` to `out`, most significant first.
pub fn push_decimal(n: u32, out: &mut Vec<u8>)
    ensures
        final(out)@ == old(out)@ + dec_digits(n as nat),
    decreases n,
{
    if n < 10 {
        out.push((n as u8) + 48);
        assert(out@ =~= old(out)@ + dec_digits(n as nat));
    } else {
        push_decimal(n / 10, out);
        out.push(((n % 10) as u8) + 48);
        assert(out@ =~= old(out)@ + dec_digits(n as nat));
    }
}

} // verus!
