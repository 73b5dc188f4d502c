//! Binary-coded decimal addition: each 4-bit nibble of a byte carries an
//! independent decimal digit, and every nibble sum above nine is corrected
//! by subtracting ten and carrying into the next nibble.

use vstd::prelude::*;

verus! {

use vstd::arithmetic::div_mod::{lemma_mod_multiples_vanish, lemma_small_mod};

use crate::addressing::lemma_wrap_once;

/// One corrected nibble addition: the digit sum with carry-in, minus ten
/// when it exceeds nine, together with the carry-out.
pub open spec fn bcd_digit_add(a: u8, b: u8, carry_in: bool) -> (u8, bool)
    recommends
        a < 0x10,
        b < 0x10,
{
    let s = a + b + if carry_in {
        1int
    } else {
        0int
    };
    if s > 9 {
        ((s - 10) as u8, true)
    } else {
        (s as u8, false)
    }
}

/// Byte-level decimal addition: the low nibbles are added first and their
/// carry feeds the high nibbles; the corrected nibbles are packed back
/// into one byte, and the high carry-out is the boundary carry.
pub open spec fn spec_bcd_add(a: u8, b: u8) -> (u8, bool) {
    let lo = bcd_digit_add(a & 0x0f, b & 0x0f, false);
    let hi = bcd_digit_add(a >> 4, b >> 4, lo.1);
    ((hi.0 << 4) | lo.0, hi.1)
}

/// Both nibbles of the byte hold decimal digits.
pub open spec fn is_bcd(x: u8) -> bool {
    (x & 0x0f) <= 9 && (x >> 4) <= 9
}

/// The two-digit decimal number a BCD byte stands for.
pub open spec fn bcd_val(x: u8) -> int {
    (x >> 4) * 10 + (x & 0x0f)
}

/// Adds two decimal digits and a carry-in, correcting a sum above nine
/// into a digit and a carry-out.
pub fn bcd_add_digit(a: u8, b: u8, carry: bool) -> (r: (u8, bool))
    requires
        a < 0x10,
        b < 0x10,
    ensures
        r == bcd_digit_add(a, b, carry),
{
    let sum = a + b + if carry {
        1
    } else {
        0
    };
    if sum > 9 {
        (sum - 10, true)
    } else {
        (sum, false)
    }
}

/// Adds two BCD bytes nibble by nibble, returning the packed decimal
/// result and the boundary carry.
pub fn bcd_add(a: u8, b: u8) -> (r: (u8, bool))
    ensures
        r == spec_bcd_add(a, b),
{
    proof {
        assert((a & 0x0f) < 0x10 && (b & 0x0f) < 0x10 && (a >> 4) < 0x10 && (b >> 4) < 0x10)
            by (bit_vector);
    }
    let (res_lo, carry_lo): (u8, bool) = bcd_add_digit(a & 0x0f, b & 0x0f, false);
    let (res_hi, carry): (u8, bool) = bcd_add_digit(a >> 4, b >> 4, carry_lo);

    ((res_hi << 4) | res_lo, carry)
}

/// For digit inputs, the corrected nibble addition is addition modulo ten
/// with the carry reporting a sum of ten or more; the result is again a
/// digit.
pub proof fn lemma_bcd_digit_add_correct(a: u8, b: u8, carry_in: bool)
    requires
        a <= 9,
        b <= 9,
    ensures
        ({
            let s = a + b + if carry_in {
                1int
            } else {
                0int
            };
            bcd_digit_add(a, b, carry_in).0 == s % 10
                && bcd_digit_add(a, b, carry_in).1 == (s >= 10)
                && bcd_digit_add(a, b, carry_in).0 <= 9
        }),
{
    let s = a + b + if carry_in {
        1int
    } else {
        0int
    };
    lemma_wrap_once(s, 10);
}

/// Decimal addition is exact: for bytes whose nibbles are decimal digits,
/// `bcd_add` returns the decimal sum modulo one hundred, again as two
/// decimal digits, with the carry reporting a sum of one hundred or more.
pub proof fn lemma_bcd_add_correct(a: u8, b: u8)
    requires
        is_bcd(a),
        is_bcd(b),
    ensures
        is_bcd(spec_bcd_add(a, b).0),
        bcd_val(spec_bcd_add(a, b).0) == (bcd_val(a) + bcd_val(b)) % 100,
        spec_bcd_add(a, b).1 == (bcd_val(a) + bcd_val(b) >= 100),
{
    let al = a & 0x0f;
    let ah = a >> 4;
    let bl = b & 0x0f;
    let bh = b >> 4;
    let lo = bcd_digit_add(al, bl, false);
    let hi = bcd_digit_add(ah, bh, lo.1);
    lemma_bcd_digit_add_correct(al, bl, false);
    lemma_bcd_digit_add_correct(ah, bh, lo.1);
    let hd: u8 = hi.0;
    let ld: u8 = lo.0;
    let packed: u8 = (hd << 4) | ld;
    assert(hd <= 9 && ld <= 9 ==> (packed & 0x0f) == ld && (packed >> 4) == hd) by (bit_vector)
        requires
            packed == ((hd << 4) | ld),
    ;
    let total = bcd_val(a) + bcd_val(b);
    assert(total == 100 * (if hi.1 { 1int } else { 0int }) + bcd_val(packed));
    if hi.1 {
        lemma_mod_multiples_vanish(1, bcd_val(packed), 100);
    }
    lemma_small_mod(bcd_val(packed) as nat, 100nat);
}

} // verus!
