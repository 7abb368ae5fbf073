//! Verified rendering of unsigned integers as hexadecimal and decimal text.

use vstd::prelude::*;

verus! {

/// The character for one digit value, `0 ..= 9` then `A ..= F`.
pub open spec fn digit_seq(d: u32) -> Seq<char> {
    if d == 0 {
        "0"@
    } else if d == 1 {
        "1"@
    } else if d == 2 {
        "2"@
    } else if d == 3 {
        "3"@
    } else if d == 4 {
        "4"@
    } else if d == 5 {
        "5"@
    } else if d == 6 {
        "6"@
    } else if d == 7 {
        "7"@
    } else if d == 8 {
        "8"@
    } else if d == 9 {
        "9"@
    } else if d == 10 {
        "A"@
    } else if d == 11 {
        "B"@
    } else if d == 12 {
        "C"@
    } else if d == 13 {
        "D"@
    } else if d == 14 {
        "E"@
    } else if d == 15 {
        "F"@
    } else {
        Seq::<char>::empty()
    }
}

/// The eight hexadecimal digits of a 32-bit value, most significant nibble
/// first, zero-padded to the full width.
pub open spec fn hex32_seq(n: u32) -> Seq<char> {
    digit_seq((n >> 28) & 0xF) + digit_seq((n >> 24) & 0xF) + digit_seq((n >> 20) & 0xF)
        + digit_seq((n >> 16) & 0xF) + digit_seq((n >> 12) & 0xF) + digit_seq((n >> 8) & 0xF)
        + digit_seq((n >> 4) & 0xF) + digit_seq(n & 0xF)
}

/// The decimal digits of a natural number, most significant first, with no
/// leading zeroes (a lone `0` for zero itself).
pub open spec fn dec_seq(n: nat) -> Seq<char>
    decreases n,
{
    if n < 10 {
        digit_seq(n as u32)
    } else {
        dec_seq(n / 10) + digit_seq((n % 10) as u32)
    }
}

/// The text for one digit value.
fn digit_str(d: u32) -> (r: &'static str)
    requires
        d < 16,
    ensures
        r@ == digit_seq(d),
{
    if d == 0 {
        "0"
    } else if d == 1 {
        "1"
    } else if d == 2 {
        "2"
    } else if d == 3 {
        "3"
    } else if d == 4 {
        "4"
    } else if d == 5 {
        "5"
    } else if d == 6 {
        "6"
    } else if d == 7 {
        "7"
    } else if d == 8 {
        "8"
    } else if d == 9 {
        "9"
    } else if d == 10 {
        "A"
    } else if d == 11 {
        "B"
    } else if d == 12 {
        "C"
    } else if d == 13 {
        "D"
    } else if d == 14 {
        "E"
    } else {
        "F"
    }
}

/// Every nibble of a 32-bit value is below sixteen.
proof fn lemma_nibble_bounds(n: u32)
    by (bit_vector)
    ensures
        (n >> 28) & 0xF < 16,
        (n >> 24) & 0xF < 16,
        (n >> 20) & 0xF < 16,
        (n >> 16) & 0xF < 16,
        (n >> 12) & 0xF < 16,
        (n >> 8) & 0xF < 16,
        (n >> 4) & 0xF < 16,
        n & 0xF < 16,
{
}

/// Renders a 32-bit value as eight upper-case hexadecimal digits.
pub fn u32_hex(n: u32) -> (r: String)
    ensures
        r@ == hex32_seq(n),
{
    proof {
        lemma_nibble_bounds(n);
    }
    let mut s = String::from_str(digit_str((n >> 28) & 0xF));
    s.append(digit_str((n >> 24) & 0xF));
    s.append(digit_str((n >> 20) & 0xF));
    s.append(digit_str((n >> 16) & 0xF));
    s.append(digit_str((n >> 12) & 0xF));
    s.append(digit_str((n >> 8) & 0xF));
    s.append(digit_str((n >> 4) & 0xF));
    s.append(digit_str(n & 0xF));
    proof {
        assert(s@ =~= hex32_seq(n));
    }
    s
}

/// Renders a 16-bit value in decimal, with no leading zeroes.
pub fn u16_dec(n: u16) -> (r: String)
    ensures
        r@ == dec_seq(n as nat),
    decreases n,
{
    if n < 10 {
        String::from_str(digit_str(n as u32))
    } else {
        let mut s = u16_dec(n / 10);
        s.append(digit_str((n % 10) as u32));
        proof {
            assert(s@ =~= dec_seq(n as nat));
        }
        s
    }
}

} // verus!
