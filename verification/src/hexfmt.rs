//! Lowercase hexadecimal rendering of 32-bit words, and its inverse.
//!
//! A vector entry is streamed as the eight-digit hexadecimal form of its
//! IEEE-754 bit pattern.  The decode function and the round-trip lemma pin
//! down that the stream carries exactly the bits of the vector.

use vstd::prelude::*;

verus! {

/// The character for one hexadecimal digit value, lowercase.
pub open spec fn hex_digit(d: int) -> char {
    if d == 0 {
        '0'
    } else if d == 1 {
        '1'
    } else if d == 2 {
        '2'
    } else if d == 3 {
        '3'
    } else if d == 4 {
        '4'
    } else if d == 5 {
        '5'
    } else if d == 6 {
        '6'
    } else if d == 7 {
        '7'
    } else if d == 8 {
        '8'
    } else if d == 9 {
        '9'
    } else if d == 10 {
        'a'
    } else if d == 11 {
        'b'
    } else if d == 12 {
        'c'
    } else if d == 13 {
        'd'
    } else if d == 14 {
        'e'
    } else {
        'f'
    }
}

/// The numeric value of one hexadecimal digit character, or 16 for any other
/// character.
pub open spec fn hex_char_val(c: char) -> int {
    if c == '0' {
        0
    } else if c == '1' {
        1
    } else if c == '2' {
        2
    } else if c == '3' {
        3
    } else if c == '4' {
        4
    } else if c == '5' {
        5
    } else if c == '6' {
        6
    } else if c == '7' {
        7
    } else if c == '8' {
        8
    } else if c == '9' {
        9
    } else if c == 'a' {
        10
    } else if c == 'b' {
        11
    } else if c == 'c' {
        12
    } else if c == 'd' {
        13
    } else if c == 'e' {
        14
    } else if c == 'f' {
        15
    } else {
        16
    }
}

/// Digit `i` of `x` counted from the least significant end.
pub open spec fn nib(x: u32, i: int) -> int {
    ((x >> ((4 * i) as u32)) & 0xf) as int
}

/// The eight-digit lowercase hexadecimal form of `x`, most significant digit
/// first.
pub open spec fn hex_seq(x: u32) -> Seq<char> {
    Seq::new(8, |i: int| hex_digit(nib(x, 7 - i)))
}

/// The value of the first `k` characters of `s` read as a base-sixteen
/// number.
pub open spec fn hex_val_prefix(s: Seq<char>, k: int) -> int
    decreases k,
{
    if k <= 0 {
        0
    } else {
        hex_val_prefix(s, k - 1) * 16 + hex_char_val(s[k - 1])
    }
}

/// The value of all of `s` read as a base-sixteen number.
pub open spec fn hex_val(s: Seq<char>) -> int {
    hex_val_prefix(s, s.len() as int)
}

/// Every digit value below sixteen decodes back to itself.
proof fn lemma_digit_round_trip(d: int)
    requires
        0 <= d < 16,
    ensures
        hex_char_val(hex_digit(d)) == d,
{
}

/// Reading the eight rendered digits of `x` back as a base-sixteen number
/// yields `x` again: the hexadecimal rendering loses nothing.
pub proof fn lemma_hex_round_trip(x: u32)
    ensures
        hex_val(hex_seq(x)) == x,
{
    let s = hex_seq(x);
    assert forall|i: int| 0 <= i < 8 implies hex_char_val(s[i]) == nib(x, 7 - i) by {
        let sh = (4 * (7 - i)) as u32;
        assert((x >> sh) & 0xf < 16) by (bit_vector);
        lemma_digit_round_trip(nib(x, 7 - i));
    }
    let n0 = (x >> 0u32) & 0xf;
    let n1 = (x >> 4u32) & 0xf;
    let n2 = (x >> 8u32) & 0xf;
    let n3 = (x >> 12u32) & 0xf;
    let n4 = (x >> 16u32) & 0xf;
    let n5 = (x >> 20u32) & 0xf;
    let n6 = (x >> 24u32) & 0xf;
    let n7 = (x >> 28u32) & 0xf;
    assert(nib(x, 0) == n0 && nib(x, 1) == n1 && nib(x, 2) == n2 && nib(x, 3) == n3 && nib(x, 4)
        == n4 && nib(x, 5) == n5 && nib(x, 6) == n6 && nib(x, 7) == n7);
    let v7: int = n7 as int;
    let v6: int = v7 * 16 + n6;
    let v5: int = v6 * 16 + n5;
    let v4: int = v5 * 16 + n4;
    let v3: int = v4 * 16 + n3;
    let v2: int = v3 * 16 + n2;
    let v1: int = v2 * 16 + n1;
    let v0: int = v1 * 16 + n0;
    assert(hex_val_prefix(s, 8) == v0) by {
        reveal_with_fuel(hex_val_prefix, 9);
    }
    let w7: int = (n7 as int) * 0x10000000;
    let w6: int = (n6 as int) * 0x1000000;
    let w5: int = (n5 as int) * 0x100000;
    let w4: int = (n4 as int) * 0x10000;
    let w3: int = (n3 as int) * 0x1000;
    let w2: int = (n2 as int) * 0x100;
    let w1: int = (n1 as int) * 0x10;
    assert(v0 == w7 + w6 + w5 + w4 + w3 + w2 + w1 + n0);
    assert(x == n7 * 0x10000000 + n6 * 0x1000000 + n5 * 0x100000 + n4 * 0x10000 + n3 * 0x1000 + n2
        * 0x100 + n1 * 0x10 + n0) by (bit_vector)
        requires
            n0 == (x >> 0u32) & 0xf,
            n1 == (x >> 4u32) & 0xf,
            n2 == (x >> 8u32) & 0xf,
            n3 == (x >> 12u32) & 0xf,
            n4 == (x >> 16u32) & 0xf,
            n5 == (x >> 20u32) & 0xf,
            n6 == (x >> 24u32) & 0xf,
            n7 == (x >> 28u32) & 0xf,
    ;
}

fn hex_digit_char(d: u32) -> (r: char)
    requires
        d < 16,
    ensures
        r == hex_digit(d as int),
{
    if d == 0 {
        '0'
    } else if d == 1 {
        '1'
    } else if d == 2 {
        '2'
    } else if d == 3 {
        '3'
    } else if d == 4 {
        '4'
    } else if d == 5 {
        '5'
    } else if d == 6 {
        '6'
    } else if d == 7 {
        '7'
    } else if d == 8 {
        '8'
    } else if d == 9 {
        '9'
    } else if d == 10 {
        'a'
    } else if d == 11 {
        'b'
    } else if d == 12 {
        'c'
    } else if d == 13 {
        'd'
    } else if d == 14 {
        'e'
    } else {
        'f'
    }
}

/// Renders `x` as eight lowercase hexadecimal digits.
pub fn hex8(x: u32) -> (r: String)
    ensures
        r@ == hex_seq(x),
{
    let mut s = String::new();
    let mut i: usize = 0;
    while i < 8
        invariant
            i <= 8,
            s@ =~= hex_seq(x).take(i as int),
        decreases 8 - i,
    {
        let shift: u32 = 28 - 4 * (i as u32);
        let d: u32 = (x >> shift) & 0xf;
        proof {
            let ii = i as int;
            assert(shift == (4 * (7 - ii)) as u32);
            let sh = shift;
            assert((x >> sh) & 0xf < 16) by (bit_vector);
            assert(d as int == nib(x, 7 - ii));
        }
        crate::numfmt::push_char(&mut s, hex_digit_char(d));
        i = i + 1;
    }
    proof {
        assert(s@ =~= hex_seq(x));
    }
    s
}

} // verus!
