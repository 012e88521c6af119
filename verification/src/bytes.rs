//! Little-endian views of byte buffers.
//!
//! Tensor payloads arrive as raw little-endian bytes; these functions
//! reassemble them into 32-bit words and state the encodings of the
//! integer rows the pipeline builds.

use vstd::prelude::*;

verus! {

/// Word `i` of `b`, read as four little-endian bytes.
pub open spec fn word_at(b: Seq<u8>, i: int) -> u32 {
    (b[4 * i] as u32) | ((b[4 * i + 1] as u32) << 8u32) | ((b[4 * i + 2] as u32) << 16u32) | ((b[4
        * i + 3] as u32) << 24u32)
}

/// All complete four-byte words of `b`, each read little-endian.
pub open spec fn le_words(b: Seq<u8>) -> Seq<u32> {
    Seq::new((b.len() / 4) as nat, |i: int| word_at(b, i))
}

/// Byte `j` of the eight-byte little-endian form of `x`.
pub open spec fn le64_byte(x: i64, j: int) -> u8 {
    (((x as u64) >> ((8 * j) as u64)) & 0xff) as u8
}

/// The little-endian byte run of a row of 64-bit integers.
pub open spec fn i64_row_bytes(vals: Seq<i64>) -> Seq<u8> {
    Seq::new(vals.len() * 8, |i: int| le64_byte(vals[i / 8], i % 8))
}

/// Reassembles the complete four-byte words of `bytes`, little-endian.
pub fn words_from_le(bytes: &Vec<u8>) -> (r: Vec<u32>)
    ensures
        r@ == le_words(bytes@),
{
    let n: usize = bytes.len() / 4;
    let mut r: Vec<u32> = Vec::new();
    let mut j: usize = 0;
    while j < n
        invariant
            n == bytes@.len() / 4,
            bytes@.len() <= usize::MAX,
            j <= n,
            r@ =~= le_words(bytes@).take(j as int),
        decreases n - j,
    {
        proof {
            assert(4 * (n as int) <= bytes@.len());
            assert(4 * (j as int) + 3 < bytes@.len());
        }
        let b0 = bytes[4 * j];
        let b1 = bytes[4 * j + 1];
        let b2 = bytes[4 * j + 2];
        let b3 = bytes[4 * j + 3];
        let w: u32 = (b0 as u32) | ((b1 as u32) << 8u32) | ((b2 as u32) << 16u32) | ((b3 as u32)
            << 24u32);
        r.push(w);
        j = j + 1;
    }
    proof {
        assert(r@ =~= le_words(bytes@));
    }
    r
}

} // verus!
