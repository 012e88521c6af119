//! The streamed presentation of an embedding.
//!
//! A generated vector is shown as a header line followed by the entries'
//! bit patterns in lowercase hexadecimal, eight to a line.  Every chunk of
//! the stream is pinned down here: its text, its done flag and its counter.

use vstd::prelude::*;
use vstd::string::StringExecFns;
use crate::hexfmt::hex_seq;
use crate::hexfmt::hex8;
use crate::numfmt::dec_seq;
use crate::numfmt::dec_string;
use crate::numfmt::push_char;
use crate::numfmt::str_chars;

verus! {

/// The magnitude bits of a 32-bit float pattern: everything but the sign.
pub open spec fn mag(b: u32) -> u32 {
    b & 0x7fffffff
}

/// Whether the pattern is a not-a-number: magnitude above the infinity
/// pattern.
pub open spec fn is_nan_bits(b: u32) -> bool {
    mag(b) > 0x7f800000
}

/// Whether the entry counts as non-zero for the header: its absolute value
/// lies above the reporting threshold of one millionth.  A not-a-number
/// entry is not above anything.
pub open spec fn counts_above(b: u32) -> bool {
    !is_nan_bits(b) && mag(b) > 0x358637bd
}

/// How many entries count as non-zero.
pub open spec fn count_above(s: Seq<u32>) -> int
    decreases s.len(),
{
    if s.len() == 0 {
        0
    } else {
        count_above(s.drop_last()) + if counts_above(s.last()) {
            1int
        } else {
            0
        }
    }
}

/// The magnitude bits of the largest absolute value, folded from zero and
/// passing not-a-number entries over, as a float maximum does.
pub open spec fn max_abs_fold(s: Seq<u32>) -> u32
    decreases s.len(),
{
    if s.len() == 0 {
        0
    } else {
        let p = max_abs_fold(s.drop_last());
        if is_nan_bits(s.last()) {
            p
        } else if mag(s.last()) > p {
            mag(s.last())
        } else {
            p
        }
    }
}

/// The smallest magnitude among the entries, not-a-number entries passed
/// over, with an all-ones sentinel where no entry counts.
pub open spec fn min_mag(s: Seq<u32>) -> u32
    decreases s.len(),
{
    if s.len() == 0 {
        0xffffffffu32
    } else {
        let p = min_mag(s.drop_last());
        if is_nan_bits(s.last()) {
            p
        } else if mag(s.last()) < p {
            mag(s.last())
        } else {
            p
        }
    }
}

/// The magnitude bits of the smallest absolute value among the entries,
/// not-a-number entries passed over; zero where no entry counts.
pub open spec fn min_abs_fold(s: Seq<u32>) -> u32 {
    if min_mag(s) == 0xffffffffu32 {
        0
    } else {
        min_mag(s)
    }
}

/// The header's reporting figures for a vector: the non-zero count and the
/// magnitude bits of the extreme absolute values.
pub struct VectorStats {
    pub nonzero: usize,
    pub min_abs_bits: u32,
    pub max_abs_bits: u32,
}

proof fn lemma_count_above_bound(s: Seq<u32>)
    ensures
        0 <= count_above(s) <= s.len(),
    decreases s.len(),
{
    if s.len() > 0 {
        lemma_count_above_bound(s.drop_last());
    }
}

/// Computes the header figures of a vector of bit patterns.
pub fn vector_stats(bits: &Vec<u32>) -> (r: VectorStats)
    ensures
        r.nonzero as int == count_above(bits@),
        r.min_abs_bits == min_abs_fold(bits@),
        r.max_abs_bits == max_abs_fold(bits@),
{
    let mut nonzero: usize = 0;
    let mut mn: u32 = 0xffffffff;
    let mut mx: u32 = 0;
    let mut i: usize = 0;
    while i < bits.len()
        invariant
            i <= bits@.len(),
            nonzero as int == count_above(bits@.take(i as int)),
            nonzero <= i,
            mn == min_mag(bits@.take(i as int)),
            mx == max_abs_fold(bits@.take(i as int)),
        decreases bits@.len() - i,
    {
        let b = bits[i];
        let m = b & 0x7fffffff;
        let nan = m > 0x7f800000;
        proof {
            assert(bits@.take(i + 1).drop_last() =~= bits@.take(i as int));
            assert(bits@.take(i + 1).last() == bits@[i as int]);
            lemma_count_above_bound(bits@.take(i as int));
        }
        if !nan && m > 0x358637bd {
            nonzero = nonzero + 1;
        }
        if !nan && m < mn {
            mn = m;
        }
        if !nan && m > mx {
            mx = m;
        }
        i = i + 1;
    }
    proof {
        assert(bits@.take(bits@.len() as int) =~= bits@);
    }
    let min_abs_bits: u32 = if mn == 0xffffffff {
        0
    } else {
        mn
    };
    VectorStats { nonzero, min_abs_bits, max_abs_bits: mx }
}

/// The header text: the prompt, the dimension, the non-zero count and the
/// reported range, followed by the opening of the hexadecimal block.
pub open spec fn header_seq(
    prompt: Seq<char>,
    n: int,
    nonzero: int,
    min_text: Seq<char>,
    max_text: Seq<char>,
) -> Seq<char> {
    "Embedding generated for: '"@ + prompt + "'\nDim: "@ + dec_seq(n) + " | Non-zero: "@ + dec_seq(
        nonzero,
    ) + " | Range: ["@ + min_text + ", "@ + max_text + "]\n\nVector (hex):\n"@
}

/// Builds the header text.
pub fn build_header(
    prompt: &str,
    n: usize,
    nonzero: usize,
    min_text: &str,
    max_text: &str,
) -> (r: String)
    ensures
        r@ == header_seq(prompt@, n as int, nonzero as int, min_text@, max_text@),
{
    let mut s = String::from_str("Embedding generated for: '");
    s.append(prompt);
    s.append("'\nDim: ");
    let dn = dec_string(n);
    s.append(dn.as_str());
    s.append(" | Non-zero: ");
    let dz = dec_string(nonzero);
    s.append(dz.as_str());
    s.append(" | Range: [");
    s.append(min_text);
    s.append(", ");
    s.append(max_text);
    s.append("]\n\nVector (hex):\n");
    proof {
        assert(s@ =~= header_seq(prompt@, n as int, nonzero as int, min_text@, max_text@));
    }
    s
}

/// The separator after entry `i`: a line break after every eighth entry, a
/// space otherwise.
pub open spec fn sep_seq(i: int) -> Seq<char> {
    if (i + 1) % 8 == 0 {
        "\n"@
    } else {
        " "@
    }
}

/// One chunk of the stream: its text, its done flag and its counter.
pub struct Chunk {
    pub text: String,
    pub done: bool,
    pub tokens_generated: usize,
}

/// The header for a stream over `bits`.
pub open spec fn stream_header(
    prompt: Seq<char>,
    bits: Seq<u32>,
    min_text: Seq<char>,
    max_text: Seq<char>,
) -> Seq<char> {
    header_seq(prompt, bits.len() as int, count_above(bits), min_text, max_text)
}

/// The whole expected stream, chunk by chunk: each header character alone
/// with a zero counter, then each entry as eight hexadecimal digits and its
/// separator with the entry's index as counter, then one final empty chunk,
/// done, whose counter is the vector length.  Nothing follows the final
/// chunk.
pub open spec fn stream_spec(
    prompt: Seq<char>,
    bits: Seq<u32>,
    min_text: Seq<char>,
    max_text: Seq<char>,
) -> Seq<(Seq<char>, bool, int)> {
    let h = stream_header(prompt, bits, min_text, max_text);
    Seq::new(
        (h.len() + bits.len() + 1) as nat,
        |j: int|
            if j < h.len() {
                (seq![h[j]], false, 0int)
            } else if j < h.len() + bits.len() {
                (hex_seq(bits[j - h.len()]) + sep_seq(j - h.len()), false, j - h.len())
            } else {
                (Seq::<char>::empty(), true, bits.len() as int)
            },
    )
}

/// Builds the stream of chunks for `bits`, with the range texts supplied by
/// the caller.  The result is exactly `stream_spec` of the inputs.
pub fn stream_chunks(prompt: &str, bits: &Vec<u32>, min_text: &str, max_text: &str) -> (r: Vec<
    Chunk,
>)
    requires
        bits@.len() < usize::MAX - 1,
    ensures
        r@.len() == stream_spec(prompt@, bits@, min_text@, max_text@).len(),
        forall|j: int|
            0 <= j < r@.len() ==> ((#[trigger] r@[j]).text@, r@[j].done, r@[j].tokens_generated
                as int) == stream_spec(prompt@, bits@, min_text@, max_text@)[j],
{
    let ghost sspec = stream_spec(prompt@, bits@, min_text@, max_text@);
    let stats = vector_stats(bits);
    let header = build_header(prompt, bits.len(), stats.nonzero, min_text, max_text);
    let hchars = str_chars(header.as_str());
    let ghost h = stream_header(prompt@, bits@, min_text@, max_text@);
    proof {
        assert(hchars@ == h);
    }
    let mut out: Vec<Chunk> = Vec::new();
    let mut j: usize = 0;
    while j < hchars.len()
        invariant
            hchars@ == h,
            h == stream_header(prompt@, bits@, min_text@, max_text@),
            sspec == stream_spec(prompt@, bits@, min_text@, max_text@),
            sspec.len() == h.len() + bits@.len() + 1,
            j <= hchars@.len(),
            out@.len() == j,
            forall|k: int|
                0 <= k < j ==> ((#[trigger] out@[k]).text@, out@[k].done, out@[k].tokens_generated
                    as int) == sspec[k],
        decreases hchars@.len() - j,
    {
        let mut t = String::new();
        push_char(&mut t, hchars[j]);
        proof {
            assert(t@ =~= seq![h[j as int]]);
            assert(sspec[j as int] == (seq![h[j as int]], false, 0int));
        }
        out.push(Chunk { text: t, done: false, tokens_generated: 0 });
        proof {
            assert((out@[j as int].text@, out@[j as int].done, out@[j as int].tokens_generated
                as int) == sspec[j as int]);
        }
        j = j + 1;
    }
    let mut i: usize = 0;
    while i < bits.len()
        invariant
            hchars@ == h,
            h == stream_header(prompt@, bits@, min_text@, max_text@),
            sspec == stream_spec(prompt@, bits@, min_text@, max_text@),
            sspec.len() == h.len() + bits@.len() + 1,
            bits@.len() < usize::MAX - 1,
            i <= bits@.len(),
            out@.len() == h.len() + i,
            forall|k: int|
                0 <= k < out@.len() ==> ((#[trigger] out@[k]).text@, out@[k].done,
                out@[k].tokens_generated as int) == sspec[k],
        decreases bits@.len() - i,
    {
        let mut t = hex8(bits[i]);
        if (i + 1) % 8 == 0 {
            push_char(&mut t, '\n');
            proof {
                reveal_strlit("\n");
                assert(t@ =~= hex_seq(bits@[i as int]) + sep_seq(i as int));
            }
        } else {
            push_char(&mut t, ' ');
            proof {
                reveal_strlit(" ");
                assert(t@ =~= hex_seq(bits@[i as int]) + sep_seq(i as int));
            }
        }
        out.push(Chunk { text: t, done: false, tokens_generated: i });
        i = i + 1;
    }
    out.push(Chunk { text: String::new(), done: true, tokens_generated: bits.len() });
    proof {
        assert(out@.len() == sspec.len());
    }
    out
}

} // verus!
