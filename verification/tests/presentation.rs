use sidecar::bytes::words_from_le;
use sidecar::hexfmt::hex8;
use sidecar::numfmt::dec_string;
use sidecar::present::build_header;
use sidecar::present::stream_chunks;
use sidecar::present::vector_stats;

#[test]
fn decimal_rendering_is_exact() {
    assert_eq!(dec_string(0), "0");
    assert_eq!(dec_string(7), "7");
    assert_eq!(dec_string(384), "384");
    assert_eq!(dec_string(30522), "30522");
}

#[test]
fn hex_rendering_matches_the_bit_pattern() {
    assert_eq!(hex8(0x3f800000), "3f800000");
    assert_eq!(hex8(42), "0000002a");
    assert_eq!(hex8(0xffffffff), "ffffffff");
    assert_eq!(hex8(1.0f32.to_bits()), "3f800000");
}

#[test]
fn word_reassembly_is_little_endian() {
    assert_eq!(words_from_le(&vec![0x00, 0x00, 0x80, 0x3f]), vec![0x3f800000]);
    assert_eq!(
        words_from_le(&vec![1, 0, 0, 0, 0, 0, 0, 0x80]),
        vec![1, 0x80000000]
    );
}

#[test]
fn reporting_threshold_matches_one_millionth() {
    // The non-zero count uses the bit pattern of the float threshold.
    assert_eq!(1e-6f32.to_bits(), 0x358637bd);
    let bits = vec![
        1.0f32.to_bits(),
        0.0f32.to_bits(),
        1e-7f32.to_bits(),
        (-2.5f32).to_bits(),
        f32::NAN.to_bits(),
    ];
    let stats = vector_stats(&bits);
    // Only 1.0 and -2.5 lie above one millionth in absolute value; the
    // not-a-number entry never counts.
    assert_eq!(stats.nonzero, 2);
    assert_eq!(stats.max_abs_bits, 2.5f32.to_bits());
    assert_eq!(stats.min_abs_bits, 0.0f32.to_bits());
}

#[test]
fn extremes_are_the_true_minimum_and_maximum_of_absolute_values() {
    let one = vec![1.0f32.to_bits()];
    let stats = vector_stats(&one);
    assert_eq!(stats.min_abs_bits, 1.0f32.to_bits());
    assert_eq!(stats.max_abs_bits, 1.0f32.to_bits());
    let pair = vec![(-0.5f32).to_bits(), 2.0f32.to_bits()];
    let stats = vector_stats(&pair);
    assert_eq!(stats.min_abs_bits, 0.5f32.to_bits());
    assert_eq!(stats.max_abs_bits, 2.0f32.to_bits());
    // With no countable entry the extremes report zero.
    let none = vec![f32::NAN.to_bits()];
    let stats = vector_stats(&none);
    assert_eq!(stats.min_abs_bits, 0);
    assert_eq!(stats.max_abs_bits, 0);
    let empty: Vec<u32> = vec![];
    let stats = vector_stats(&empty);
    assert_eq!(stats.min_abs_bits, 0);
    assert_eq!(stats.max_abs_bits, 0);
}

#[test]
fn header_text_is_exact() {
    let h = build_header("hello", 384, 42, "0.0000", "0.1234");
    assert_eq!(
        h,
        "Embedding generated for: 'hello'\nDim: 384 | Non-zero: 42 | Range: [0.0000, 0.1234]\n\nVector (hex):\n"
    );
}

#[test]
fn stream_carries_header_then_hex_then_done() {
    let values = vec![1.0f32, 1.5f32];
    let bits: Vec<u32> = values.iter().map(|v| v.to_bits()).collect();
    let chunks = stream_chunks("hi", &bits, "1.0000", "1.5000");
    let header =
        "Embedding generated for: 'hi'\nDim: 2 | Non-zero: 2 | Range: [1.0000, 1.5000]\n\nVector (hex):\n";
    assert_eq!(chunks.len(), header.chars().count() + bits.len() + 1);
    // Header characters come one per chunk, counter zero, not done.
    for (j, c) in header.chars().enumerate() {
        assert_eq!(chunks[j].text, c.to_string());
        assert!(!chunks[j].done);
        assert_eq!(chunks[j].tokens_generated, 0);
    }
    // Entry chunks carry the hexadecimal bit patterns and their index.
    let base = header.chars().count();
    assert_eq!(chunks[base].text, "3f800000 ");
    assert_eq!(chunks[base].tokens_generated, 0);
    assert_eq!(chunks[base + 1].text, "3fc00000 ");
    assert_eq!(chunks[base + 1].tokens_generated, 1);
    // The final chunk is empty, done, and counts the vector.
    let last = chunks.last().unwrap();
    assert_eq!(last.text, "");
    assert!(last.done);
    assert_eq!(last.tokens_generated, 2);
    assert!(chunks[..chunks.len() - 1].iter().all(|c| !c.done));
}

#[test]
fn stream_breaks_lines_after_eight_entries() {
    let bits: Vec<u32> = (0u32..9).collect();
    let chunks = stream_chunks("p", &bits, "0.0000", "0.0000");
    let base = chunks.len() - bits.len() - 1;
    for i in 0..9usize {
        let text = &chunks[base + i].text;
        assert_eq!(text.len(), 9);
        if i == 7 {
            assert!(text.ends_with('\n'));
        } else {
            assert!(text.ends_with(' '));
        }
    }
}

#[test]
fn stream_decodes_back_to_the_vector() {
    let values = vec![0.25f32, -3.75f32, 1e-8f32, f32::INFINITY];
    let bits: Vec<u32> = values.iter().map(|v| v.to_bits()).collect();
    let chunks = stream_chunks("roundtrip", &bits, "0.0000", "3.7500");
    // Concatenate everything after the header, drop whitespace, and read
    // the eight-digit groups back.
    let mut hex = String::new();
    for c in chunks.iter() {
        if !c.done && c.text.len() == 9 {
            hex.push_str(&c.text[..8]);
        }
    }
    let decoded: Vec<u32> = (0..bits.len())
        .map(|i| u32::from_str_radix(&hex[8 * i..8 * i + 8], 16).unwrap())
        .collect();
    assert_eq!(decoded, bits);
    let back: Vec<f32> = decoded.iter().map(|b| f32::from_bits(*b)).collect();
    assert_eq!(back[0], 0.25);
    assert_eq!(back[1], -3.75);
    assert_eq!(back[3], f32::INFINITY);
}
