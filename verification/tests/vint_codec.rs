use matroska_demuxer::source::ByteSource;
use matroska_demuxer::vint::{encode_vint, parse_variable_i64, parse_variable_u32, parse_variable_u64};

#[test]
fn u64_vint_round_trips_at_every_width() {
    let values: Vec<(u64, usize)> = vec![
        (0, 1),
        (126, 1),
        (127, 2),
        (5000, 2),
        (16382, 2),
        (2097150, 3),
        (268435454, 4),
        (34359738366, 5),
        (4398046511102, 6),
        (562949953421310, 7),
        (72057594037927934, 8),
    ];
    for (v, w) in values {
        let bytes = encode_vint(v, w);
        let mut src = ByteSource::new(bytes);
        assert_eq!(parse_variable_u64(&mut src).unwrap(), v);
        assert_eq!(src.position(), w as u64);
    }
}

#[test]
fn size_0xff_decodes_to_unknown_size_sentinel() {
    let mut src = ByteSource::new(vec![0xFF]);
    assert_eq!(parse_variable_u64(&mut src).unwrap(), u64::MAX);
}

#[test]
fn all_ones_patterns_decode_to_unknown_size_sentinel() {
    // The all-ones value of each width is the unknown-size pattern.
    for w in 1..=8usize {
        let ones: u64 = (1u64 << (7 * w)) - 1;
        let bytes = encode_vint(ones, w);
        let mut src = ByteSource::new(bytes);
        assert_eq!(parse_variable_u64(&mut src).unwrap(), u64::MAX);
    }
}

#[test]
fn id_vint_keeps_marker_bits() {
    let mut src = ByteSource::new(vec![0x1A, 0x45, 0xDF, 0xA3]);
    assert_eq!(parse_variable_u32(&mut src).unwrap(), 0x1A45DFA3);
    let mut src = ByteSource::new(vec![0x42, 0x86]);
    assert_eq!(parse_variable_u32(&mut src).unwrap(), 0x4286);
    let mut src = ByteSource::new(vec![0xEC]);
    assert_eq!(parse_variable_u32(&mut src).unwrap(), 0xEC);
}

#[test]
fn id_vint_skips_padding_bytes() {
    let mut src = ByteSource::new(vec![0x00, 0x0F, 0x42, 0x86]);
    assert_eq!(parse_variable_u32(&mut src).unwrap(), 0x4286);
}

#[test]
fn lace_vint_round_trips_at_every_width() {
    // Width w shifts by 2^(7w - 1) - 1; check the edges and middles.
    let shifts: [i64; 4] = [63, 8191, 1048575, 134217727];
    for w in 1..=4usize {
        let shift = shifts[w - 1];
        for v in [-shift, -1, 0, 1, shift, shift + 1] {
            let bytes = encode_vint((v + shift) as u64, w);
            let mut src = ByteSource::new(bytes);
            assert_eq!(parse_variable_i64(&mut src).unwrap(), v);
        }
    }
}

#[test]
fn lace_vint_single_byte_examples() {
    // 0x80 carries value bits 0 at width 1: 0 - 63 = -63.
    let mut src = ByteSource::new(vec![0x80]);
    assert_eq!(parse_variable_i64(&mut src).unwrap(), -63);
    // 0xBF carries value bits 63: 63 - 63 = 0.
    let mut src = ByteSource::new(vec![0xBF]);
    assert_eq!(parse_variable_i64(&mut src).unwrap(), 0);
}

#[test]
fn size_vint_rejects_a_zero_byte() {
    let mut src = ByteSource::new(vec![0x00]);
    assert!(matches!(
        parse_variable_u64(&mut src),
        Err(matroska_demuxer::DemuxError::InvalidEbmlDataSize)
    ));
}
