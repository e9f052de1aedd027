use std::collections::VecDeque;

use matroska_demuxer::block::{
    parse_laced_frames, parse_xiph_frame_size, probe_block_timestamp, xiph_encode_size, LacedFrame,
};
use matroska_demuxer::ebml::next_element;
use matroska_demuxer::source::ByteSource;
use matroska_demuxer::{DemuxError, ElementId};

fn decode_block(block: Vec<u8>, cluster_timestamp: u64, simple: bool) -> VecDeque<LacedFrame> {
    let block_size = block.len() as u64;
    let mut src = ByteSource::new(block);
    let mut frames = VecDeque::new();
    parse_laced_frames(&mut src, &mut frames, block_size, cluster_timestamp, 0, simple).unwrap();
    frames
}

#[test]
fn no_lacing_yields_one_frame_of_the_remaining_bytes() {
    // Track 1, time offset 0, no lacing, 7 bytes of data.
    let mut block = vec![0x81, 0x00, 0x00, 0x00];
    block.extend(vec![9u8; 7]);
    let frames = decode_block(block, 10, true);
    assert_eq!(frames.len(), 1);
    assert_eq!(frames[0].track, 1);
    assert_eq!(frames[0].timestamp, 10);
    assert_eq!(frames[0].size, 7);
    assert_eq!(frames[0].is_keyframe, Some(false));
    assert_eq!(frames[0].is_discardable, Some(false));
    assert!(!frames[0].is_invisible);
}

#[test]
fn fixed_lacing_splits_the_body_evenly() {
    // Track 1, time offset 0, flags 0x04 (fixed lacing), lacing count 2,
    // 9 bytes of payload: three frames of three bytes each.
    let mut block = vec![0x81, 0x00, 0x00, 0x04, 0x02];
    block.extend(vec![7u8; 9]);
    let frames = decode_block(block, 0, true);
    assert_eq!(frames.len(), 3);
    for i in 0..3 {
        assert_eq!(frames[i].size, 3);
        assert_eq!(frames[i].timestamp, 0);
        assert_eq!(frames[i].track, 1);
    }
}

#[test]
fn fixed_lacing_drops_residual_bytes() {
    // Ten body bytes over three frames: each frame takes three bytes and
    // the tenth byte is dropped.
    let mut block = vec![0x81, 0x00, 0x00, 0x04, 0x02];
    block.extend(vec![7u8; 10]);
    let frames = decode_block(block, 0, true);
    assert_eq!(frames.len(), 3);
    for i in 0..3 {
        assert_eq!(frames[i].size, 3);
    }
}

#[test]
fn xiph_lacing_reads_the_size_table() {
    // Frames of 800, 500 and 765 bytes: the table holds 255;255;255;35 and
    // 255;245, and the last size is deduced from the block size.
    let mut block = vec![0x81, 0x00, 0x00, 0x02, 0x02];
    block.extend(vec![0xFF, 0xFF, 0xFF, 0x23]);
    block.extend(vec![0xFF, 0xF5]);
    block.extend(vec![3u8; 2065]);
    let frames = decode_block(block, 0, true);
    assert_eq!(frames.len(), 3);
    assert_eq!(frames[0].size, 800);
    assert_eq!(frames[1].size, 500);
    assert_eq!(frames[2].size, 765);
}

#[test]
fn xiph_lacing_size_multiple_of_255_ends_with_zero_byte() {
    // A frame of 765 bytes is coded 255;255;255;0.
    let mut block = vec![0x81, 0x00, 0x00, 0x02, 0x01];
    block.extend(vec![0xFF, 0xFF, 0xFF, 0x00]);
    block.extend(vec![4u8; 765 + 10]);
    let frames = decode_block(block, 0, true);
    assert_eq!(frames.len(), 2);
    assert_eq!(frames[0].size, 765);
    assert_eq!(frames[1].size, 10);
}

#[test]
fn ebml_lacing_applies_signed_deltas() {
    // Frames of 800, 500 and 765 bytes: 800 is coded 0x4320, the delta
    // -300 is coded 0x5ED3, and the last size is deduced.
    let mut block = vec![0x81, 0x00, 0x00, 0x06, 0x02];
    block.extend(vec![0x43, 0x20]);
    block.extend(vec![0x5E, 0xD3]);
    block.extend(vec![5u8; 2065]);
    let frames = decode_block(block, 0, true);
    assert_eq!(frames.len(), 3);
    assert_eq!(frames[0].size, 800);
    assert_eq!(frames[1].size, 500);
    assert_eq!(frames[2].size, 765);
}

#[test]
fn block_flags_decode_keyframe_invisible_discardable() {
    // Flags 0x89: keyframe, invisible and discardable, no lacing.
    let mut block = vec![0x81, 0x00, 0x00, 0x89];
    block.extend(vec![1u8; 4]);
    let frames = decode_block(block, 0, true);
    assert_eq!(frames.len(), 1);
    assert_eq!(frames[0].is_keyframe, Some(true));
    assert!(frames[0].is_invisible);
    assert_eq!(frames[0].is_discardable, Some(true));
}

#[test]
fn plain_block_leaves_keyframe_and_discardable_unknown() {
    let mut block = vec![0x81, 0x00, 0x00, 0x80];
    block.extend(vec![1u8; 4]);
    let frames = decode_block(block, 0, false);
    assert_eq!(frames[0].is_keyframe, None);
    assert_eq!(frames[0].is_discardable, None);
}

#[test]
fn negative_time_offset_saturates_at_zero() {
    // Time offset -5 against cluster timestamp 3 saturates to 0.
    let mut block = vec![0x81, 0xFF, 0xFB, 0x00];
    block.extend(vec![1u8; 4]);
    let frames = decode_block(block, 3, true);
    assert_eq!(frames[0].timestamp, 0);
}

#[test]
fn positive_time_offset_adds_to_cluster_timestamp() {
    // Time offset 5 against cluster timestamp 100.
    let mut block = vec![0x81, 0x00, 0x05, 0x00];
    block.extend(vec![1u8; 4]);
    let frames = decode_block(block, 100, true);
    assert_eq!(frames[0].timestamp, 105);
}

#[test]
fn probe_reads_timestamp_without_decoding_lacing() {
    let block = vec![0x81, 0x00, 0x07, 0x04, 0x02, 1, 2, 3];
    let mut src = ByteSource::new(block);
    assert_eq!(probe_block_timestamp(&mut src, 50).unwrap(), 57);
}

#[test]
fn wrong_float_sizes_are_rejected() {
    // Sizes 1-3 and 5-7 for a float element fail with WrongFloatSize.
    for size in [1u8, 2, 3, 5, 6, 7] {
        let mut data = vec![0x44, 0x89, 0x80 | size];
        data.extend(vec![0u8; size as usize]);
        let mut src = ByteSource::new(data);
        match next_element(&mut src) {
            Err(DemuxError::WrongFloatSize(s)) => assert_eq!(s, size as u64),
            other => panic!("expected WrongFloatSize, got {:?}", other),
        }
    }
}

#[test]
fn too_wide_integer_is_rejected() {
    let mut data = vec![0x42, 0x86, 0x89];
    data.extend(vec![0u8; 9]);
    let mut src = ByteSource::new(data);
    match next_element(&mut src) {
        Err(DemuxError::WrongIntegerSize(s)) => assert_eq!(s, 9),
        other => panic!("expected WrongIntegerSize, got {:?}", other),
    }
}

#[test]
fn too_wide_date_is_rejected() {
    let mut data = vec![0x44, 0x61, 0x89];
    data.extend(vec![0u8; 9]);
    let mut src = ByteSource::new(data);
    match next_element(&mut src) {
        Err(DemuxError::WrongDateSize(s)) => assert_eq!(s, 9),
        other => panic!("expected WrongDateSize, got {:?}", other),
    }
}

#[test]
fn invalid_utf8_string_is_rejected() {
    let data = vec![0x42, 0x82, 0x82, 0xFF, 0xFE];
    let mut src = ByteSource::new(data);
    assert!(matches!(next_element(&mut src), Err(DemuxError::FromUtf8Error)));
}

#[test]
fn truncated_element_is_an_io_error() {
    let data = vec![0x42, 0x86, 0x84, 0x01];
    let mut src = ByteSource::new(data);
    assert!(matches!(next_element(&mut src), Err(DemuxError::IoError)));
}

#[test]
fn unknown_element_is_reported_with_its_location() {
    // An identifier that is not in the table, like 0x6F82, maps to Unknown
    // and its payload is recorded as a location and skipped.
    let data = vec![0x6F, 0x82, 0x82, 1, 2];
    let mut src = ByteSource::new(data);
    let (id, d) = next_element(&mut src).unwrap();
    assert_eq!(id, ElementId::Unknown);
    assert_eq!(d, matroska_demuxer::ElementData::Location { offset: 3, size: 2 });
}

#[test]
fn xiph_encode_matches_decoder() {
    for v in [0u64, 1, 254, 255, 256, 509, 510, 765, 800, 10_000] {
        let bytes = xiph_encode_size(v);
        let mut src = ByteSource::new(bytes);
        assert_eq!(parse_xiph_frame_size(&mut src).unwrap(), v);
    }
}
