use matroska_demuxer::source::ByteSource;
use matroska_demuxer::vint::encode_vint;
use matroska_demuxer::{DemuxError, Frame, MatroskaFile, TrackType};

/// One element: identifier bytes, a two-byte size, then the payload.
fn elem(id: &[u8], payload: &[u8]) -> Vec<u8> {
    let mut v = id.to_vec();
    v.extend(encode_vint(payload.len() as u64, 2));
    v.extend(payload);
    v
}

/// The shortest big-endian bytes of a value.
fn uint_bytes(value: u64) -> Vec<u8> {
    let mut v = Vec::new();
    let mut x = value;
    loop {
        v.insert(0, (x % 256) as u8);
        x /= 256;
        if x == 0 {
            break;
        }
    }
    v
}

fn uint_elem(id: &[u8], value: u64) -> Vec<u8> {
    elem(id, &uint_bytes(value))
}

/// The EBML header of a matroska file.
fn header_bytes() -> Vec<u8> {
    vec![
        0x1A, 0x45, 0xDF, 0xA3, 0xA2, 0x42, 0x86, 0x81, 0x01, 0x42, 0xF7, 0x81, 0x01, 0x42, 0xF2,
        0x81, 0x04, 0x42, 0xF3, 0x81, 0x08, 0x42, 0x82, 0x88, 0x6D, 0x61, 0x74, 0x72, 0x6F, 0x73,
        0x6B, 0x61, 0x42, 0x87, 0x81, 0x04, 0x42, 0x85, 0x81, 0x02,
    ]
}

fn info_elem() -> Vec<u8> {
    let mut content = Vec::new();
    content.extend(elem(&[0x4D, 0x80], b"test"));
    content.extend(elem(&[0x57, 0x41], b"test"));
    elem(&[0x15, 0x49, 0xA9, 0x66], &content)
}

fn tracks_elem() -> Vec<u8> {
    let mut entry = Vec::new();
    entry.extend(uint_elem(&[0xD7], 1));
    entry.extend(uint_elem(&[0x73, 0xC5], 1));
    entry.extend(uint_elem(&[0x83], 1));
    entry.extend(elem(&[0x86], b"V_TEST"));
    let entry = elem(&[0xAE], &entry);
    elem(&[0x16, 0x54, 0xAE, 0x6B], &entry)
}

/// A simple block with track 1, the given time offset, no lacing, and three
/// data bytes.
fn simple_block(time_offset: u16) -> Vec<u8> {
    let mut payload = vec![0x81, (time_offset >> 8) as u8, (time_offset & 0xFF) as u8, 0x80];
    payload.extend(vec![0xAA, 0xBB, 0xCC]);
    elem(&[0xA3], &payload)
}

/// A cluster with the given timestamp and two blocks, at the timestamp and
/// fifty units after it.
fn cluster_elem(timestamp: u64) -> Vec<u8> {
    let mut content = uint_elem(&[0xE7], timestamp);
    content.extend(simple_block(0));
    content.extend(simple_block(50));
    elem(&[0x1F, 0x43, 0xB6, 0x75], &content)
}

/// A whole file with clusters at timestamps 0, 100, 200 and 300, and cue
/// points for each cluster when asked for.
fn build_file(with_cues: bool) -> Vec<u8> {
    let mut segment_content = Vec::new();
    segment_content.extend(info_elem());
    segment_content.extend(tracks_elem());
    let mut cluster_positions = Vec::new();
    let mut clusters = Vec::new();
    let mut pos = segment_content.len();
    // The cues element is placed after the clusters, so cluster offsets are
    // known when the cue points are written.
    for t in [0u64, 100, 200, 300] {
        let c = cluster_elem(t);
        cluster_positions.push((t, pos as u64));
        pos += c.len();
        clusters.extend(c);
    }
    segment_content.extend(clusters);
    if with_cues {
        let mut cues_content = Vec::new();
        for (t, p) in cluster_positions {
            let mut positions = uint_elem(&[0xF7], 1);
            positions.extend(uint_elem(&[0xF1], p));
            let mut point = uint_elem(&[0xB3], t);
            point.extend(elem(&[0xB7], &positions));
            cues_content.extend(elem(&[0xBB], &point));
        }
        segment_content.extend(elem(&[0x1C, 0x53, 0xBB, 0x6B], &cues_content));
    }
    let mut file = header_bytes();
    file.extend(elem(&[0x18, 0x53, 0x80, 0x67], &segment_content));
    file
}

fn open_built(with_cues: bool) -> MatroskaFile {
    MatroskaFile::open(ByteSource::new(build_file(with_cues))).unwrap()
}

#[test]
fn open_reads_header_info_and_tracks() {
    let mkv = open_built(true);
    assert_eq!(mkv.ebml_header().doc_type(), "matroska");
    assert_eq!(mkv.ebml_header().doc_type_read_version(), 2);
    assert_eq!(mkv.info().timestamp_scale(), 1_000_000);
    assert_eq!(mkv.info().muxing_app(), "test");
    assert_eq!(mkv.tracks().len(), 1);
    assert_eq!(mkv.tracks()[0].track_number(), 1);
    assert_eq!(mkv.tracks()[0].track_type(), TrackType::Video);
    assert_eq!(mkv.tracks()[0].codec_id(), "V_TEST");
}

#[test]
fn frames_come_in_wire_order_with_their_data() {
    let mut mkv = open_built(true);
    let mut frame = Frame::default();
    let mut timestamps = Vec::new();
    while mkv.next_frame(&mut frame).unwrap() {
        assert_eq!(frame.track, 1);
        assert_eq!(frame.data, vec![0xAA, 0xBB, 0xCC]);
        timestamps.push(frame.timestamp);
    }
    assert_eq!(timestamps, vec![0, 50, 100, 150, 200, 250, 300, 350]);
}

#[test]
fn frame_timestamps_are_monotone_from_the_start() {
    // Within a track, timestamps never decrease while reading to the end.
    for with_cues in [false, true] {
        let mut mkv = open_built(with_cues);
        mkv.seek(0).unwrap();
        let mut frame = Frame::default();
        let mut last: Option<u64> = None;
        while mkv.next_frame(&mut frame).unwrap() {
            if let Some(prev) = last {
                assert!(frame.timestamp >= prev);
            }
            last = Some(frame.timestamp);
        }
        assert!(last.is_some());
    }
}

#[test]
fn seek_lands_on_the_first_frame_at_or_after_the_target() {
    // After a seek, the first produced frame has a timestamp at or after
    // the target, or the stream reports its end.
    for with_cues in [false, true] {
        let mut mkv = open_built(with_cues);
        let mut frame = Frame::default();
        for target in [0u64, 1, 50, 99, 100, 150, 249, 300, 350] {
            mkv.seek(target).unwrap();
            if mkv.next_frame(&mut frame).unwrap() {
                assert!(frame.timestamp >= target);
            } else {
                // Only a target past the last cluster timestamp may end the
                // stream in a linear scan.
                assert!(!with_cues && target > 300);
            }
        }
    }
}

#[test]
fn seek_on_cue_indexed_file_finds_the_target() {
    // A file with cues at 0, 100, 200 and 300: seeking to 150 yields the
    // frame at 150.
    let mut mkv = open_built(true);
    let mut frame = Frame::default();
    mkv.seek(150).unwrap();
    assert!(mkv.next_frame(&mut frame).unwrap());
    assert_eq!(frame.timestamp, 150);
}

#[test]
fn seek_twice_yields_the_same_frame_as_seek_once() {
    for with_cues in [false, true] {
        for target in [0u64, 120, 150, 300] {
            let mut once = open_built(with_cues);
            let mut twice = open_built(with_cues);
            let mut f1 = Frame::default();
            let mut f2 = Frame::default();
            once.seek(target).unwrap();
            assert!(once.next_frame(&mut f1).unwrap());
            twice.seek(target).unwrap();
            twice.seek(target).unwrap();
            assert!(twice.next_frame(&mut f2).unwrap());
            assert_eq!(f1.timestamp, f2.timestamp);
            assert_eq!(f1.track, f2.track);
            assert_eq!(f1.data, f2.data);
        }
    }
}

#[test]
fn seek_past_the_end_gives_end_of_stream() {
    for with_cues in [false, true] {
        let mut mkv = open_built(with_cues);
        let mut frame = Frame::default();
        mkv.seek(1_000_000).unwrap();
        assert!(!mkv.next_frame(&mut frame).unwrap());
    }
}

#[test]
fn unknown_size_cluster_still_plays_and_seeks() {
    // A cluster with data size 0xFF (unknown): parsing continues, and the
    // seek broad phase falls back to the first cluster.
    let mut segment_content = Vec::new();
    segment_content.extend(info_elem());
    segment_content.extend(tracks_elem());
    let mut cluster = vec![0x1F, 0x43, 0xB6, 0x75, 0xFF];
    cluster.extend(uint_elem(&[0xE7], 100));
    cluster.extend(simple_block(0));
    cluster.extend(simple_block(50));
    segment_content.extend(cluster);
    let mut file = header_bytes();
    file.extend(elem(&[0x18, 0x53, 0x80, 0x67], &segment_content));

    let mut mkv = MatroskaFile::open(ByteSource::new(file)).unwrap();
    let mut frame = Frame::default();
    let mut count = 0;
    while mkv.next_frame(&mut frame).unwrap() {
        count += 1;
    }
    assert_eq!(count, 2);
    mkv.seek(150).unwrap();
    assert!(mkv.next_frame(&mut frame).unwrap());
    assert_eq!(frame.timestamp, 150);
}

#[test]
fn block_duration_is_handed_out_with_the_frame() {
    // A block group carrying a BlockDuration before its block: the frame
    // reports that duration; a plain simple-block frame reports none.
    let mut segment_content = Vec::new();
    segment_content.extend(info_elem());
    segment_content.extend(tracks_elem());
    let mut cluster = uint_elem(&[0xE7], 0);
    let mut group = uint_elem(&[0x9B], 7);
    group.extend(elem(&[0xA1], &[0x81, 0x00, 0x00, 0x00, 0xAA, 0xBB]));
    cluster.extend(elem(&[0xA0], &group));
    let cluster = elem(&[0x1F, 0x43, 0xB6, 0x75], &cluster);
    segment_content.extend(cluster);
    let mut file = header_bytes();
    file.extend(elem(&[0x18, 0x53, 0x80, 0x67], &segment_content));

    let mut mkv = MatroskaFile::open(ByteSource::new(file)).unwrap();
    let mut frame = Frame::default();
    assert!(mkv.next_frame(&mut frame).unwrap());
    assert_eq!(frame.duration, Some(7));
    assert_eq!(frame.is_keyframe, None);
    assert_eq!(frame.data, vec![0xAA, 0xBB]);
    assert!(!mkv.next_frame(&mut frame).unwrap());

    let mut plain = open_built(false);
    assert!(plain.next_frame(&mut frame).unwrap());
    assert_eq!(frame.duration, None);
}

#[test]
fn seek_below_all_cue_times_uses_the_first_cue_point() {
    // Cues at 100, 200 and 300 only: seeking to 50 starts from the first
    // cue point, so the first frame comes from the cluster at 100.
    let mut segment_content = Vec::new();
    segment_content.extend(info_elem());
    segment_content.extend(tracks_elem());
    let mut cluster_positions = Vec::new();
    let mut clusters = Vec::new();
    let mut pos = segment_content.len();
    for t in [0u64, 100, 200, 300] {
        let c = cluster_elem(t);
        if t >= 100 {
            cluster_positions.push((t, pos as u64));
        }
        pos += c.len();
        clusters.extend(c);
    }
    segment_content.extend(clusters);
    let mut cues_content = Vec::new();
    for (t, p) in cluster_positions {
        let mut positions = uint_elem(&[0xF7], 1);
        positions.extend(uint_elem(&[0xF1], p));
        let mut point = uint_elem(&[0xB3], t);
        point.extend(elem(&[0xB7], &positions));
        cues_content.extend(elem(&[0xBB], &point));
    }
    segment_content.extend(elem(&[0x1C, 0x53, 0xBB, 0x6B], &cues_content));
    let mut file = header_bytes();
    file.extend(elem(&[0x18, 0x53, 0x80, 0x67], &segment_content));

    let mut mkv = MatroskaFile::open(ByteSource::new(file)).unwrap();
    let mut frame = Frame::default();
    mkv.seek(50).unwrap();
    assert!(mkv.next_frame(&mut frame).unwrap());
    assert_eq!(frame.timestamp, 100);
}

#[test]
fn webm_doc_type_padded_with_nuls_is_accepted() {
    // DocType "webm" padded to 8 bytes with NULs.
    let mut header = vec![0x1A, 0x45, 0xDF, 0xA3, 0x93];
    header.extend(vec![0x42, 0x82, 0x88]);
    header.extend(b"webm\0\0\0\0");
    header.extend(vec![0x42, 0x87, 0x81, 0x04]);
    header.extend(vec![0x42, 0x85, 0x81, 0x02]);
    let mut src = ByteSource::new(header);
    let parsed = matroska_demuxer::parse_ebml_header(&mut src).unwrap();
    assert_eq!(parsed.doc_type(), "webm\0\0\0\0");
    assert_eq!(parsed.max_id_length(), 4);
}

#[test]
fn unsupported_doc_type_is_rejected() {
    let mut header = vec![0x1A, 0x45, 0xDF, 0xA3, 0x8E];
    header.extend(vec![0x42, 0x82, 0x83]);
    header.extend(b"avi");
    header.extend(vec![0x42, 0x87, 0x81, 0x04]);
    header.extend(vec![0x42, 0x85, 0x81, 0x02]);
    let mut src = ByteSource::new(header);
    assert!(matches!(
        matroska_demuxer::parse_ebml_header(&mut src),
        Err(DemuxError::InvalidEbmlHeader(_))
    ));
}

#[test]
fn max_id_length_5_is_rejected() {
    let mut header = vec![0x1A, 0x45, 0xDF, 0xA3, 0xA2, 0x42, 0x86, 0x81, 0x01, 0x42, 0xF7, 0x81,
        0x01, 0x42, 0xF2, 0x81, 0x05, 0x42, 0xF3, 0x81, 0x08];
    header.extend(vec![
        0x42, 0x82, 0x88, 0x6D, 0x61, 0x74, 0x72, 0x6F, 0x73, 0x6B, 0x61, 0x42, 0x87, 0x81, 0x04,
        0x42, 0x85, 0x81, 0x02,
    ]);
    let mut src = ByteSource::new(header);
    assert!(matches!(
        matroska_demuxer::parse_ebml_header(&mut src),
        Err(DemuxError::InvalidEbmlHeader(_))
    ));
}

#[test]
fn max_size_length_9_is_rejected() {
    let mut header = vec![0x1A, 0x45, 0xDF, 0xA3, 0xA2, 0x42, 0x86, 0x81, 0x01, 0x42, 0xF7, 0x81,
        0x01, 0x42, 0xF2, 0x81, 0x04, 0x42, 0xF3, 0x81, 0x09];
    header.extend(vec![
        0x42, 0x82, 0x88, 0x6D, 0x61, 0x74, 0x72, 0x6F, 0x73, 0x6B, 0x61, 0x42, 0x87, 0x81, 0x04,
        0x42, 0x85, 0x81, 0x02,
    ]);
    let mut src = ByteSource::new(header);
    assert!(matches!(
        matroska_demuxer::parse_ebml_header(&mut src),
        Err(DemuxError::InvalidEbmlHeader(_))
    ));
}

#[test]
fn doc_type_read_version_4_is_rejected() {
    let mut header = header_bytes();
    // The DocTypeReadVersion byte is the last one of the header.
    let last = header.len() - 1;
    header[last] = 0x04;
    let mut src = ByteSource::new(header);
    assert!(matches!(
        matroska_demuxer::parse_ebml_header(&mut src),
        Err(DemuxError::InvalidEbmlHeader(_))
    ));
}
