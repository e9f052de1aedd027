use matroska_demuxer::source::ByteSource;
use matroska_demuxer::vint::encode_vint;
use matroska_demuxer::{
    ContentEncAlgo, DemuxError, Frame, FromUnsigned, MatrixCoefficients, MatroskaFile, TrackType,
};

fn elem(id: &[u8], payload: &[u8]) -> Vec<u8> {
    let mut v = id.to_vec();
    v.extend(encode_vint(payload.len() as u64, 2));
    v.extend(payload);
    v
}

fn header_bytes() -> Vec<u8> {
    vec![
        0x1A, 0x45, 0xDF, 0xA3, 0xA2, 0x42, 0x86, 0x81, 0x01, 0x42, 0xF7, 0x81, 0x01, 0x42, 0xF2,
        0x81, 0x04, 0x42, 0xF3, 0x81, 0x08, 0x42, 0x82, 0x88, 0x6D, 0x61, 0x74, 0x72, 0x6F, 0x73,
        0x6B, 0x61, 0x42, 0x87, 0x81, 0x04, 0x42, 0x85, 0x81, 0x02,
    ]
}

/// One Seek entry: the pointed-at identifier as a four-byte unsigned value
/// and a two-byte position.
fn seek_entry(target_id: u32, position: u16) -> Vec<u8> {
    let mut entry = elem(&[0x53, 0xAB], &target_id.to_be_bytes());
    entry.extend(elem(&[0x53, 0xAC], &position.to_be_bytes()));
    elem(&[0x4D, 0xBB], &entry)
}

/// A file whose segment starts with a CRC-32 element and a SeekHead that
/// indexes the Info, Tracks and first Cluster.
fn build_indexed_file() -> Vec<u8> {
    let mut info = Vec::new();
    info.extend(elem(&[0x4D, 0x80], b"test"));
    info.extend(elem(&[0x57, 0x41], b"test"));
    let info = elem(&[0x15, 0x49, 0xA9, 0x66], &info);

    let mut entry = Vec::new();
    entry.extend(elem(&[0xD7], &[1]));
    entry.extend(elem(&[0x73, 0xC5], &[1]));
    entry.extend(elem(&[0x83], &[1]));
    entry.extend(elem(&[0x86], b"V_TEST"));
    let tracks = elem(&[0x16, 0x54, 0xAE, 0x6B], &elem(&[0xAE], &entry));

    let mut cluster = elem(&[0xE7], &[0]);
    cluster.extend(elem(&[0xA3], &[0x81, 0x00, 0x00, 0x80, 0xAA, 0xBB]));
    let cluster = elem(&[0x1F, 0x43, 0xB6, 0x75], &cluster);

    // The crc and seek head lengths are fixed, so the positions of the
    // following elements can be computed.
    let crc = elem(&[0xBF], &[0, 0, 0, 0]);
    let seek_head_len = {
        let mut probe = seek_entry(0x1549A966, 0);
        probe.extend(seek_entry(0x1654AE6B, 0));
        probe.extend(seek_entry(0x1F43B675, 0));
        elem(&[0x11, 0x4D, 0x9B, 0x74], &probe).len()
    };
    let info_pos = (crc.len() + seek_head_len) as u16;
    let tracks_pos = info_pos + info.len() as u16;
    let cluster_pos = tracks_pos + tracks.len() as u16;
    let mut entries = seek_entry(0x1549A966, info_pos);
    entries.extend(seek_entry(0x1654AE6B, tracks_pos));
    entries.extend(seek_entry(0x1F43B675, cluster_pos));
    let seek_head = elem(&[0x11, 0x4D, 0x9B, 0x74], &entries);
    assert_eq!(seek_head.len(), seek_head_len);

    let mut segment = crc;
    segment.extend(seek_head);
    segment.extend(info);
    segment.extend(tracks);
    segment.extend(cluster);

    let mut file = header_bytes();
    file.extend(elem(&[0x18, 0x53, 0x80, 0x67], &segment));
    file
}

#[test]
fn seek_head_index_is_used_to_find_the_metadata() {
    let mut mkv = MatroskaFile::open(ByteSource::new(build_indexed_file())).unwrap();
    assert_eq!(mkv.info().muxing_app(), "test");
    assert_eq!(mkv.tracks().len(), 1);
    let mut frame = Frame::default();
    assert!(mkv.next_frame(&mut frame).unwrap());
    assert_eq!(frame.data, vec![0xAA, 0xBB]);
    assert!(!mkv.next_frame(&mut frame).unwrap());
}

#[test]
fn zero_track_number_is_rejected() {
    // A track entry with TrackNumber 0 fails with NonZeroValueIsZero.
    let mut entry = Vec::new();
    entry.extend(elem(&[0xD7], &[0]));
    entry.extend(elem(&[0x73, 0xC5], &[1]));
    entry.extend(elem(&[0x83], &[1]));
    entry.extend(elem(&[0x86], b"V_TEST"));
    let tracks = elem(&[0x16, 0x54, 0xAE, 0x6B], &elem(&[0xAE], &entry));
    let mut info = Vec::new();
    info.extend(elem(&[0x4D, 0x80], b"test"));
    info.extend(elem(&[0x57, 0x41], b"test"));
    let info = elem(&[0x15, 0x49, 0xA9, 0x66], &info);
    let mut cluster = elem(&[0xE7], &[0]);
    cluster.extend(elem(&[0xA3], &[0x81, 0x00, 0x00, 0x80, 0xAA]));
    let cluster = elem(&[0x1F, 0x43, 0xB6, 0x75], &cluster);
    let mut segment = info;
    segment.extend(tracks);
    segment.extend(cluster);
    let mut file = header_bytes();
    file.extend(elem(&[0x18, 0x53, 0x80, 0x67], &segment));
    assert!(matches!(
        MatroskaFile::open(ByteSource::new(file)),
        Err(DemuxError::NonZeroValueIsZero(
            matroska_demuxer::ElementId::TrackNumber
        ))
    ));
}

#[test]
fn coded_values_map_to_their_enums() {
    assert_eq!(TrackType::from_u64(1), TrackType::Video);
    assert_eq!(TrackType::from_u64(2), TrackType::Audio);
    assert_eq!(TrackType::from_u64(17), TrackType::Subtitle);
    assert_eq!(TrackType::from_u64(99), TrackType::Unknown);
    assert_eq!(MatrixCoefficients::from_u64(9), MatrixCoefficients::Bt2020Ncl);
    assert_eq!(ContentEncAlgo::from_u64(5), ContentEncAlgo::Aes);
}
