use matroska_demuxer::source::ByteSource;
use matroska_demuxer::vint::encode_vint;
use matroska_demuxer::MatroskaFile;

fn elem(id: &[u8], payload: &[u8]) -> Vec<u8> {
    let mut v = id.to_vec();
    v.extend(encode_vint(payload.len() as u64, 2));
    v.extend(payload);
    v
}

fn uint_elem(id: &[u8], value: u8) -> Vec<u8> {
    elem(id, &[value])
}

/// A file with one cluster plus chapters and tags.
fn build_file_with_chapters_and_tags() -> Vec<u8> {
    let header = vec![
        0x1A, 0x45, 0xDF, 0xA3, 0xA2, 0x42, 0x86, 0x81, 0x01, 0x42, 0xF7, 0x81, 0x01, 0x42, 0xF2,
        0x81, 0x04, 0x42, 0xF3, 0x81, 0x08, 0x42, 0x82, 0x88, 0x6D, 0x61, 0x74, 0x72, 0x6F, 0x73,
        0x6B, 0x61, 0x42, 0x87, 0x81, 0x04, 0x42, 0x85, 0x81, 0x02,
    ];
    let mut info = Vec::new();
    info.extend(elem(&[0x4D, 0x80], b"test"));
    info.extend(elem(&[0x57, 0x41], b"test"));
    let info = elem(&[0x15, 0x49, 0xA9, 0x66], &info);

    let mut entry = Vec::new();
    entry.extend(uint_elem(&[0xD7], 1));
    entry.extend(uint_elem(&[0x73, 0xC5], 1));
    entry.extend(uint_elem(&[0x83], 17));
    entry.extend(elem(&[0x86], b"S_TEXT/UTF8"));
    let tracks = elem(&[0x16, 0x54, 0xAE, 0x6B], &elem(&[0xAE], &entry));

    // Chapters: one edition with one atom that has two displays, in order.
    let mut display = elem(&[0x85], b"Intro");
    display.extend(elem(&[0x43, 0x7D], b"en"));
    let mut second = elem(&[0x85], b"Einleitung");
    second.extend(elem(&[0x43, 0x7D], b"de"));
    let mut atom = uint_elem(&[0x73, 0xC4], 7);
    atom.extend(uint_elem(&[0x91], 0));
    atom.extend(elem(&[0x80], &display));
    atom.extend(elem(&[0x80], &second));
    let chapters = elem(
        &[0x10, 0x43, 0xA7, 0x70],
        &elem(&[0x45, 0xB9], &elem(&[0xB6], &atom)),
    );

    // Tags: one tag with a target and one simple tag.
    let targets = uint_elem(&[0x68, 0xCA], 50);
    let mut simple_tag = elem(&[0x45, 0xA3], b"ENCODER");
    simple_tag.extend(elem(&[0x44, 0x87], b"test-muxer"));
    let mut tag = elem(&[0x63, 0xC0], &targets);
    tag.extend(elem(&[0x67, 0xC8], &simple_tag));
    let tags = elem(&[0x12, 0x54, 0xC3, 0x67], &elem(&[0x73, 0x73], &tag));

    let mut cluster = uint_elem(&[0xE7], 0);
    let block: Vec<u8> = vec![0x81, 0x00, 0x00, 0x80, 0x01, 0x02];
    cluster.extend(elem(&[0xA3], &block));
    let cluster = elem(&[0x1F, 0x43, 0xB6, 0x75], &cluster);

    let mut segment = Vec::new();
    segment.extend(info);
    segment.extend(tracks);
    segment.extend(chapters);
    segment.extend(tags);
    segment.extend(cluster);

    let mut file = header;
    file.extend(elem(&[0x18, 0x53, 0x80, 0x67], &segment));
    file
}

#[test]
fn chapters_and_tags_are_bound() {
    let mkv = MatroskaFile::open(ByteSource::new(build_file_with_chapters_and_tags())).unwrap();

    let chapters = mkv.chapters().unwrap();
    let atoms = chapters[0].chapter_atoms();
    assert_eq!(atoms[0].uid(), 7);
    assert_eq!(atoms[0].time_start(), 0);
    assert_eq!(atoms[0].time_end(), None);
    assert_eq!(atoms[0].displays().len(), 2);
    assert_eq!(atoms[0].displays()[0].string(), "Intro");
    assert_eq!(atoms[0].displays()[0].language(), None);
    assert_eq!(atoms[0].displays()[0].language_ietf(), Some("en"));
    assert_eq!(atoms[0].displays()[0].country(), None);
    assert_eq!(atoms[0].displays()[1].string(), "Einleitung");
    assert_eq!(atoms[0].displays()[1].language_ietf(), Some("de"));

    let tags = mkv.tags().unwrap();
    assert_eq!(tags[0].targets().unwrap().target_type_value(), Some(50));
    assert_eq!(tags[0].simple_tags()[0].name(), "ENCODER");
    assert_eq!(tags[0].simple_tags()[0].string(), Some("test-muxer"));
    assert_eq!(tags[0].simple_tags()[0].language(), None);
}

#[test]
fn subtitle_track_type_is_bound() {
    let mkv = MatroskaFile::open(ByteSource::new(build_file_with_chapters_and_tags())).unwrap();
    assert_eq!(
        mkv.tracks()[0].track_type(),
        matroska_demuxer::TrackType::Subtitle
    );
    assert_eq!(mkv.tracks()[0].codec_id(), "S_TEXT/UTF8");
    assert!(mkv.tracks()[0].flag_default());
    assert!(!mkv.tracks()[0].flag_forced());
}
