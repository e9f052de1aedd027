use matroska_demuxer::ebml::{next_element, ElementData};
use matroska_demuxer::parse_ebml_header;
use matroska_demuxer::source::ByteSource;
use matroska_demuxer::ElementId;

#[test]
fn test_parse_master_element() {
    let data: Vec<u8> = vec![0x1A, 0x45, 0xDF, 0xA3, 0xA2];
    let mut cursor = ByteSource::new(data);
    let (element_id, element_data) = next_element(&mut cursor).unwrap();
    assert_eq!(element_id, ElementId::Ebml);
    assert_eq!(element_data, ElementData::Location { offset: 5, size: 34 });
}

#[test]
fn test_parse_unsigned() {
    let data: Vec<u8> = vec![0x42, 0x86, 0x81, 0x01];
    let mut cursor = ByteSource::new(data);
    let (element_id, element_data) = next_element(&mut cursor).unwrap();
    assert_eq!(element_id, ElementId::EbmlVersion);
    assert_eq!(element_data, ElementData::Unsigned(1));
}

#[test]
fn test_parse_signed() {
    let data: Vec<u8> = vec![0xFB, 0x82, 0xFF, 0xFB];
    let mut cursor = ByteSource::new(data);
    let (element_id, element_data) = next_element(&mut cursor).unwrap();
    assert_eq!(element_id, ElementId::ReferenceBlock);
    assert_eq!(element_data, ElementData::Signed(-5));
}

#[test]
fn test_parse_date() {
    let data: Vec<u8> = vec![0x44, 0x61, 0x84, 0xFF, 0xB3, 0xB4, 0xC0];
    let mut cursor = ByteSource::new(data);
    let (element_id, element_data) = next_element(&mut cursor).unwrap();
    assert_eq!(element_id, ElementId::DateUtc);
    assert_eq!(element_data, ElementData::Date(-5_000_000));
}

#[test]
fn test_parse_float_32() {
    let data: Vec<u8> = vec![0x44, 0x89, 0x84, 0x43, 0x1C, 0x20, 0x07];
    let mut cursor = ByteSource::new(data);
    let (element_id, element_data) = next_element(&mut cursor).unwrap();
    assert_eq!(element_id, ElementId::Duration);
    if let ElementData::Float(x) = element_data {
        assert!((f64::from_bits(x) - 156.1251).abs() < 0.00001)
    } else {
        panic!("parse_element returned the wrong element type");
    }
}

#[test]
fn test_parse_float_64() {
    let data: Vec<u8> = vec![
        0x44, 0x89, 0x88, 0x40, 0xA9, 0xE0, 0x43, 0x30, 0xBC, 0x60, 0x6E,
    ];
    let mut cursor = ByteSource::new(data);
    let (element_id, element_data) = next_element(&mut cursor).unwrap();
    assert_eq!(element_id, ElementId::Duration);
    if let ElementData::Float(x) = element_data {
        assert!((f64::from_bits(x) - 3312.1312312).abs() < 0.00001)
    } else {
        panic!("parse_element returned the wrong element type");
    }
}

#[test]
fn test_parse_ascii_string() {
    let data: Vec<u8> = vec![
        0x42, 0x82, 0x88, 0x6D, 0x61, 0x74, 0x72, 0x6F, 0x73, 0x6B, 0x61,
    ];
    let mut cursor = ByteSource::new(data);
    let (element_id, element_data) = next_element(&mut cursor).unwrap();
    assert_eq!(element_id, ElementId::DocType);
    assert_eq!(element_data, ElementData::String("matroska".to_owned()));
}

#[test]
fn test_parse_utf8_string() {
    let data: Vec<u8> = vec![
        0x4D, 0x80, 0x95, 0xE3, 0x82, 0x82, 0xE3, 0x81, 0x90, 0xE3, 0x82, 0x82, 0xE3, 0x81, 0x90,
        0xE3, 0x81, 0x8A, 0xE3, 0x81, 0x8B, 0xE3, 0x82, 0x86,
    ];
    let mut cursor = ByteSource::new(data);
    let (element_id, element_data) = next_element(&mut cursor).unwrap();
    assert_eq!(element_id, ElementId::MuxingApp);
    assert_eq!(
        element_data,
        ElementData::String("もぐもぐおかゆ".to_owned())
    );
}

#[test]
fn test_parse_binary() {
    let data: Vec<u8> = vec![
        0x63, 0xA2, 0x95, 0xE3, 0x82, 0x82, 0xE3, 0x81, 0x90, 0xE3, 0x82, 0x82, 0xE3, 0x81, 0x90,
        0xE3, 0x81, 0x8A, 0xE3, 0x81, 0x8B, 0xE3, 0x82, 0x86,
    ];
    let mut cursor = ByteSource::new(data);
    let (element_id, element_data) = next_element(&mut cursor).unwrap();
    assert_eq!(element_id, ElementId::CodecPrivate);
    assert_eq!(element_data, ElementData::Location { offset: 3, size: 21 });
}

#[test]
fn test_parse_default_unsigned() {
    let data: Vec<u8> = vec![0x42, 0x86, 0x80];
    let mut cursor = ByteSource::new(data);
    let (element_id, element_data) = next_element(&mut cursor).unwrap();
    assert_eq!(element_id, ElementId::EbmlVersion);
    assert_eq!(element_data, ElementData::Unsigned(0));
}

#[test]
fn test_parse_default_signed() {
    let data: Vec<u8> = vec![0xFB, 0x80];
    let mut cursor = ByteSource::new(data);
    let (element_id, element_data) = next_element(&mut cursor).unwrap();
    assert_eq!(element_id, ElementId::ReferenceBlock);
    assert_eq!(element_data, ElementData::Signed(0));
}

#[test]
fn test_parse_default_date() {
    let data: Vec<u8> = vec![0x44, 0x61, 0x80];
    let mut cursor = ByteSource::new(data);
    let (element_id, element_data) = next_element(&mut cursor).unwrap();
    assert_eq!(element_id, ElementId::DateUtc);
    assert_eq!(element_data, ElementData::Date(0));
}

#[test]
fn test_parse_default_float() {
    let data: Vec<u8> = vec![0x44, 0x89, 0x80];
    let mut cursor = ByteSource::new(data);
    let (element_id, element_data) = next_element(&mut cursor).unwrap();
    assert_eq!(element_id, ElementId::Duration);
    if let ElementData::Float(x) = element_data {
        assert!(f64::from_bits(x).abs() < 0.00001)
    } else {
        panic!("parse_element returned the wrong element type");
    }
}

#[test]
fn test_parse_default_ascii_string() {
    let data: Vec<u8> = vec![0x42, 0x82, 0x80];
    let mut cursor = ByteSource::new(data);
    let (element_id, element_data) = next_element(&mut cursor).unwrap();
    assert_eq!(element_id, ElementId::DocType);
    assert_eq!(element_data, ElementData::String("".to_owned()));
}

#[test]
fn test_parse_default_utf8_string() {
    let data: Vec<u8> = vec![0x4D, 0x80, 0x80];
    let mut cursor = ByteSource::new(data);
    let (element_id, element_data) = next_element(&mut cursor).unwrap();
    assert_eq!(element_id, ElementId::MuxingApp);
    assert_eq!(element_data, ElementData::String("".to_owned()));
}

#[test]
fn test_parse_ebml_header() {
    let data: Vec<u8> = vec![
        0x1A, 0x45, 0xDF, 0xA3, 0xA2, 0x42, 0x86, 0x81, 0x01, 0x42, 0xF7, 0x81, 0x01, 0x42, 0xF2,
        0x81, 0x04, 0x42, 0xF3, 0x81, 0x08, 0x42, 0x82, 0x88, 0x6D, 0x61, 0x74, 0x72, 0x6F, 0x73,
        0x6B, 0x61, 0x42, 0x87, 0x81, 0x04, 0x42, 0x85, 0x81, 0x02,
    ];
    let mut cursor = ByteSource::new(data);
    let ebml_header = parse_ebml_header(&mut cursor).unwrap();
    assert_eq!(ebml_header.version, Some(1));
    assert_eq!(ebml_header.read_version, Some(1));
    assert_eq!(ebml_header.max_id_length, 4);
    assert_eq!(ebml_header.max_size_length, 8);
    assert_eq!(ebml_header.doc_type, "matroska");
    assert_eq!(ebml_header.doc_type_version, 4);
    assert_eq!(ebml_header.doc_type_read_version, 2);
}
