use nc_teltonika_server::parser::io_elements::get_io_element_definition;
use nc_teltonika_server::parser::reader::ByteReader;
use nc_teltonika_server::parser::codec8e::ParseError;
use nc_teltonika_server::parser::{FrameError, TeltonikaParser};
use std::collections::{HashMap, HashSet};

fn imei_frame(imei: &[u8]) -> Vec<u8> {
    let mut v = (imei.len() as u16).to_be_bytes().to_vec();
    v.extend_from_slice(imei);
    v
}

fn data_packet(codec: u8, records: &[Vec<u8>], trailer: &[u8]) -> Vec<u8> {
    let mut body = vec![codec, records.len() as u8];
    for r in records {
        body.extend_from_slice(r);
    }
    let mut v = (body.len() as u32).to_be_bytes().to_vec();
    v.extend(body);
    v.extend_from_slice(trailer);
    v
}

fn one_record(timestamp: i64) -> Vec<u8> {
    let mut data = Vec::new();
    data.extend_from_slice(&timestamp.to_be_bytes());
    data.push(0);
    data.extend_from_slice(&[0u8; 15]);
    data.extend_from_slice(&[0u8; 4]);
    data.extend_from_slice(&[0u8; 10]);
    data
}

#[test]
fn imei_handshake_is_recognised() {
    let p = TeltonikaParser::new(imei_frame(b"356307042441013"));
    assert!(p.is_imei);
    assert!(!p.invalid);
    assert_eq!(p.imei.as_deref(), Some("356307042441013"));
    assert!(p.avl_data.is_none());
}

#[test]
fn handshake_with_invalid_utf8_is_not_an_imei() {
    let p = TeltonikaParser::new(imei_frame(&[0xff, 0xfe]));
    assert!(!p.is_imei);
    assert!(p.invalid);
}

#[test]
fn short_frames_are_invalid() {
    for frame in [vec![], vec![0], vec![0, 0, 0, 0, 0, 0, 0]] {
        let p = TeltonikaParser::new(frame);
        assert!(p.invalid);
        assert!(!p.is_imei);
        assert!(p.avl_data.is_none());
    }
}

#[test]
fn data_packet_is_decoded() {
    let frame = data_packet(142, &[one_record(1700000000000), one_record(1700000001000)], &[2, 0, 0, 0x12, 0x34]);
    let p = TeltonikaParser::new(frame);
    assert!(!p.invalid);
    assert!(!p.is_imei);
    let avl = p.avl_data.unwrap();
    assert_eq!(avl.codec_id, 142);
    assert_eq!(avl.number_of_data, 2);
    assert_eq!(avl.records.len(), 2);
    assert_eq!(avl.records[1].timestamp, 1700000001000);
}

#[test]
fn trailing_bytes_do_not_change_the_records() {
    let bare = TeltonikaParser::new(data_packet(142, &[one_record(5)], &[])).avl_data.unwrap();
    let with = TeltonikaParser::new(data_packet(142, &[one_record(5)], &[1, 9, 9, 9, 9])).avl_data.unwrap();
    assert_eq!(bare.records.len(), with.records.len());
    assert_eq!(bare.records[0].timestamp, with.records[0].timestamp);
}

#[test]
fn other_codecs_are_invalid() {
    let p = TeltonikaParser::new(data_packet(8, &[one_record(0)], &[]));
    assert!(p.invalid);
    assert!(p.avl_data.is_none());
}

#[test]
fn undecodable_records_make_the_frame_invalid() {
    let mut frame = data_packet(142, &[one_record(0)], &[]);
    frame[5] = 2; // announces two records, holds one
    let p = TeltonikaParser::new(frame);
    assert!(p.invalid);
}

#[test]
fn definition_table_entries() {
    let d = get_io_element_definition(10).unwrap();
    assert_eq!(d.label, "SD Status");
    assert_eq!(d.dimension, None);
    assert_eq!(d.values.unwrap(), HashMap::from([(0, "Not present"), (1, "Present")]));
    let d = get_io_element_definition(13).unwrap();
    assert_eq!(d.label, "Average Fuel Use");
    assert_eq!(d.dimension, Some("L / 100 km"));
    assert!(d.values.is_none());
    assert_eq!(get_io_element_definition(13267).unwrap().label, "Max log file count");
    assert!(get_io_element_definition(2).is_none());
    assert!(get_io_element_definition(65535).is_none());
}

#[test]
fn definition_labels_are_unique_and_texts_not_empty() {
    let mut labels = HashSet::new();
    let mut count = 0;
    for id in 0..=u16::MAX {
        if let Some(d) = get_io_element_definition(id) {
            count += 1;
            assert!(!d.label.is_empty());
            assert!(labels.insert(d.label));
            if let Some(unit) = d.dimension {
                assert!(!unit.is_empty());
            }
            if let Some(values) = d.values {
                assert!(!values.is_empty());
                assert!(values.values().all(|name| !name.is_empty()));
            }
        }
    }
    assert_eq!(count, 106);
}

#[test]
fn invalid_frames_carry_their_reason() {
    let p = TeltonikaParser::new(data_packet(8, &[one_record(0)], &[]));
    assert_eq!(p.error, Some(FrameError::UnsupportedCodec(8)));
    let mut frame = data_packet(142, &[one_record(0)], &[]);
    frame[5] = 2;
    let p = TeltonikaParser::new(frame);
    assert_eq!(p.error, Some(FrameError::Records(ParseError::TimestampTruncated)));
    assert_eq!(TeltonikaParser::new(vec![1, 2]).error, None);
    assert_eq!(TeltonikaParser::new(data_packet(142, &[one_record(0)], &[])).error, None);
}

#[test]
fn reader_reads_big_endian() {
    let mut r = ByteReader::new(vec![0xff, 0xfe, 0x80, 0, 0, 0, 1, 2, 0, 0, 0, 0, 0, 0, 0, 1, 9]);
    assert_eq!(r.get_i16(), -2);
    assert_eq!(r.get_i32(), i32::MIN);
    assert_eq!(r.get_u16(), 0x0102);
    assert_eq!(r.get_i64(), 1);
    assert_eq!(r.remaining(), 1);
    assert_eq!(r.copy_to_vec(1), vec![9]);
    assert_eq!(r.remaining(), 0);
    assert_eq!(r.into_inner().len(), 17);
}
