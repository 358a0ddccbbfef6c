use chrono::TimeZone;
use nc_teltonika_server::parser::codec8e::{
    create_io_element, create_io_element_from_string, parse, parse_record, IoWidth, ParseError, MAX_TIMESTAMP_MS,
    MIN_TIMESTAMP_MS,
};
use nc_teltonika_server::parser::reader::ByteReader;

/// A record with the given timestamp and the given IO section bytes.
fn record_bytes(timestamp: i64, io: &[u8]) -> Vec<u8> {
    let mut data = Vec::new();
    data.extend_from_slice(&timestamp.to_be_bytes());
    data.push(1);
    data.extend_from_slice(&23388880i32.to_be_bytes());
    data.extend_from_slice(&(-48000000i32).to_be_bytes());
    data.extend_from_slice(&(-100i16).to_be_bytes());
    data.extend_from_slice(&270i16.to_be_bytes());
    data.push(9);
    data.extend_from_slice(&55i16.to_be_bytes());
    data.extend_from_slice(&240u16.to_be_bytes());
    data.extend_from_slice(&7u16.to_be_bytes());
    data.extend_from_slice(io);
    data
}

fn empty_io() -> Vec<u8> {
    vec![0u8; 10]
}

#[test]
fn test_parse_simple_record() {
    let mut data = Vec::new();

    // Timestamp
    data.extend_from_slice(&1700000000000i64.to_be_bytes()); // valid timestamp

    // Priority
    data.push(0);

    // GPS
    // Longitude: 23388880 -> 2.338888
    data.extend_from_slice(&23388880i32.to_be_bytes());
    // Latitude: 48000000 -> 4.800000
    data.extend_from_slice(&48000000i32.to_be_bytes());
    // Altitude: 100
    data.extend_from_slice(&100i16.to_be_bytes());
    // Angle: 0
    data.extend_from_slice(&0i16.to_be_bytes());
    // Satellites: 5
    data.push(5);
    // Speed: 0
    data.extend_from_slice(&0i16.to_be_bytes());

    // Event ID
    data.extend_from_slice(&1u16.to_be_bytes());

    // Properties Count
    data.extend_from_slice(&0u16.to_be_bytes());

    // IO Elements (Counts for N1..NX)
    data.extend_from_slice(&0u16.to_be_bytes()); // N1 count
    data.extend_from_slice(&0u16.to_be_bytes()); // N2 count
    data.extend_from_slice(&0u16.to_be_bytes()); // N4 count
    data.extend_from_slice(&0u16.to_be_bytes()); // N8 count
    data.extend_from_slice(&0u16.to_be_bytes()); // NX count

    let mut buf = ByteReader::new(data);
    // We simulate 1 record
    let records = parse(&mut buf, 1).expect("Failed to parse");

    assert_eq!(records.len(), 1);
    let r = &records[0];
    assert_eq!(r.priority, 0);
    // Longitude and latitude are kept in units of 10^-7 degree.
    assert!((r.gps.longitude as f64 / 10000000.0 - 2.338888).abs() < 1e-6);
    assert!((r.gps.latitude as f64 / 10000000.0 - 4.8).abs() < 1e-6);
    assert_eq!(r.gps.altitude, 100);
    assert_eq!(r.gps.satellites, 5);
    assert_eq!(r.event_id, 1);
}

#[test]
fn record_fields_are_read_big_endian_and_signed() {
    let mut buf = ByteReader::new(record_bytes(1700000000123, &empty_io()));
    let records = parse(&mut buf, 1).unwrap();
    let r = &records[0];
    assert_eq!(r.timestamp, 1700000000123);
    assert_eq!(r.priority, 1);
    assert_eq!(r.gps.longitude, 23388880);
    assert_eq!(r.gps.latitude, -48000000);
    assert_eq!(r.gps.altitude, -100);
    assert_eq!(r.gps.angle, 270);
    assert_eq!(r.gps.satellites, 9);
    assert_eq!(r.gps.speed, 55);
    assert_eq!(r.event_id, 240);
    assert_eq!(r.properties_count, 7);
    assert_eq!(buf.remaining(), 0);
}

#[test]
fn io_elements_are_described_by_the_table() {
    let mut io = Vec::new();
    io.extend_from_slice(&2u16.to_be_bytes()); // n1 count
    io.extend_from_slice(&1u16.to_be_bytes());
    io.push(1);
    io.extend_from_slice(&5000u16.to_be_bytes());
    io.push(200);
    io.extend_from_slice(&1u16.to_be_bytes()); // n2 count
    io.extend_from_slice(&9u16.to_be_bytes());
    io.extend_from_slice(&(-5i16).to_be_bytes());
    io.extend_from_slice(&1u16.to_be_bytes()); // n4 count
    io.extend_from_slice(&16u16.to_be_bytes());
    io.extend_from_slice(&(-123456i32).to_be_bytes());
    io.extend_from_slice(&1u16.to_be_bytes()); // n8 count
    io.extend_from_slice(&17u16.to_be_bytes());
    io.extend_from_slice(&1.5f64.to_bits().to_be_bytes());
    io.extend_from_slice(&1u16.to_be_bytes()); // nx count
    io.extend_from_slice(&11u16.to_be_bytes());
    io.extend_from_slice(&3u16.to_be_bytes());
    io.extend_from_slice(&[0xab, 0xcd, 0x01]);
    let mut buf = ByteReader::new(record_bytes(0, &io));
    let records = parse(&mut buf, 1).unwrap();
    let g = &records[0].io_groups;

    assert_eq!(g.n1.len(), 2);
    assert_eq!(g.n1[0].id, 1);
    assert_eq!(g.n1[0].label, "Digital Input 1");
    assert_eq!(g.n1[0].value, "1");
    assert_eq!(g.n1[0].dimension, "");
    assert_eq!(g.n1[0].value_human, "1");
    assert_eq!(g.n1[1].label, "Unknown-5000");
    assert_eq!(g.n1[1].value, "200");
    assert_eq!(g.n1[1].value_human, "");

    assert_eq!(g.n2[0].label, "Analog Input 1");
    assert_eq!(g.n2[0].value, "-5");
    assert_eq!(g.n2[0].dimension, "V");

    assert_eq!(g.n4[0].label, "Total Odometer");
    assert_eq!(g.n4[0].value, "-123456");
    assert_eq!(g.n4[0].dimension, "m");

    assert_eq!(g.n8.len(), 1);
    assert_eq!(g.n8[0].id, 17);
    assert_eq!(f64::from_bits(g.n8[0].bits), 1.5);

    assert_eq!(g.nx[0].id, 11);
    assert_eq!(g.nx[0].label, "SIM ICCID1 number");
    assert_eq!(g.nx[0].value, "abcd01");
    assert_eq!(buf.remaining(), 0);
}

#[test]
fn several_records_decode_in_order_and_leave_trailing_bytes() {
    let mut data = record_bytes(1000, &empty_io());
    data.extend(record_bytes(2000, &empty_io()));
    data.extend_from_slice(&[2, 0xde, 0xad, 0xbe, 0xef]);
    let mut buf = ByteReader::new(data);
    let records = parse(&mut buf, 2).unwrap();
    assert_eq!(records.len(), 2);
    assert_eq!(records[0].timestamp, 1000);
    assert_eq!(records[1].timestamp, 2000);
    assert_eq!(buf.remaining(), 5);
}

fn parse_err(data: Vec<u8>, n: u8) -> ParseError {
    let mut buf = ByteReader::new(data);
    parse(&mut buf, n).unwrap_err()
}

#[test]
fn each_truncation_is_reported() {
    let full = record_bytes(0, &empty_io());
    assert_eq!(parse_err(full[..7].to_vec(), 1), ParseError::TimestampTruncated);
    assert_eq!(parse_err(full[..8].to_vec(), 1), ParseError::PriorityTruncated);
    assert_eq!(parse_err(full[..20].to_vec(), 1), ParseError::GpsTruncated);
    assert_eq!(parse_err(full[..24].to_vec(), 1), ParseError::EventIdTruncated);
    assert_eq!(parse_err(full[..26].to_vec(), 1), ParseError::PropertiesCountTruncated);
    assert_eq!(parse_err(full[..28].to_vec(), 1), ParseError::IoCountTruncated(IoWidth::One));
    assert_eq!(parse_err(full[..30].to_vec(), 1), ParseError::IoCountTruncated(IoWidth::Two));
    assert_eq!(parse_err(full[..32].to_vec(), 1), ParseError::IoCountTruncated(IoWidth::Four));
    assert_eq!(parse_err(full[..34].to_vec(), 1), ParseError::IoCountTruncated(IoWidth::Eight));
    assert_eq!(parse_err(full[..36].to_vec(), 1), ParseError::IoCountTruncated(IoWidth::Variable));
    // a second record is announced but absent
    assert_eq!(parse_err(full.clone(), 2), ParseError::TimestampTruncated);
}

#[test]
fn truncated_elements_are_reported() {
    let cases: Vec<(Vec<u8>, ParseError)> = vec![
        (vec![0, 1, 0, 1], ParseError::IoTruncated(IoWidth::One)),
        (vec![0, 0, 0, 1, 0, 1, 0], ParseError::IoTruncated(IoWidth::Two)),
        (vec![0, 0, 0, 0, 0, 1, 0, 1, 0, 0, 0], ParseError::IoTruncated(IoWidth::Four)),
        (vec![0, 0, 0, 0, 0, 0, 0, 1, 0, 1, 0, 0, 0, 0, 0, 0, 0], ParseError::IoTruncated(IoWidth::Eight)),
        (vec![0, 0, 0, 0, 0, 0, 0, 0, 0, 1, 0, 1, 0], ParseError::IoTruncated(IoWidth::Variable)),
        (vec![0, 0, 0, 0, 0, 0, 0, 0, 0, 1, 0, 1, 0, 3, 0xaa, 0xbb], ParseError::VariableIoDataTruncated),
    ];
    for (io, expected) in cases {
        assert_eq!(parse_err(record_bytes(0, &io), 1), expected);
    }
}

#[test]
fn timestamps_outside_the_date_range_are_refused() {
    assert!(parse(&mut ByteReader::new(record_bytes(MIN_TIMESTAMP_MS, &empty_io())), 1).is_ok());
    assert!(parse(&mut ByteReader::new(record_bytes(MAX_TIMESTAMP_MS, &empty_io())), 1).is_ok());
    assert_eq!(parse_err(record_bytes(MIN_TIMESTAMP_MS - 1, &empty_io()), 1), ParseError::InvalidTimestamp);
    assert_eq!(parse_err(record_bytes(MAX_TIMESTAMP_MS + 1, &empty_io()), 1), ParseError::InvalidTimestamp);
    assert_eq!(parse_err(record_bytes(i64::MAX, &empty_io()), 1), ParseError::InvalidTimestamp);
}

#[test]
fn timestamp_range_matches_chrono() {
    assert!(chrono::Utc.timestamp_millis_opt(MIN_TIMESTAMP_MS).single().is_some());
    assert!(chrono::Utc.timestamp_millis_opt(MAX_TIMESTAMP_MS).single().is_some());
    assert!(chrono::Utc.timestamp_millis_opt(MIN_TIMESTAMP_MS - 1).single().is_none());
    assert!(chrono::Utc.timestamp_millis_opt(MAX_TIMESTAMP_MS + 1).single().is_none());
}

#[test]
fn zero_records_decode_to_nothing() {
    let mut buf = ByteReader::new(vec![1, 2, 3]);
    assert_eq!(parse(&mut buf, 0).unwrap().len(), 0);
    assert_eq!(buf.remaining(), 3);
}

#[test]
fn error_messages() {
    assert_eq!(ParseError::TimestampTruncated.message(), "Not enough bytes for timestamp");
    assert_eq!(ParseError::InvalidTimestamp.message(), "Invalid timestamp");
    assert_eq!(ParseError::IoCountTruncated(IoWidth::Variable).message(), "Not enough bytes for X-byte IO count");
    assert_eq!(ParseError::IoTruncated(IoWidth::Variable).message(), "Not enough bytes for X-byte IO header");
    assert_eq!(ParseError::IoTruncated(IoWidth::Two).message(), "Not enough bytes for 2-byte IO");
    assert_eq!(ParseError::VariableIoDataTruncated.message(), "Not enough bytes for X-byte IO data");
}

#[test]
fn elements_from_numbers_and_text() {
    let e = create_io_element(10, 1, 1);
    assert_eq!(e.label, "SD Status");
    assert_eq!(e.value, "1");
    assert_eq!(e.value_human, "Present");
    let e = create_io_element(10, 7, 1);
    assert_eq!(e.value_human, "");
    let e = create_io_element(21, i64::MIN, 8);
    assert_eq!(e.label, "GSM Signal");
    assert_eq!(e.value, "-9223372036854775808");
    let e = create_io_element_from_string(10, "0.0".to_string(), 0);
    assert_eq!(e.value, "0.0");
    assert_eq!(e.value_human, "Not present");
    let e = create_io_element_from_string(0, "x".to_string(), 0);
    assert_eq!(e.label, "Unknown-0");
    assert_eq!(e.dimension, "");
}

#[test]
fn a_failed_decode_leaves_the_bytes_after_the_records_read() {
    let mut data = record_bytes(0, &empty_io());
    data.extend_from_slice(&[0, 0, 0]);
    let total = data.len();
    let mut buf = ByteReader::new(data);
    assert_eq!(parse(&mut buf, 2).unwrap_err(), ParseError::TimestampTruncated);
    // the first record was read; what remains is the tail of the input
    assert!(buf.remaining() <= 3);
    let rest = buf.copy_to_vec(buf.remaining());
    assert!(rest.iter().all(|b| *b == 0));
    assert!(total - rest.len() >= 38);
}

#[test]
fn the_property_count_does_not_affect_the_rest_of_the_record() {
    let mut a = record_bytes(123, &empty_io());
    let mut b = a.clone();
    a[26] = 0;
    a[27] = 0;
    b[26] = 0xff;
    b[27] = 0xff;
    let ra = parse(&mut ByteReader::new(a), 1).unwrap();
    let rb = parse(&mut ByteReader::new(b), 1).unwrap();
    assert_eq!(ra[0].properties_count, 0);
    assert_eq!(rb[0].properties_count, 0xffff);
    assert_eq!(ra[0].timestamp, rb[0].timestamp);
    assert_eq!(ra[0].gps, rb[0].gps);
    assert_eq!(ra[0].event_id, rb[0].event_id);
}

#[test]
fn one_record_decodes_the_same_with_bytes_after_it() {
    let bare = record_bytes(77, &empty_io());
    let mut longer = bare.clone();
    longer.extend_from_slice(&[9, 8, 7]);
    let mut a = ByteReader::new(bare);
    let mut b = ByteReader::new(longer);
    let ra = parse_record(&mut a).unwrap();
    let rb = parse_record(&mut b).unwrap();
    assert_eq!(ra.timestamp, rb.timestamp);
    assert_eq!(ra.gps, rb.gps);
    assert_eq!(a.remaining(), 0);
    assert_eq!(b.copy_to_vec(3), vec![9, 8, 7]);
}
