use nc_teltonika_server::parser::codec8e::parse;
use nc_teltonika_server::parser::reader::ByteReader;
use nc_teltonika_server::utils::{format_record, record_log_text};
use nc_teltonika_server::config::SshSettings;
use nc_teltonika_server::notifications::TeamsNotificationService;
use nc_teltonika_server::parser::FrameError;
use nc_teltonika_server::session::{ClientAction, ClientSession};
use nc_teltonika_server::text::{decimal_string, signed_decimal_string};
use nc_teltonika_server::tunnel::ssh_tunnel_args;
use nc_teltonika_server::webhook::nauticoncept_webhook_url;

fn one_record_packet(count: u8) -> Vec<u8> {
    let mut body = vec![142, count];
    for _ in 0..count {
        body.extend_from_slice(&1700000000000i64.to_be_bytes());
        body.extend_from_slice(&[0u8; 1 + 15 + 4 + 10]);
    }
    let mut v = (body.len() as u32).to_be_bytes().to_vec();
    v.extend(body);
    v.extend_from_slice(&[count, 0, 0, 0, 0]);
    v
}

#[test]
fn handshake_sets_the_imei_and_is_acknowledged_with_one() {
    let mut s = ClientSession::new();
    assert_eq!(s.imei, "");
    let mut frame = vec![0, 3];
    frame.extend_from_slice(b"123");
    match s.handle_data(frame) {
        ClientAction::AcknowledgeImei { ack } => assert_eq!(ack, vec![1]),
        _ => panic!("expected an acknowledged handshake"),
    }
    assert_eq!(s.imei, "123");
}

#[test]
fn data_is_stored_and_acknowledged_with_its_record_count() {
    let mut s = ClientSession::new();
    s.imei = "42".to_string();
    let packet = one_record_packet(3);
    let expected_hex = hex::encode(&packet);
    match s.handle_data(packet) {
        ClientAction::StoreAvl { data, raw_hex, ack } => {
            assert_eq!(data.records.len(), 3);
            assert_eq!(raw_hex, expected_hex);
            assert_eq!(ack, vec![0, 0, 0, 3]);
            assert_eq!(u32::from_be_bytes([ack[0], ack[1], ack[2], ack[3]]), 3);
        },
        _ => panic!("expected records to store"),
    }
    assert_eq!(s.imei, "42");
}

#[test]
fn invalid_and_empty_frames_close_the_connection() {
    let mut s = ClientSession::new();
    assert!(matches!(s.handle_data(vec![1, 2, 3]), ClientAction::Close { reason: None }));
    assert!(matches!(s.handle_data(one_record_packet(0)), ClientAction::Close { reason: None }));
    let mut other_codec = one_record_packet(1);
    other_codec[4] = 8;
    assert!(matches!(s.handle_data(other_codec), ClientAction::Close { reason: Some(FrameError::UnsupportedCodec(8)) }));
    assert_eq!(s.imei, "");
}

#[test]
fn raw_hex_is_lowercase() {
    let mut s = ClientSession::new();
    let packet = one_record_packet(1);
    match s.handle_data(packet) {
        ClientAction::StoreAvl { raw_hex, .. } => {
            assert!(raw_hex.starts_with("000000288e01"));
        },
        _ => panic!("expected records to store"),
    }
}

#[test]
fn decimal_renderings() {
    assert_eq!(decimal_string(0), "0");
    assert_eq!(decimal_string(65535), "65535");
    assert_eq!(decimal_string(u64::MAX), "18446744073709551615");
    assert_eq!(signed_decimal_string(-7), "-7");
    assert_eq!(signed_decimal_string(i64::MIN), "-9223372036854775808");
    assert_eq!(signed_decimal_string(120), "120");
}

#[test]
fn notification_texts() {
    assert_eq!(TeamsNotificationService::note_title("production", "SQL ERROR"), "(production) SQL ERROR");
    assert_eq!(
        TeamsNotificationService::sql_error_message("SELECT 1", "boom"),
        "<b>Error message</b>:<br/>boom<br/><br/><b>Sql:</b><br/>SELECT 1<br/>"
    );
    assert!(TeamsNotificationService::is_dev_environment("development"));
    assert!(TeamsNotificationService::is_dev_environment("my-dev"));
    assert!(!TeamsNotificationService::is_dev_environment("production"));
    assert!(!TeamsNotificationService::is_dev_environment("de"));
    assert_eq!(TeamsNotificationService::sql_error_notice("dev", "q", "e"), None);
    assert_eq!(
        TeamsNotificationService::sql_error_notice("prod", "q", "e").unwrap(),
        "<b>Error message</b>:<br/>e<br/><br/><b>Sql:</b><br/>q<br/>"
    );
}

#[test]
fn webhook_address() {
    assert_eq!(nauticoncept_webhook_url(""), None);
    assert_eq!(
        nauticoncept_webhook_url("https://api.example.com").unwrap(),
        "https://api.example.com/modmessage-ttk/message-webhook"
    );
}

#[test]
fn tunnel_arguments() {
    let none = SshSettings { user: None, host: Some("h".to_string()), key_path: None, tunnel_port: None };
    assert_eq!(ssh_tunnel_args(&none, 5432), None);
    let empty = SshSettings { user: Some(String::new()), host: None, key_path: None, tunnel_port: None };
    assert_eq!(ssh_tunnel_args(&empty, 5432), None);
    let keyed = SshSettings {
        user: Some("deploy".to_string()),
        host: Some("db.example.com".to_string()),
        key_path: Some("/k/id".to_string()),
        tunnel_port: None,
    };
    assert_eq!(
        ssh_tunnel_args(&keyed, 15432).unwrap(),
        vec![
            "-N", "-L", "15432:127.0.0.1:5432", "deploy@db.example.com", "-i", "/k/id", "-o",
            "StrictHostKeyChecking=no", "-o", "ExitOnForwardFailure=yes",
        ]
    );
    let bare = SshSettings { user: Some("u".to_string()), host: None, key_path: Some(String::new()), tunnel_port: None };
    assert_eq!(
        ssh_tunnel_args(&bare, 1).unwrap(),
        vec!["-N", "-L", "1:127.0.0.1:5432", "u@", "-o", "StrictHostKeyChecking=no", "-o", "ExitOnForwardFailure=yes"]
    );
}

#[test]
fn record_log_layout() {
    let mut io = Vec::new();
    io.extend_from_slice(&[0, 1, 0, 1, 1]); // n1: id 1 = 1
    io.extend_from_slice(&[0, 1, 0, 9, 0xff, 0xfb]); // n2: id 9 = -5
    io.extend_from_slice(&[0, 0]); // n4
    io.extend_from_slice(&[0, 1, 0, 17]); // n8: id 17
    io.extend_from_slice(&1.5f64.to_bits().to_be_bytes());
    io.extend_from_slice(&[0, 1, 0, 11, 0, 1, 0xab]); // nx: id 11
    let mut data = Vec::new();
    data.extend_from_slice(&0i64.to_be_bytes());
    data.push(2);
    data.extend_from_slice(&[0u8; 8]);
    data.extend_from_slice(&(-7i16).to_be_bytes());
    data.extend_from_slice(&[0, 0]);
    data.push(6);
    data.extend_from_slice(&40i16.to_be_bytes());
    data.extend_from_slice(&[0, 5, 0, 0]);
    data.extend(io);
    let records = parse(&mut ByteReader::new(data), 1).unwrap();
    let text = format_record(&records[0], "T", "1.000000", "2.000000", &vec!["1.5".to_string()]);
    let expected = [
        "📍 Record Timestamp: T\n",
        "  Priority: 2\n",
        "  GPS: lat=1.000000, lon=2.000000, alt=-7m, speed=40km/h, sats=6\n",
        "  Event IO ID: 5\n",
        "  IO count total: 4\n",
        "  N1 count: 1\n",
        "    Digital Input 1 (ID=1) -> 1 -\n",
        "  N2 count: 1\n",
        "    Analog Input 1 (ID=9) -> -5 V\n",
        "  N4 count: 0\n",
        "  N8 count: 1\n",
        "    Axis X (ID=17) -> 1.5 mg\n",
        "  NX count: 1\n",
        "    SIM ICCID1 number (NX ID=11): ab\n",
        "  ---\n",
    ]
    .concat();
    assert_eq!(text, expected);
}

#[test]
fn record_log_time_comes_from_chrono() {
    let mut data = Vec::new();
    data.extend_from_slice(&1700000000123i64.to_be_bytes());
    data.extend_from_slice(&[0u8; 1 + 15 + 4 + 10]);
    let records = parse(&mut ByteReader::new(data), 1).unwrap();
    let text = record_log_text(&records[0], "0.000000", "0.000000", &vec![]);
    assert!(text.starts_with("📍 Record Timestamp: 2023-11-14 22:13:20 UTC\n  Priority: 0\n"));
}
