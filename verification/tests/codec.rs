use rust_tuyapi::error::TuyaError;
use rust_tuyapi::mesparse::{CommandType, Message, MessageParser, ProtocolVersion};

fn parser() -> MessageParser {
    MessageParser::create("3.1", None).unwrap()
}

#[test]
fn create_accepts_known_versions_without_key() {
    assert!(MessageParser::create("3.1", None).is_ok());
    assert!(MessageParser::create("3.3", None).is_ok());
}

#[test]
fn create_accepts_sixteen_character_key() {
    let mp = MessageParser::create("3.3", Some("0123456789abcdef")).unwrap();
    assert_eq!(mp.version, ProtocolVersion::V3_3);
}

#[test]
fn create_rejects_unknown_version() {
    assert_eq!(MessageParser::create("9.9", None), Err(TuyaError::Codec));
    assert_eq!(MessageParser::create("3.2", None), Err(TuyaError::Codec));
    assert_eq!(MessageParser::create("", None), Err(TuyaError::Codec));
    assert_eq!(MessageParser::create("3.11", None), Err(TuyaError::Codec));
}

#[test]
fn create_rejects_wrong_key_length() {
    assert_eq!(
        MessageParser::create("3.3", Some("tooshort")),
        Err(TuyaError::Codec)
    );
    assert_eq!(
        MessageParser::create("3.1", Some("0123456789abcdef0")),
        Err(TuyaError::Codec)
    );
    assert_eq!(MessageParser::create("3.1", Some("")), Err(TuyaError::Codec));
}

#[test]
fn create_reports_version_even_with_bad_key() {
    // an invalid key fails construction no matter the version
    assert_eq!(
        MessageParser::create("9.9", Some("tooshort")),
        Err(TuyaError::Codec)
    );
}

#[test]
fn encode_produces_exact_frame() {
    let mp = parser();
    let mes = Message::new(b"hi", CommandType::Control, Some(1));
    let bytes = mp.encode(&mes, true).unwrap();
    let expected: Vec<u8> = vec![
        0x00, 0x00, 0x55, 0xaa, // prefix
        0x00, 0x00, 0x00, 0x01, // sequence id 1
        0x00, 0x00, 0x00, 0x07, // opcode: Control
        0x00, 0x00, 0x00, 0x02, // payload length 2
        0x68, 0x69, // "hi"
        0x00, 0x00, 0xaa, 0x55, // suffix
    ];
    assert_eq!(bytes, expected);
}

#[test]
fn encode_query_uses_query_opcode() {
    let mp = parser();
    let mes = Message::new(b"", CommandType::DpQuery, Some(0));
    let bytes = mp.encode(&mes, true).unwrap();
    assert_eq!(&bytes[8..12], &[0x00, 0x00, 0x00, 0x0a]);
}

#[test]
fn encode_without_sequence_id_writes_zero() {
    let mp = parser();
    let mes = Message::new(b"x", CommandType::Control, None);
    let bytes = mp.encode(&mes, true).unwrap();
    assert_eq!(&bytes[4..8], &[0x00, 0x00, 0x00, 0x00]);
}

#[test]
fn encode_without_envelope_is_bare_payload() {
    let mp = parser();
    let mes = Message::new(b"raw bytes", CommandType::Control, Some(3));
    let bytes = mp.encode(&mes, false).unwrap();
    assert_eq!(bytes, b"raw bytes".to_vec());
}

#[test]
fn encode_twice_yields_identical_bytes() {
    let mp = parser();
    let mes = Message::new(b"{\"1\":true}", CommandType::Control, Some(7));
    let first = mp.encode(&mes, true).unwrap();
    let second = mp.encode(&mes, true).unwrap();
    assert_eq!(first, second);
}

#[test]
fn parse_twice_yields_identical_messages() {
    let mp = parser();
    let mes = Message::new(b"abc", CommandType::DpQuery, Some(9));
    let bytes = mp.encode(&mes, true).unwrap();
    let first = mp.parse(&bytes).unwrap();
    let second = mp.parse(&bytes).unwrap();
    assert_eq!(first, second);
}

#[test]
fn parse_inverts_encode() {
    let mp = parser();
    let mes = Message::new(b"{\"2\":false}", CommandType::Control, Some(11));
    let bytes = mp.encode(&mes, true).unwrap();
    let decoded = mp.parse(&bytes).unwrap();
    assert_eq!(decoded, vec![mes]);
}

#[test]
fn parse_empty_buffer_is_zero_messages() {
    let mp = parser();
    assert_eq!(mp.parse(&[]).unwrap(), Vec::<Message>::new());
}

#[test]
fn parse_two_frames_in_order() {
    let mp = parser();
    let first = Message::new(b"one", CommandType::DpQuery, Some(1));
    let second = Message::new(b"two", CommandType::Control, Some(2));
    let mut bytes = mp.encode(&first, true).unwrap();
    bytes.extend_from_slice(&mp.encode(&second, true).unwrap());
    let decoded = mp.parse(&bytes).unwrap();
    assert_eq!(decoded, vec![first, second]);
}

#[test]
fn parse_rejects_bad_prefix() {
    let mp = parser();
    let mes = Message::new(b"hi", CommandType::Control, Some(1));
    let mut bytes = mp.encode(&mes, true).unwrap();
    bytes[2] = 0x00;
    assert_eq!(mp.parse(&bytes), Err(TuyaError::Codec));
}

#[test]
fn parse_rejects_bad_suffix() {
    let mp = parser();
    let mes = Message::new(b"hi", CommandType::Control, Some(1));
    let mut bytes = mp.encode(&mes, true).unwrap();
    let last = bytes.len() - 1;
    bytes[last] = 0xff;
    assert_eq!(mp.parse(&bytes), Err(TuyaError::Codec));
}

#[test]
fn parse_rejects_unknown_opcode() {
    let mp = parser();
    let mes = Message::new(b"hi", CommandType::Control, Some(1));
    let mut bytes = mp.encode(&mes, true).unwrap();
    bytes[11] = 0x63;
    assert_eq!(mp.parse(&bytes), Err(TuyaError::Codec));
}

#[test]
fn parse_rejects_truncated_frame() {
    let mp = parser();
    let mes = Message::new(b"hello", CommandType::Control, Some(1));
    let bytes = mp.encode(&mes, true).unwrap();
    assert_eq!(mp.parse(&bytes[..bytes.len() - 3]), Err(TuyaError::Codec));
    assert_eq!(mp.parse(&bytes[..10]), Err(TuyaError::Codec));
}

#[test]
fn parse_rejects_trailing_garbage() {
    let mp = parser();
    let mes = Message::new(b"hi", CommandType::Control, Some(1));
    let mut bytes = mp.encode(&mes, true).unwrap();
    bytes.push(0x00);
    assert_eq!(mp.parse(&bytes), Err(TuyaError::Codec));
}

#[test]
fn parse_reads_sequence_id_and_kind() {
    let mp = parser();
    let frame: Vec<u8> = vec![
        0x00, 0x00, 0x55, 0xaa, // prefix
        0x00, 0x00, 0x01, 0x02, // sequence id 258
        0x00, 0x00, 0x00, 0x0a, // opcode: DpQuery
        0x00, 0x00, 0x00, 0x00, // empty payload
        0x00, 0x00, 0xaa, 0x55, // suffix
    ];
    let decoded = mp.parse(&frame).unwrap();
    assert_eq!(decoded.len(), 1);
    assert_eq!(decoded[0].seq_nr, Some(258));
    assert_eq!(decoded[0].command, CommandType::DpQuery);
    assert!(decoded[0].payload.is_empty());
}

#[test]
fn error_labels() {
    assert_eq!(TuyaError::Codec.describe(), "codec failure");
    assert_eq!(TuyaError::BadTcpRead.describe(), "empty tcp read");
    assert_eq!(
        TuyaError::Transport(String::from("refused")).describe(),
        "transport failure"
    );
}
