use ca_repeater::protocol::{
    Command, Error, ExtendedMessageHeader, MessageHeader, EXTENDED_HEADER_SIZE, HEADER_SIZE,
};

#[test]
fn test() {}

fn register_frame() -> Vec<u8> {
    vec![
        0x00, 0x18, 0x00, 0x00, 0x00, 0x00, 0x00, 0x00, 0x00, 0x00, 0x00, 0x00, 0x7F, 0x00, 0x00,
        0x01,
    ]
}

#[test]
fn decode_register_frame_fields() {
    let h = MessageHeader::from_bytes(&register_frame()).unwrap();
    assert_eq!(h.command, 0x0018);
    assert_eq!(h.payload_size, 0x0000);
    assert_eq!(h.data_type, 0x0000);
    assert_eq!(h.data_count, 0x0000);
    assert_eq!(h.parameter_1, 0x0000_0000);
    assert_eq!(h.parameter_2, 0x7F00_0001);
}

#[test]
fn decode_beacon_frame_fields() {
    let buf = vec![
        0x00, 0x0D, 0x00, 0x00, 0x00, 0x0B, 0x00, 0x00, 0x00, 0x00, 0x00, 0x07, 0xC0, 0xA8, 0x01,
        0x32,
    ];
    let h = MessageHeader::from_bytes(&buf).unwrap();
    assert_eq!(h.command, 0x000D);
    assert_eq!(h.data_type, 0x000B);
    assert_eq!(h.parameter_1, 7);
    assert_eq!(h.parameter_2, 0xC0A8_0132);
}

#[test]
fn encode_confirm_frame_bytes() {
    let h = MessageHeader {
        command: 0x0011,
        payload_size: 0,
        data_type: 0,
        data_count: 0,
        parameter_1: 0,
        parameter_2: 0x7F00_0001,
    };
    let expected = vec![
        0x00, 0x11, 0x00, 0x00, 0x00, 0x00, 0x00, 0x00, 0x00, 0x00, 0x00, 0x00, 0x7F, 0x00, 0x00,
        0x01,
    ];
    assert_eq!(h.as_bytes(), expected);
}

#[test]
fn header_bytes_round_trip() {
    // Decode, re-encode: the re-encoding is bit-identical to the input.
    let original = register_frame();
    let decoded = MessageHeader::from_bytes(&original).unwrap();
    let reencoded = decoded.as_bytes();
    assert_eq!(reencoded, original);
    let decoded_again = MessageHeader::from_bytes(&reencoded).unwrap();
    assert_eq!(decoded_again, decoded);
}

#[test]
fn header_fields_round_trip() {
    // Encode, decode: every field comes back unchanged.
    let h = MessageHeader {
        command: 0x1B2A,
        payload_size: 0x4000,
        data_type: 0xFFFF,
        data_count: 0x0102,
        parameter_1: 0xDEAD_BEEF,
        parameter_2: 0x0000_0001,
    };
    let decoded = MessageHeader::from_bytes(&h.as_bytes()).unwrap();
    assert_eq!(decoded, h);
}

#[test]
fn header_wrong_length_is_buffer_error() {
    assert_eq!(MessageHeader::from_bytes(&[0u8; 15]), Err(Error::BufferError));
    assert_eq!(MessageHeader::from_bytes(&[0u8; 17]), Err(Error::BufferError));
    assert_eq!(MessageHeader::from_bytes(&[]), Err(Error::BufferError));
    assert_eq!(HEADER_SIZE, 16);
}

#[test]
fn command_identifiers() {
    assert_eq!(Command::CA_PROTO_RSRV_IS_UP.to_u16(), 0x0D);
    assert_eq!(Command::CA_REPEATER_CONFIRM.to_u16(), 0x11);
    assert_eq!(Command::CA_REPEATER_REGISTER.to_u16(), 0x18);
    assert_eq!(Command::CA_PROTO_VERSION.to_u16(), 0x00);
    assert_eq!(Command::CA_PROTO_SEARCH.to_u16(), 0x06);
    assert_eq!(Command::CA_PROTO_NOT_FOUND.to_u16(), 0x0E);
    assert_eq!(Command::CA_PROTO_SERVER_DISCONN.to_u16(), 0x1B);
}

#[test]
fn command_id_round_trip_all_known() {
    for id in 0u16..=0x1B {
        if id == 0x0B {
            continue;
        }
        let c = Command::try_from_u16(id).unwrap();
        assert_eq!(c.to_u16(), id);
    }
}

#[test]
fn unknown_command_id_is_parse_error() {
    assert_eq!(Command::try_from_u16(0x0B), Err(Error::ParseError));
    assert_eq!(Command::try_from_u16(0x1C), Err(Error::ParseError));
    assert_eq!(Command::try_from_u16(0xFFFF), Err(Error::ParseError));
}

#[test]
fn extended_header_round_trip() {
    let h = ExtendedMessageHeader {
        command: 0x000F,
        data_type: 0x0006,
        parameter_1: 0x1234_5678,
        parameter_2: 0x9ABC_DEF0,
        payload_size: 0x0001_0000,
        data_count: 0x0000_0400,
    };
    let bytes = h.as_bytes();
    assert_eq!(bytes.len(), EXTENDED_HEADER_SIZE);
    // The marker slots carry 0xFFFF and 0x0000.
    assert_eq!(&bytes[2..4], &[0xFF, 0xFF]);
    assert_eq!(&bytes[6..8], &[0x00, 0x00]);
    let decoded = ExtendedMessageHeader::from_bytes(&bytes).unwrap();
    assert_eq!(decoded, h);
    assert_eq!(decoded.as_bytes(), bytes);
}

#[test]
fn extended_header_bad_markers_is_parse_error() {
    let h = ExtendedMessageHeader {
        command: 0x000F,
        data_type: 0x0006,
        parameter_1: 1,
        parameter_2: 2,
        payload_size: 3,
        data_count: 4,
    };
    let mut bytes = h.as_bytes();
    bytes[2] = 0x00;
    assert_eq!(ExtendedMessageHeader::from_bytes(&bytes), Err(Error::ParseError));
}

#[test]
fn extended_header_wrong_length_is_buffer_error() {
    assert_eq!(ExtendedMessageHeader::from_bytes(&[0u8; 16]), Err(Error::BufferError));
    assert_eq!(ExtendedMessageHeader::from_bytes(&[0u8; 25]), Err(Error::BufferError));
}
