use mdr_headphones::frame::{
    escape, unescape, Frame, FrameDataType, FrameParseError, TANDEM_ESCAPE, TANDEM_FRAME_END,
    TANDEM_FRAME_START,
};
use mdr_headphones::scanner::FrameScanner;

const ALL_DATA_TYPES: [(FrameDataType, u8); 16] = [
    (FrameDataType::Data, 0x00),
    (FrameDataType::Ack, 0x01),
    (FrameDataType::DataMcNo1, 0x02),
    (FrameDataType::DataIcd, 0x09),
    (FrameDataType::DataEv, 0x0a),
    (FrameDataType::DataMdr, 0x0c),
    (FrameDataType::DataCommon, 0x0d),
    (FrameDataType::DataMdrNo2, 0x0e),
    (FrameDataType::Shot, 0x10),
    (FrameDataType::ShotMcNo1, 0x12),
    (FrameDataType::ShotIcd, 0x19),
    (FrameDataType::ShotEv, 0x1a),
    (FrameDataType::ShotMdr, 0x1c),
    (FrameDataType::ShotCommon, 0x1d),
    (FrameDataType::ShotMdrNo2, 0x1e),
    (FrameDataType::LargeDataCommon, 0x2d),
];

/// The unescaped run of a frame: delimiters, header, content, checksum.
fn raw_run(data_type: u8, sequence_number: u8, content: &[u8], checksum: u8) -> Vec<u8> {
    let mut run = vec![TANDEM_FRAME_START, data_type, sequence_number];
    run.extend_from_slice(&(content.len() as u32).to_be_bytes());
    run.extend_from_slice(content);
    run.push(checksum);
    run.push(TANDEM_FRAME_END);
    run
}

#[test]
fn control_bytes_have_their_values() {
    assert_eq!(TANDEM_FRAME_START, 0x3e);
    assert_eq!(TANDEM_FRAME_END, 0x3c);
    assert_eq!(TANDEM_ESCAPE, 0x3d);
}

#[test]
fn unescape_sets_bit_four() {
    assert_eq!(unescape(0x2e), 0x3e);
    assert_eq!(unescape(0x2c), 0x3c);
    assert_eq!(unescape(0x2d), 0x3d);
    assert_eq!(unescape(0x00), 0x10);
    assert_eq!(unescape(0x3e), 0x3e);
    assert_eq!(unescape(0xef), 0xff);
}

#[test]
fn escape_replaces_each_reserved_byte() {
    assert_eq!(
        escape(&[0x3e, 0x3c, 0x3d, 0x01]),
        vec![0x3d, 0x2e, 0x3d, 0x2c, 0x3d, 0x2d, 0x01]
    );
}

#[test]
fn escape_keeps_other_bytes() {
    assert_eq!(escape(&[]), Vec::<u8>::new());
    assert_eq!(escape(&[0x00, 0x2e, 0x3b, 0x3f, 0xff]), vec![0x00, 0x2e, 0x3b, 0x3f, 0xff]);
}

#[test]
fn scanner_undoes_escape_for_every_mix_of_reserved_bytes() {
    let alphabet = [0x3eu8, 0x3c, 0x3d, 0x2e, 0x10, 0x00];
    for a in alphabet {
        for b in alphabet {
            for c in alphabet {
                let content = [a, b, c];
                let frame = Frame::new(FrameDataType::DataMdr, 1, &content);
                let frames = Frame::from_byte_stream(&frame.to_bytes());
                assert_eq!(frames.len(), 1);
                assert_eq!(frames[0].content, content.to_vec());
            }
        }
    }
}

#[test]
fn data_type_bytes_match_the_table() {
    for (data_type, byte) in ALL_DATA_TYPES {
        assert_eq!(data_type.to_u8(), byte);
        assert_eq!(FrameDataType::from_u8(byte), Some(data_type));
    }
    let known: Vec<u8> = ALL_DATA_TYPES.iter().map(|(_, byte)| *byte).collect();
    for byte in 0..=255u8 {
        if !known.contains(&byte) {
            assert_eq!(FrameDataType::from_u8(byte), None);
        }
    }
}

#[test]
fn checksum_adds_content_sequence_type_and_length() {
    let frame = Frame::new(FrameDataType::DataMdr, 0, &[0x00, 0x00]);
    assert_eq!(frame.checksum(), 0x0e);
    let frame = Frame::new(FrameDataType::DataMdr, 1, &[0x3e, 0x3c, 0x3d, 0x10]);
    assert_eq!(frame.checksum(), 0xd8);
}

#[test]
fn checksum_wraps_at_a_byte() {
    let frame = Frame::new(FrameDataType::LargeDataCommon, 0xff, &[0xff, 0xff, 0xff]);
    // 3 * 255 + 255 + 45 + 3 = 1068 = 4 * 256 + 44
    assert_eq!(frame.checksum(), 44);
    let long = vec![1u8; 300];
    let frame = Frame::new(FrameDataType::Data, 0, &long);
    // 300 + 0 + 0 + 300 = 600 = 2 * 256 + 88
    assert_eq!(frame.checksum(), 88);
}

#[test]
fn new_ack_complements_the_sequence_number() {
    assert_eq!(Frame::new_ack(0).sequence_number, 1);
    assert_eq!(Frame::new_ack(1).sequence_number, 0);
}

#[test]
fn new_ack_is_an_empty_ack_frame() {
    let ack = Frame::new_ack(0);
    assert_eq!(ack.data_type, FrameDataType::Ack);
    assert!(ack.content.is_empty());
    assert_eq!(ack.to_bytes(), vec![0x3e, 0x01, 0x01, 0x00, 0x00, 0x00, 0x00, 0x02, 0x3c]);
    assert_eq!(
        Frame::new_ack(1).to_bytes(),
        vec![0x3e, 0x01, 0x00, 0x00, 0x00, 0x00, 0x00, 0x01, 0x3c]
    );
}

#[test]
fn new_ack_wraps_for_other_sequence_numbers() {
    assert_eq!(Frame::new_ack(2).sequence_number, 255);
    assert_eq!(Frame::new_ack(255).sequence_number, 2);
}

#[test]
fn to_bytes_lays_out_header_content_and_checksum() {
    let frame = Frame::new(FrameDataType::DataMdr, 0, &[0x00, 0x00]);
    assert_eq!(
        frame.to_bytes(),
        vec![0x3e, 0x0c, 0x00, 0x00, 0x00, 0x00, 0x02, 0x00, 0x00, 0x0e, 0x3c]
    );
}

#[test]
fn to_bytes_escapes_the_body() {
    let frame = Frame::new(FrameDataType::DataMdr, 1, &[0x3e, 0x3c, 0x3d, 0x10]);
    assert_eq!(
        frame.to_bytes(),
        vec![
            0x3e, 0x0c, 0x01, 0x00, 0x00, 0x00, 0x04, 0x3d, 0x2e, 0x3d, 0x2c, 0x3d, 0x2d, 0x10,
            0xd8, 0x3c
        ]
    );
}

#[test]
fn to_bytes_escapes_a_reserved_checksum() {
    let frame = Frame::new(FrameDataType::DataMdr, 0, &[0x2f]);
    assert_eq!(frame.checksum(), 0x3c);
    assert_eq!(
        frame.to_bytes(),
        vec![0x3e, 0x0c, 0x00, 0x00, 0x00, 0x00, 0x01, 0x2f, 0x3d, 0x2c, 0x3c]
    );
    let frames = Frame::from_byte_stream(&frame.to_bytes());
    assert_eq!(frames.len(), 1);
    assert_eq!(frames[0].content, vec![0x2f]);
}

#[test]
fn round_trip_for_every_data_type() {
    let contents: [&[u8]; 4] = [&[], &[0x01], &[0x3e, 0x3d, 0x3c], &[0xff; 40]];
    for (data_type, _) in ALL_DATA_TYPES {
        for sequence_number in [0u8, 1] {
            for content in contents {
                let frame = Frame::new(data_type, sequence_number, content);
                let frames = Frame::from_byte_stream(&frame.to_bytes());
                assert_eq!(frames.len(), 1);
                assert_eq!(frames[0].data_type, data_type);
                assert_eq!(frames[0].sequence_number, sequence_number);
                assert_eq!(frames[0].content, content.to_vec());
            }
        }
    }
}

#[test]
fn honest_checksum_is_accepted_for_every_data_type() {
    for (data_type, byte) in ALL_DATA_TYPES {
        let content = [0x10u8, 0x20, 0x30];
        let checksum = Frame::new(data_type, 1, &content).checksum();
        let frame = Frame::try_from_bytes(&raw_run(byte, 1, &content, checksum)).unwrap();
        assert_eq!(frame.data_type, data_type);
        assert_eq!(frame.sequence_number, 1);
        assert_eq!(frame.content, content.to_vec());
    }
}

#[test]
fn tampered_checksum_is_rejected_for_every_data_type() {
    for (data_type, byte) in ALL_DATA_TYPES {
        let content = [0x10u8, 0x20, 0x30];
        let checksum = Frame::new(data_type, 1, &content).checksum();
        let tampered = checksum.wrapping_add(1);
        let result = Frame::try_from_bytes(&raw_run(byte, 1, &content, tampered));
        assert_eq!(
            result.err(),
            Some(FrameParseError::InvalidCheckSum { expected: checksum, actual: tampered })
        );
    }
}

#[test]
fn tampered_checksum_on_the_wire_yields_no_frame() {
    let mut bytes = Frame::new(FrameDataType::DataMdr, 0, &[0x00, 0x00]).to_bytes();
    let checksum_at = bytes.len() - 2;
    bytes[checksum_at] ^= 0x01;
    assert!(Frame::from_byte_stream(&bytes).is_empty());
}

#[test]
fn short_run_is_too_small() {
    assert_eq!(Frame::try_from_bytes(&[]).err(), Some(FrameParseError::TooSmall));
    assert_eq!(
        Frame::try_from_bytes(&[0x3e, 0x01, 0x01, 0x00, 0x00, 0x00, 0x02, 0x3c]).err(),
        Some(FrameParseError::TooSmall)
    );
}

#[test]
fn missing_delimiter_is_invalid_format() {
    let good = raw_run(0x01, 1, &[], 0x02);
    assert!(Frame::try_from_bytes(&good).is_ok());
    let mut no_start = good.clone();
    no_start[0] = 0x00;
    assert_eq!(Frame::try_from_bytes(&no_start).err(), Some(FrameParseError::InvalidFormat));
    let mut no_end = good.clone();
    let last = no_end.len() - 1;
    no_end[last] = 0x00;
    assert_eq!(Frame::try_from_bytes(&no_end).err(), Some(FrameParseError::InvalidFormat));
}

#[test]
fn declared_length_beyond_the_run_is_incorrect_length() {
    // declares 2 content bytes, holds 1 and a checksum
    let run = [0x3e, 0x0c, 0x00, 0x00, 0x00, 0x00, 0x02, 0x01, 0x0f, 0x3c];
    assert_eq!(Frame::try_from_bytes(&run).err(), Some(FrameParseError::IncorrectLenght));
    // declares the largest length there is
    let run = [0x3e, 0x0c, 0x00, 0xff, 0xff, 0xff, 0xff, 0x01, 0x0f, 0x3c];
    assert_eq!(Frame::try_from_bytes(&run).err(), Some(FrameParseError::IncorrectLenght));
}

#[test]
fn unknown_type_byte_is_invalid_data_type() {
    // type 0x03 is in no table; the checksum is honest: 0 + 0 + 3 + 0
    let run = raw_run(0x03, 0, &[], 0x03);
    assert_eq!(Frame::try_from_bytes(&run).err(), Some(FrameParseError::InvalidDataType));
}

#[test]
fn checksum_is_checked_before_the_data_type() {
    let run = raw_run(0x03, 0, &[], 0x04);
    assert_eq!(
        Frame::try_from_bytes(&run).err(),
        Some(FrameParseError::InvalidCheckSum { expected: 0x03, actual: 0x04 })
    );
}

#[test]
fn bytes_behind_the_checksum_are_tolerated() {
    // an ack frame followed by two spare bytes inside the delimiters
    let run = [0x3e, 0x01, 0x01, 0x00, 0x00, 0x00, 0x00, 0x02, 0xaa, 0xbb, 0x3c];
    let frame = Frame::try_from_bytes(&run).unwrap();
    assert_eq!(frame.data_type, FrameDataType::Ack);
    assert_eq!(frame.sequence_number, 1);
    assert!(frame.content.is_empty());
}

#[test]
fn truncated_frame_yields_nothing() {
    let bytes = Frame::new(FrameDataType::DataMdr, 0, &[0x01, 0x02, 0x03]).to_bytes();
    let truncated = &bytes[..bytes.len() - 1];
    assert!(Frame::from_byte_stream(truncated).is_empty());
    assert!(Frame::from_byte_stream(&[0x3e]).is_empty());
    assert!(Frame::from_byte_stream(&[0x3e, 0x0c, 0x00, 0x3d]).is_empty());
    assert!(Frame::from_byte_stream(&[]).is_empty());
}

#[test]
fn truncated_frame_is_dropped_at_the_next_start() {
    let first = Frame::new(FrameDataType::DataMdr, 0, &[0x01, 0x02, 0x03]).to_bytes();
    let second = Frame::new(FrameDataType::DataMdr, 1, &[0x04]).to_bytes();
    let mut stream = first[..6].to_vec();
    stream.extend_from_slice(&second);
    let frames = Frame::from_byte_stream(&stream);
    assert_eq!(frames.len(), 1);
    assert_eq!(frames[0].sequence_number, 1);
    assert_eq!(frames[0].content, vec![0x04]);
}

#[test]
fn malformed_frame_does_not_stop_the_scanner() {
    let mut stream = vec![0x3e, 0x01, 0x02, 0x3c];
    stream.extend_from_slice(&Frame::new_ack(0).to_bytes());
    stream.extend_from_slice(&[0x99, 0x3c]);
    stream.extend_from_slice(&Frame::new_ack(1).to_bytes());
    let frames = Frame::from_byte_stream(&stream);
    assert_eq!(frames.len(), 2);
    assert_eq!(frames[0].sequence_number, 1);
    assert_eq!(frames[1].sequence_number, 0);
}

#[test]
fn scanner_keeps_state_between_chunks() {
    let bytes = Frame::new(FrameDataType::DataMdr, 1, &[0x3e, 0x3c, 0x3d, 0x10]).to_bytes();
    for cut in 0..=bytes.len() {
        let mut scanner = FrameScanner::new();
        let mut frames = scanner.feed(&bytes[..cut]);
        if cut < bytes.len() {
            assert!(frames.is_empty());
        }
        frames.extend(scanner.feed(&bytes[cut..]));
        assert_eq!(frames.len(), 1);
        assert_eq!(frames[0].content, vec![0x3e, 0x3c, 0x3d, 0x10]);
    }
}

#[test]
fn scanner_push_returns_the_frame_at_its_end_delimiter() {
    let bytes = Frame::new_ack(0).to_bytes();
    let mut scanner = FrameScanner::new();
    for (i, byte) in bytes.iter().enumerate() {
        let frame = scanner.push(*byte);
        assert_eq!(frame.is_some(), i == bytes.len() - 1);
    }
}

#[test]
fn completed_frame_is_not_emitted_again() {
    let mut stream = Frame::new_ack(0).to_bytes();
    stream.extend_from_slice(&[0x00, 0x3c]);
    assert_eq!(Frame::from_byte_stream(&stream).len(), 1);
}

#[test]
fn mdr_bytes_stop_at_the_first_error() {
    let results = vec![
        Ok(Frame::new(FrameDataType::DataMdr, 0, &[1, 2])),
        Ok(Frame::new(FrameDataType::DataMdr, 1, &[3])),
        Err(FrameParseError::TooSmall),
        Ok(Frame::new(FrameDataType::DataMdr, 0, &[4])),
    ];
    assert_eq!(Frame::to_mdr_bytes_stream(results), vec![1, 2, 3]);
    assert_eq!(Frame::to_mdr_bytes_stream(vec![]), Vec::<u8>::new());
}

#[test]
fn frame_as_a_log_line() {
    let frame = Frame::new(FrameDataType::DataMdr, 1, &[0x01, 0x02, 0xab]);
    assert_eq!(frame.to_text(), "Frame(type: DataMdr, seq: 1) { 01 02 ab }");
    assert_eq!(Frame::new_ack(1).to_text(), "Frame(type: Ack, seq: 0) {  }");
    let frame = Frame::new(FrameDataType::LargeDataCommon, 255, &[0x00]);
    assert_eq!(frame.to_text(), "Frame(type: LargeDataCommon, seq: 255) { 00 }");
    let frame = Frame::new(FrameDataType::ShotMdrNo2, 42, &[]);
    assert_eq!(frame.to_text(), "Frame(type: ShotMdrNo2, seq: 42) {  }");
}

#[test]
fn data_type_names() {
    for (data_type, _) in ALL_DATA_TYPES {
        assert_eq!(data_type.name(), format!("{:?}", data_type));
    }
}
