use gbcart::{crc16_xmodem, decode_and_validate, encode, Command, ProtocolError};

/// CRC-16/XMODEM reference vector: the all-zero 70-byte Status/Info body
/// with opcode `0x55 0x04 0x01` checksums to `0x9936`.
#[test]
fn crc_reference_vector_status_body() {
    let mut body = vec![0u8; 70];
    body[0] = 0x55;
    body[1] = 0x04;
    body[2] = 0x01;
    assert_eq!(crc16_xmodem(&body), 0x9936);
}

#[test]
fn crc_matches_reference_implementation() {
    let cases: Vec<Vec<u8>> = vec![
        vec![],
        vec![0x00],
        vec![0x55, 0x04, 0x01],
        (0u8..=255).collect(),
        vec![0xff; 70],
    ];
    for case in cases {
        assert_eq!(
            crc16_xmodem(&case),
            crc16::State::<crc16::XMODEM>::calculate(&case)
        );
    }
}

#[test]
fn status_frame_trailer_is_reference_checksum() {
    let f = encode(&Command::Status, &vec![]);
    assert_eq!(f.byte_at(70), 0x99);
    assert_eq!(f.byte_at(71), 0x36);
}

#[test]
fn encode_layout_info() {
    let f = encode(&Command::Info, &vec![]);
    let b = f.as_bytes();
    assert_eq!(b.len(), 72);
    assert_eq!(&b[0..3], &[0x55, 0x04, 0x01]);
    assert!(b[3..70].iter().all(|&x| x == 0));
}

#[test]
fn encode_layout_erase() {
    let f = encode(&Command::EraseFlash, &vec![]);
    assert_eq!(&f.as_bytes()[0..6], &[0x55, 0x03, 0x00, 0x00, 0x00, 0x03]);
    let f = encode(&Command::EraseRam, &vec![]);
    assert_eq!(&f.as_bytes()[0..6], &[0x55, 0x03, 0x01, 0x00, 0x00, 0x03]);
}

#[test]
fn encode_layout_write_begin() {
    let f = encode(&Command::WriteFlashBegin, &vec![]);
    assert_eq!(
        &f.as_bytes()[0..9],
        &[0x55, 0x00, 0x02, 0x00, 0x00, 0x00, 0x03, 0x00, 0x05]
    );
}

/// Round trip: every frame built by `encode` validates, and the payload
/// bytes read back unchanged right after the opcode.
#[test]
fn encode_decode_round_trip() {
    let payload: Vec<u8> = (1u8..=64).collect();
    let f = encode(
        &Command::WriteFlashPacket {
            packet_index: 7,
            page_index: 0x0102,
        },
        &payload,
    );
    let b = f.as_bytes().clone();
    assert_eq!(&b[0..6], &[0x55, 0x01, 0x00, 7, 0x01, 0x02]);
    assert_eq!(&b[6..70], &payload[..]);
    let decoded = decode_and_validate(b).expect("fresh frame must validate");
    assert_eq!(decoded.as_bytes(), f.as_bytes());
}

#[test]
fn round_trip_all_single_shot_commands() {
    for cmd in [
        Command::Info,
        Command::Status,
        Command::EraseFlash,
        Command::EraseRam,
        Command::WriteFlashBegin,
    ] {
        let f = encode(&cmd, &vec![]);
        assert!(decode_and_validate(f.as_bytes().clone()).is_ok());
    }
}

/// Flipping any single bit within the checksummed span [0, 70) of a valid
/// frame must be caught as a checksum mismatch.
#[test]
fn every_single_bit_flip_is_detected() {
    let payload: Vec<u8> = (0u8..64).map(|x| x.wrapping_mul(37)).collect();
    let f = encode(
        &Command::WriteFlashPacket {
            packet_index: 3,
            page_index: 1,
        },
        &payload,
    );
    for i in 0..70 {
        for j in 0..8 {
            let mut corrupted = f.as_bytes().clone();
            corrupted[i] ^= 1u8 << j;
            assert!(
                matches!(
                    decode_and_validate(corrupted),
                    Err(ProtocolError::ChecksumMismatch)
                ),
                "flip of bit {j} in byte {i} went undetected"
            );
        }
    }
}

#[test]
fn corrupted_trailer_is_detected() {
    let f = encode(&Command::Info, &vec![]);
    let mut corrupted = f.as_bytes().clone();
    corrupted[71] ^= 0x01;
    assert!(matches!(
        decode_and_validate(corrupted),
        Err(ProtocolError::ChecksumMismatch)
    ));
}

#[test]
fn error_messages_are_distinct() {
    let kinds = [
        ProtocolError::Transport,
        ProtocolError::Timeout,
        ProtocolError::ChecksumMismatch,
        ProtocolError::ProtocolViolation,
        ProtocolError::SizeMismatch,
    ];
    for (i, a) in kinds.iter().enumerate() {
        assert!(!a.message().is_empty());
        for b in kinds.iter().skip(i + 1) {
            assert_ne!(a.message(), b.message());
        }
    }
}
