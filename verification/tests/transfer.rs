use gbcart::transfer::{ReadSession, TransferSession, response_timeout_ms};
use gbcart::{crc16_xmodem, decode_and_validate, encode, Command, Frame, ProtocolError};

const REGION_8M: usize = 0x800000;

/// A 640-byte image yields exactly 10 packets, indices 0..=9, page 0.
#[test]
fn chunked_write_640_bytes() {
    let image: Vec<u8> = (0..640).map(|x| (x % 251) as u8).collect();
    let mut s = TransferSession::begin_write(image.clone(), REGION_8M).unwrap();
    assert_eq!(s.packet_count(), 10);
    for i in 0..10usize {
        assert!(!s.is_done());
        assert_eq!(s.current_packet(), i);
        let f = s.current_frame();
        let b = f.as_bytes();
        assert_eq!(&b[0..3], &[0x55, 0x01, 0x00]);
        assert_eq!(b[3], i as u8);
        assert_eq!(&b[4..6], &[0, 0]); // page index 0 throughout
        assert_eq!(&b[6..70], &image[64 * i..64 * (i + 1)]);
        s.ack_ok();
    }
    assert!(s.is_done());
}

/// A 20000-byte image yields ceil(20000/64) = 313 packets, with page 0
/// for packets 0..=255 and page 1 for 256..=312, and the final partial
/// chunk zero-padded.
#[test]
fn chunked_write_20000_bytes() {
    let image: Vec<u8> = (0..20000).map(|x| (x % 241) as u8).collect();
    let mut s = TransferSession::begin_write(image.clone(), REGION_8M).unwrap();
    assert_eq!(s.packet_count(), 313);
    for i in 0..313usize {
        let f = s.current_frame();
        let b = f.as_bytes();
        assert_eq!(b[3], (i % 256) as u8);
        let page = (i / 256) as u16;
        assert_eq!(&b[4..6], &page.to_be_bytes());
        if i < 256 {
            assert_eq!(page, 0);
        } else {
            assert_eq!(page, 1);
        }
        let start = 64 * i;
        let end = (start + 64).min(image.len());
        assert_eq!(&b[6..6 + (end - start)], &image[start..end]);
        assert!(b[6 + (end - start)..70].iter().all(|&x| x == 0));
        s.ack_ok();
    }
    assert!(s.is_done());
}

/// Every packet frame validates like any other frame.
#[test]
fn packet_frames_validate() {
    let image: Vec<u8> = (0..100).map(|x| x as u8).collect();
    let mut s = TransferSession::begin_write(image, REGION_8M).unwrap();
    assert_eq!(s.packet_count(), 2);
    while !s.is_done() {
        let f = s.current_frame();
        assert!(decode_and_validate(f.as_bytes().clone()).is_ok());
        s.ack_ok();
    }
}

/// An image larger than the target region is rejected before any frame.
#[test]
fn oversized_image_is_rejected() {
    let image = vec![0u8; 100];
    match TransferSession::begin_write(image, 64) {
        Err(e) => assert_eq!(e, ProtocolError::SizeMismatch),
        Ok(_) => panic!("oversized image accepted"),
    }
}

#[test]
fn empty_image_needs_no_packets() {
    let s = TransferSession::begin_write(Vec::new(), REGION_8M).unwrap();
    assert_eq!(s.packet_count(), 0);
    assert!(s.is_done());
}

/// The retry budget allows a bounded number of re-sends of the same
/// packet, then demands an abort.
#[test]
fn retry_budget_is_bounded() {
    let image = vec![1u8; 64];
    let mut s = TransferSession::begin_write(image, REGION_8M).unwrap();
    let first = s.current_frame().as_bytes().clone();
    assert!(s.on_failed_exchange());
    assert!(s.on_failed_exchange());
    assert!(s.on_failed_exchange());
    // Re-sending builds the identical frame, same packet index included.
    assert_eq!(s.current_frame().as_bytes(), &first);
    assert_eq!(s.current_packet(), 0);
    assert!(!s.on_failed_exchange());
}

/// Erase-flash waits tens of seconds for its reply; everything else uses
/// the short window.
#[test]
fn erase_flash_gets_extended_timeout() {
    assert_eq!(response_timeout_ms(&Command::EraseFlash), 60000);
    assert_eq!(response_timeout_ms(&Command::EraseRam), 500);
    assert_eq!(response_timeout_ms(&Command::Info), 500);
    assert_eq!(response_timeout_ms(&Command::Status), 500);
    assert_eq!(response_timeout_ms(&Command::WriteFlashBegin), 500);
}

/// Build a device data frame for a read, shaped like a write packet.
fn data_frame(packet_index: u8, page_index: u16, payload: &[u8]) -> Frame {
    encode(
        &Command::WriteFlashPacket {
            packet_index,
            page_index,
        },
        &payload.to_vec(),
    )
}

/// The read session mirrors the write protocol: data frames arrive in
/// packet order and their payload bytes are collected up to the expected
/// length.
#[test]
fn chunked_read_collects_region() {
    let source: Vec<u8> = (0..100).map(|x| (x * 3) as u8).collect();
    let mut s = ReadSession::begin_read(100);
    assert!(!s.is_done());
    assert!(s.accept_frame(&data_frame(0, 0, &source[0..64])).is_ok());
    assert!(!s.is_done());
    // The final chunk is padded on the wire; only 36 bytes are taken.
    let mut last = source[64..100].to_vec();
    last.resize(64, 0);
    assert!(s.accept_frame(&data_frame(1, 0, &last)).is_ok());
    assert!(s.is_done());
    assert_eq!(s.into_data(), source);
}

/// A data frame echoing the wrong packet index is a protocol violation
/// and changes nothing.
#[test]
fn out_of_order_read_frame_is_rejected() {
    let mut s = ReadSession::begin_read(128);
    let chunk = [7u8; 64];
    assert!(matches!(
        s.accept_frame(&data_frame(1, 0, &chunk)),
        Err(ProtocolError::ProtocolViolation)
    ));
    assert!(!s.is_done());
    assert!(s.accept_frame(&data_frame(0, 0, &chunk)).is_ok());
    assert!(matches!(
        s.accept_frame(&data_frame(2, 0, &chunk)),
        Err(ProtocolError::ProtocolViolation)
    ));
    assert!(s.accept_frame(&data_frame(1, 0, &chunk)).is_ok());
    assert!(s.is_done());
    assert_eq!(s.into_data(), vec![7u8; 128]);
}

/// The status body checksum seen on the wire matches the checksum the
/// codec computes for it.
#[test]
fn status_frame_checksum_agrees_with_crc() {
    let f = encode(&Command::Status, &vec![]);
    let body: Vec<u8> = f.as_bytes()[0..70].to_vec();
    let c = crc16_xmodem(&body);
    assert_eq!(f.byte_at(70), (c >> 8) as u8);
    assert_eq!(f.byte_at(71), (c & 0xff) as u8);
}
