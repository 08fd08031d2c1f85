use sendme_session::frame::{decode_length, encode_length, Frame, LENGTH_PREFIX_LEN, MAX_MESSAGE_LEN};

#[test]
fn ceiling_is_ten_mebibytes() {
    assert_eq!(MAX_MESSAGE_LEN, 10 * 1024 * 1024);
    assert_eq!(MAX_MESSAGE_LEN, 10_485_760);
    assert_eq!(LENGTH_PREFIX_LEN, 4);
}

#[test]
fn length_is_written_big_endian() {
    assert_eq!(encode_length(0), [0, 0, 0, 0]);
    assert_eq!(encode_length(1), [0, 0, 0, 1]);
    assert_eq!(encode_length(258), [0, 0, 1, 2]);
    assert_eq!(encode_length(0x0102_0304), [1, 2, 3, 4]);
    assert_eq!(encode_length(10_485_760), [0x00, 0xa0, 0x00, 0x00]);
    assert_eq!(encode_length(u32::MAX), [255, 255, 255, 255]);
}

#[test]
fn length_agrees_with_std() {
    for n in [0u32, 1, 255, 256, 65_535, 65_536, 16_777_215, 16_777_216, 10_485_760, u32::MAX] {
        assert_eq!(encode_length(n), n.to_be_bytes());
        assert_eq!(decode_length(&n.to_be_bytes()), n);
    }
}

#[test]
fn length_is_read_big_endian() {
    assert_eq!(decode_length(&[0, 0, 0, 0]), 0);
    assert_eq!(decode_length(&[0, 0, 1, 2]), 258);
    assert_eq!(decode_length(&[1, 2, 3, 4]), 0x0102_0304);
    assert_eq!(decode_length(&[0x01, 0x40, 0x00, 0x00]), 20 * 1024 * 1024);
    assert_eq!(decode_length(&[255, 255, 255, 255]), u32::MAX);
}

#[test]
fn frame_carries_prefix_and_payload() {
    let frame = Frame::new(b"hello".to_vec()).unwrap();
    assert_eq!(frame.length_prefix(), [0, 0, 0, 5]);
    assert_eq!(frame.payload(), &b"hello"[..]);
    assert_eq!(frame.to_bytes(), b"\x00\x00\x00\x05hello".to_vec());
}

#[test]
fn empty_payload_has_a_zero_prefix() {
    let frame = Frame::new(Vec::new()).unwrap();
    assert_eq!(frame.length_prefix(), [0, 0, 0, 0]);
    assert!(frame.payload().is_empty());
    assert_eq!(frame.to_bytes(), vec![0, 0, 0, 0]);
}

#[test]
fn long_payload_is_announced_by_its_length() {
    let frame = Frame::new(vec![7u8; 70_000]).unwrap();
    assert_eq!(frame.length_prefix(), [0x00, 0x01, 0x11, 0x70]);
    let bytes = frame.to_bytes();
    assert_eq!(bytes.len(), 70_004);
    assert_eq!(&bytes[..4], &[0x00, 0x01, 0x11, 0x70]);
    assert!(bytes[4..].iter().all(|b| *b == 7));
}

#[test]
fn prefix_always_says_the_length_of_the_payload() {
    for len in [0usize, 1, 255, 256, 65_535, 65_536, 1_000_000, MAX_MESSAGE_LEN + 5] {
        let frame = Frame::new(vec![1u8; len]).unwrap();
        assert_eq!(u32::from_be_bytes(frame.length_prefix()) as usize, frame.payload().len());
        assert_eq!(frame.payload().len(), len);
        assert_eq!(frame.to_bytes().len(), len + LENGTH_PREFIX_LEN);
    }
}
