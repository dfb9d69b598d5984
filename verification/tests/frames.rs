use directmessages::crypto::MAX_MESSAGE_LEN;
use directmessages::protocol::{
    frame_body_len, read_frame, write_frame, ByteReader, FrameError,
};

#[test]
fn frame_roundtrip() {
    let mut buf = Vec::new();
    write_frame(&mut buf, b"hello");
    write_frame(&mut buf, b"");
    write_frame(&mut buf, b"world!");

    let mut cursor = ByteReader::new(buf);
    assert_eq!(read_frame(&mut cursor).unwrap(), b"hello");
    assert_eq!(read_frame(&mut cursor).unwrap(), b"");
    assert_eq!(read_frame(&mut cursor).unwrap(), b"world!");
}

#[test]
fn frame_rejects_oversized_length() {
    // A length prefix larger than MAX_MESSAGE_LEN must be rejected before
    // anything is allocated for it.
    let len = (MAX_MESSAGE_LEN as u32) + 1;
    let mut buf = Vec::new();
    buf.extend_from_slice(&len.to_be_bytes());
    buf.extend_from_slice(&[0u8; 8]);

    let err = read_frame(&mut ByteReader::new(buf)).unwrap_err();
    assert_eq!(err, FrameError::TooLarge { len: 65537 });
    assert_eq!(err.message(), "frame too large: 65537 bytes");
}

#[test]
fn frame_detects_truncated_body() {
    let mut buf = Vec::new();
    buf.extend_from_slice(&5u32.to_be_bytes());
    buf.extend_from_slice(b"ab"); // only 2 of 5 bytes

    let err = read_frame(&mut ByteReader::new(buf)).unwrap_err();
    assert_eq!(err, FrameError::UnexpectedEof);
}

#[test]
fn frame_is_its_length_then_its_payload() {
    let mut buf = vec![9];
    write_frame(&mut buf, b"abc");
    assert_eq!(buf, [9, 0, 0, 0, 3, b'a', b'b', b'c']);
}

#[test]
fn longest_frame_is_read_back() {
    let payload = vec![7u8; MAX_MESSAGE_LEN];
    let mut buf = Vec::new();
    write_frame(&mut buf, &payload);
    assert_eq!(&buf[..4], [0, 1, 0, 0]);
    assert_eq!(frame_body_len(&[0, 1, 0, 0]), Ok(65536));
    assert_eq!(read_frame(&mut ByteReader::new(buf)).unwrap(), payload);
}

#[test]
fn truncated_prefix_is_the_end() {
    for len in 0..4 {
        let buf = vec![0u8; len];
        let err = read_frame(&mut ByteReader::new(buf)).unwrap_err();
        assert_eq!(err, FrameError::UnexpectedEof);
        assert_eq!(err.message(), "failed to fill whole buffer");
    }
}

#[test]
fn frame_length_is_most_significant_byte_first() {
    assert_eq!(frame_body_len(&[0, 0, 1, 2]), Ok(258));
    assert_eq!(
        frame_body_len(&[1, 2, 3, 4]),
        Err(FrameError::TooLarge { len: 16_909_060 })
    );
}
