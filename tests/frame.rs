use bytes::Bytes;
use meshcore::error::FrameError;
use meshcore::frame::{encode, FrameDecoder, FRAME_HEADER, MAX_FRAME_SIZE};

#[test]
fn test_encode_simple() {
    let payload = b"hello";
    let frame = encode(payload);

    assert_eq!(frame[0], FRAME_HEADER);
    assert_eq!(frame[1], 5);
    assert_eq!(frame[2], 0);
    assert_eq!(&frame[3..], b"hello");
}

#[test]
fn test_decode_complete_frame() {
    let mut decoder = FrameDecoder::new();
    decoder.feed(&[0x3c, 0x05, 0x00, b'h', b'e', b'l', b'l', b'o']);

    let result = decoder.decode().unwrap();
    assert_eq!(result, Some(Bytes::from_static(b"hello")));
}

#[test]
fn test_decode_partial_frame() {
    let mut decoder = FrameDecoder::new();

    decoder.feed(&[0x3c, 0x05, 0x00, b'h', b'e']);
    assert_eq!(decoder.decode().unwrap(), None);

    decoder.feed(b"llo");
    let result = decoder.decode().unwrap();
    assert_eq!(result, Some(Bytes::from_static(b"hello")));
}

#[test]
fn test_decode_any_header() {
    let mut decoder = FrameDecoder::new();
    decoder.feed(&[0x3e, 0x02, 0x00, b'o', b'k']);

    let result = decoder.decode().unwrap();
    assert_eq!(result, Some(Bytes::from_static(b"ok")));
}

#[test]
fn test_decode_multiple_frames() {
    let mut decoder = FrameDecoder::new();
    decoder.feed(&[
        0x3c, 0x02, 0x00, b'h', b'i', 0x3c, 0x03, 0x00, b'b', b'y', b'e',
    ]);

    let first = decoder.decode().unwrap();
    assert_eq!(first, Some(Bytes::from_static(b"hi")));

    let second = decoder.decode().unwrap();
    assert_eq!(second, Some(Bytes::from_static(b"bye")));
}

#[test]
fn round_trip_leaves_nothing_buffered() {
    for len in [0usize, 1, 2, 255, 256, 1000, MAX_FRAME_SIZE] {
        let payload: Vec<u8> = (0..len).map(|i| (i * 7 % 251) as u8).collect();
        let frame = encode(&payload);
        assert_eq!(frame.len(), 3 + len);
        let mut decoder = FrameDecoder::new();
        decoder.feed(&frame);
        let out = decoder.decode().unwrap().unwrap();
        assert_eq!(&out[..], &payload[..]);
        assert_eq!(decoder.buffered(), 0);
    }
}

#[test]
fn largest_frame_header() {
    let payload = vec![0xAAu8; MAX_FRAME_SIZE];
    let frame = encode(&payload);
    assert_eq!(&frame[..3], &[FRAME_HEADER, 0xFF, 0xFF]);
}

#[test]
fn split_frame_completes_only_at_last_byte() {
    let frame = encode(b"split me");
    let mut decoder = FrameDecoder::new();
    for (i, b) in frame.iter().enumerate() {
        decoder.feed(&[*b]);
        let r = decoder.decode().unwrap();
        if i + 1 < frame.len() {
            assert_eq!(r, None);
            assert_eq!(decoder.buffered(), i + 1);
        } else {
            assert_eq!(r, Some(Bytes::from_static(b"split me")));
        }
    }
    assert_eq!(decoder.decode().unwrap(), None);
}

#[test]
fn two_frames_in_arrival_order() {
    let mut bytes = encode(b"first").to_vec();
    bytes.extend_from_slice(&encode(b"second"));
    let mut decoder = FrameDecoder::new();
    decoder.feed(&bytes[..4]);
    decoder.feed(&bytes[4..]);
    assert_eq!(decoder.decode().unwrap(), Some(Bytes::from_static(b"first")));
    assert_eq!(decoder.decode().unwrap(), Some(Bytes::from_static(b"second")));
    assert_eq!(decoder.decode().unwrap(), None);
}

#[test]
fn marker_byte_is_ignored() {
    for marker in [0x00u8, 0x3c, 0x3e, 0xFF] {
        let mut decoder = FrameDecoder::new();
        decoder.feed(&[marker, 0x01, 0x00, 0x42]);
        assert_eq!(decoder.decode().unwrap(), Some(Bytes::from_static(&[0x42])));
    }
}

#[test]
fn full_length_header_is_not_too_large() {
    let mut decoder = FrameDecoder::new();
    decoder.feed(&[0x3c, 0xFF, 0xFF, 1, 2, 3]);
    let r = decoder.decode();
    assert_ne!(r, Err(FrameError::TooLarge { size: 65535, max: MAX_FRAME_SIZE }));
    assert_eq!(r.unwrap(), None);
    assert_eq!(decoder.buffered(), 6);
}

#[test]
fn short_buffer_and_clear() {
    let mut decoder = FrameDecoder::new();
    decoder.feed(&[0x3c, 0x01]);
    assert_eq!(decoder.decode().unwrap(), None);
    assert_eq!(decoder.buffered(), 2);
    decoder.clear();
    assert_eq!(decoder.buffered(), 0);
}
