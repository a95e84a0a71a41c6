use triad_runtime::{FrameBody, FrameError, LengthPrefixedCodec, MaximumFrameLength};

#[test]
fn codec_writes_four_byte_big_endian_length_prefix() {
    let codec = LengthPrefixedCodec::default();
    let body = FrameBody::new(vec![0x51, 0x52, 0x53]);

    let frame = codec.encode_body(&body).expect("encoded frame");

    assert_eq!(&frame[..4], &[0, 0, 0, 3]);
    assert_eq!(&frame[4..], body.bytes());
}

#[test]
fn codec_rejects_body_above_configured_limit() {
    let codec = LengthPrefixedCodec::new(MaximumFrameLength::new(2));
    let body = FrameBody::new(vec![1, 2, 3]);

    let error = codec
        .encode_body(&body)
        .expect_err("oversized body should be rejected");

    assert!(matches!(error, FrameError::BodyTooLarge { found: 3 }));
}

#[test]
fn prefix_length_is_read_big_endian() {
    let codec = LengthPrefixedCodec::default();

    assert_eq!(
        codec.body_length_from_prefix([0x01, 0x02, 0x03, 0x04]).expect("length"),
        0x0102_0304
    );
    assert_eq!(codec.body_length_from_prefix([0, 0, 0, 2]).expect("length"), 2);
}

#[test]
fn prefix_length_above_configured_limit_is_rejected() {
    let codec = LengthPrefixedCodec::new(MaximumFrameLength::new(2));

    let error = codec
        .body_length_from_prefix([0, 0, 0, 3])
        .expect_err("oversized frame should be rejected");

    assert!(matches!(error, FrameError::BodyTooLarge { found: 3 }));
}

#[test]
fn encoded_prefix_reads_back_as_the_body_length() {
    let codec = LengthPrefixedCodec::default();
    let body = FrameBody::new(vec![7; 300]);

    let frame = codec.encode_body(&body).expect("encoded frame");
    let prefix = [frame[0], frame[1], frame[2], frame[3]];

    assert_eq!(prefix, [0, 0, 1, 44]);
    assert_eq!(codec.body_length_from_prefix(prefix).expect("length"), 300);
    assert_eq!(frame.len(), 304);
}

#[test]
fn empty_body_frames_as_a_zero_prefix() {
    let codec = LengthPrefixedCodec::default();
    let body = FrameBody::new(Vec::new());

    assert!(body.is_empty());
    assert_eq!(codec.encode_body(&body).expect("encoded frame"), vec![0, 0, 0, 0]);
}

#[test]
fn maximum_frame_length_accepts_up_to_its_bound() {
    let maximum = MaximumFrameLength::new(10);

    assert!(maximum.accepts(10));
    assert!(!maximum.accepts(11));
    assert_eq!(maximum.bytes(), 10);
    assert_eq!(MaximumFrameLength::maximum_for_u32_prefix().bytes(), u32::MAX as usize);
    assert_eq!(
        LengthPrefixedCodec::default().maximum_body_length(),
        MaximumFrameLength::maximum_for_u32_prefix()
    );
}

#[test]
fn frame_body_keeps_its_bytes() {
    let body = FrameBody::new(vec![1, 2, 3]);

    assert_eq!(body.len(), 3);
    assert!(!body.is_empty());
    assert_eq!(body.into_bytes(), vec![1, 2, 3]);
}

#[test]
fn codec_reads_body_from_length_prefixed_bytes() {
    let codec = LengthPrefixedCodec::default();
    let mut frame = std::io::Cursor::new([0, 0, 0, 2, 0x8A, 0x8B]);

    let body = codec.read_body(&mut frame).expect("decoded body");

    assert_eq!(body.bytes(), &[0x8A, 0x8B]);
}

#[test]
fn codec_rejects_read_length_above_configured_limit() {
    let codec = LengthPrefixedCodec::new(MaximumFrameLength::new(2));
    let mut frame = std::io::Cursor::new([0, 0, 0, 3, 1, 2, 3]);

    let error = codec
        .read_body(&mut frame)
        .expect_err("oversized frame should be rejected");

    assert!(matches!(error, FrameError::BodyTooLarge { found: 3 }));
}

#[test]
fn written_frame_reads_back_as_the_same_body() {
    let codec = LengthPrefixedCodec::default();
    let body = FrameBody::new(vec![0xA1, 0xA2, 0xA3]);
    let mut written: Vec<u8> = Vec::new();

    codec.write_body(&mut written, &body).expect("written frame");
    assert_eq!(written, vec![0, 0, 0, 3, 0xA1, 0xA2, 0xA3]);

    let decoded = codec
        .read_body(&mut std::io::Cursor::new(written))
        .expect("decoded body");
    assert_eq!(decoded.bytes(), body.bytes());
}

#[test]
fn codec_refuses_to_write_body_above_configured_limit() {
    let codec = LengthPrefixedCodec::new(MaximumFrameLength::new(1));
    let mut written: Vec<u8> = Vec::new();

    let error = codec
        .write_body(&mut written, &FrameBody::new(vec![1, 2]))
        .expect_err("oversized body should not be written");

    assert!(matches!(error, FrameError::BodyTooLarge { found: 2 }));
    assert!(written.is_empty());
}

#[test]
fn truncated_frame_is_an_io_error() {
    let codec = LengthPrefixedCodec::default();
    let mut frame = std::io::Cursor::new([0, 0, 0, 4, 1, 2]);

    let error = codec.read_body(&mut frame).expect_err("truncated frame");

    assert!(matches!(error, FrameError::Io(_)));
}
