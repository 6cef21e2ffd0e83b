use filthy_rich::frame::{
    body_buffer, decode_header, encode_frame, finish_frame, FrameError, Opcode, MAX_FRAME_SIZE,
};

#[test]
fn encode_writes_header_then_body() {
    let b = encode_frame(1, b"{}").unwrap();
    assert_eq!(&b[..], &[1, 0, 0, 0, 2, 0, 0, 0, b'{', b'}'][..]);
    let b = encode_frame(0x0403_0201, &[]).unwrap();
    assert_eq!(&b[..], &[1, 2, 3, 4, 0, 0, 0, 0][..]);
}

#[test]
fn decode_reads_opcode_and_length() {
    assert_eq!(decode_header(&[3, 0, 0, 0, 0x10, 0x01, 0, 0]), Ok((3, 0x110)));
}

#[test]
fn decode_refuses_oversized_bodies() {
    let n = (MAX_FRAME_SIZE as u32 + 1).to_le_bytes();
    let h = [1, 0, 0, 0, n[0], n[1], n[2], n[3]];
    assert_eq!(
        decode_header(&h),
        Err(FrameError::PayloadTooLarge { size: MAX_FRAME_SIZE + 1, max: MAX_FRAME_SIZE })
    );
    let n = (MAX_FRAME_SIZE as u32).to_le_bytes();
    let h = [1, 0, 0, 0, n[0], n[1], n[2], n[3]];
    assert_eq!(decode_header(&h), Ok((1, MAX_FRAME_SIZE)));
}

#[test]
fn encode_then_decode_roundtrip() {
    let body = b"hello world";
    let b = encode_frame(4, body).unwrap();
    let mut h = [0u8; 8];
    h.copy_from_slice(&b[..8]);
    assert_eq!(decode_header(&h), Ok((4, body.len())));
    assert_eq!(&b[8..], &body[..]);
}

#[test]
fn body_buffer_is_zeroed_and_frames_keep_it() {
    let mut buf = body_buffer(5);
    assert_eq!(&buf[..], &[0, 0, 0, 0, 0][..]);
    buf[0] = 7;
    let f = finish_frame(2, buf);
    assert_eq!(f.opcode, 2);
    assert_eq!(&f.body[..], &[7, 0, 0, 0, 0][..]);
}

#[test]
fn opcode_numbers() {
    assert_eq!(Opcode::Handshake.code(), 0);
    assert_eq!(Opcode::Frame.code(), 1);
    assert_eq!(Opcode::Close.code(), 2);
    assert_eq!(Opcode::Ping.code(), 3);
    assert_eq!(Opcode::Pong.code(), 4);
    assert_eq!(Opcode::from_code(3), Some(Opcode::Ping));
    assert_eq!(Opcode::from_code(5), None);
}
