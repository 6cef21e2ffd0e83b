//! The framing of the Discord IPC socket.
//!
//! Every message is an 8-byte header (the opcode, then the body's length, both
//! as little-endian `u32`) followed by the body.

use bytes::{Bytes, BytesMut};
use vstd::bytes::{spec_u32_from_le_bytes, spec_u32_to_le_bytes, u32_from_le_bytes, u32_to_le_bytes};
use vstd::prelude::*;

use crate::buffers::{
    bytes_contents, bytes_mut_contents, bytes_mut_extend, bytes_mut_freeze, bytes_mut_resize,
    bytes_mut_with_capacity,
};

verus! {

/// The largest body a received frame may announce (16 MiB).
pub const MAX_FRAME_SIZE: usize = 16777216;

/// The length of a frame header.
pub const HEADER_LEN: usize = 8;

/// The largest body a sent frame may carry: its length must fit the header.
pub const MAX_SEND_SIZE: usize = 4294967295;

/// The opcodes of the IPC protocol.
#[derive(Clone, Copy, Debug, PartialEq, Eq, Structural)]
pub enum Opcode {
    Handshake,
    Frame,
    Close,
    Ping,
    Pong,
}

/// The number of each opcode on the wire.
pub open spec fn opcode_number(op: Opcode) -> u32 {
    match op {
        Opcode::Handshake => 0,
        Opcode::Frame => 1,
        Opcode::Close => 2,
        Opcode::Ping => 3,
        Opcode::Pong => 4,
    }
}

impl Opcode {
    /// The number of this opcode on the wire.
    pub fn code(&self) -> (c: u32)
        ensures
            c == opcode_number(*self),
    {
        match self {
            Opcode::Handshake => 0,
            Opcode::Frame => 1,
            Opcode::Close => 2,
            Opcode::Ping => 3,
            Opcode::Pong => 4,
        }
    }

    /// The opcode with this number, if there is one.
    pub fn from_code(code: u32) -> (res: Option<Opcode>)
        ensures
            res matches Some(op) ==> opcode_number(op) == code,
            res is None <==> code > 4,
    {
        if code == 0 {
            Some(Opcode::Handshake)
        } else if code == 1 {
            Some(Opcode::Frame)
        } else if code == 2 {
            Some(Opcode::Close)
        } else if code == 3 {
            Some(Opcode::Ping)
        } else if code == 4 {
            Some(Opcode::Pong)
        } else {
            None
        }
    }
}

/// Every opcode has its own number, so reading a number back gives the opcode.
pub proof fn lemma_opcode_number_injective(a: Opcode, b: Opcode)
    ensures
        opcode_number(a) == opcode_number(b) ==> a == b,
        opcode_number(a) <= 4,
{
}

/// A frame whose size the protocol does not allow.
#[derive(Debug, Clone, Copy, PartialEq, Eq, Structural)]
pub enum FrameError {
    PayloadTooLarge { size: usize, max: usize },
}

/// A frame as read from the socket.
pub struct Frame {
    pub opcode: u32,
    pub body: Bytes,
}

/// The bytes that carry a frame with this opcode and body.
pub open spec fn spec_encode_frame(opcode: u32, body: Seq<u8>) -> Seq<u8> {
    spec_u32_to_le_bytes(opcode) + spec_u32_to_le_bytes(body.len() as u32) + body
}

/// The opcode and the body length that a header announces.
pub open spec fn spec_decode_header(header: Seq<u8>) -> (u32, u32) {
    (spec_u32_from_le_bytes(header.subrange(0, 4)), spec_u32_from_le_bytes(header.subrange(4, 8)))
}

/// Builds the bytes of a frame: opcode and length as little-endian `u32`, then the body.
/// A body whose length does not fit a `u32` is refused.
pub fn encode_frame(opcode: u32, body: &[u8]) -> (res: Result<Bytes, FrameError>)
    requires
        body@.len() + HEADER_LEN <= isize::MAX,
    ensures
        res is Err <==> body@.len() > MAX_SEND_SIZE,
        res matches Err(e) ==> e == (FrameError::PayloadTooLarge {
            size: body@.len() as usize,
            max: MAX_SEND_SIZE,
        }),
        res matches Ok(b) ==> bytes_contents(b) == spec_encode_frame(opcode, body@),
{
    if body.len() > MAX_SEND_SIZE {
        return Err(FrameError::PayloadTooLarge { size: body.len(), max: MAX_SEND_SIZE });
    }
    let mut buf: BytesMut = bytes_mut_with_capacity(HEADER_LEN + body.len());
    let op_bytes = u32_to_le_bytes(opcode);
    let len_bytes = u32_to_le_bytes(body.len() as u32);
    bytes_mut_extend(&mut buf, op_bytes.as_slice());
    bytes_mut_extend(&mut buf, len_bytes.as_slice());
    bytes_mut_extend(&mut buf, body);
    let frozen = bytes_mut_freeze(buf);
    Ok(frozen)
}

/// Reads a header: the opcode and the announced body length. A length above
/// `MAX_FRAME_SIZE` is refused.
pub fn decode_header(header: &[u8; 8]) -> (res: Result<(u32, usize), FrameError>)
    ensures
        res is Err <==> spec_decode_header(header@).1 > MAX_FRAME_SIZE,
        res matches Err(e) ==> e == (FrameError::PayloadTooLarge {
            size: spec_decode_header(header@).1 as usize,
            max: MAX_FRAME_SIZE,
        }),
        res matches Ok((op, len)) ==> op == spec_decode_header(header@).0
            && len == spec_decode_header(header@).1,
{
    let h: &[u8] = header.as_slice();
    let opcode = u32_from_le_bytes(&h[0..4]);
    let len = u32_from_le_bytes(&h[4..8]) as usize;
    if len > MAX_FRAME_SIZE {
        return Err(FrameError::PayloadTooLarge { size: len, max: MAX_FRAME_SIZE });
    }
    Ok((opcode, len))
}

/// A zero-filled buffer of `len` bytes for a frame body to be read into.
pub fn body_buffer(len: usize) -> (b: BytesMut)
    requires
        len <= isize::MAX,
    ensures
        bytes_mut_contents(b) == Seq::new(len as nat, |i: int| 0u8),
{
    let mut b = bytes_mut_with_capacity(len);
    bytes_mut_resize(&mut b, len, 0);
    assert(bytes_mut_contents(b) =~= Seq::new(len as nat, |i: int| 0u8));
    b
}

/// The frame made of an opcode and the body that was read for it.
pub fn finish_frame(opcode: u32, body: BytesMut) -> (f: Frame)
    ensures
        f.opcode == opcode,
        bytes_contents(f.body) == bytes_mut_contents(body),
{
    Frame { opcode, body: bytes_mut_freeze(body) }
}

/// Decoding the header of an encoded frame gives back its opcode and its body's
/// length, and the body follows the header unchanged.
pub proof fn lemma_encode_decode_roundtrip(opcode: u32, body: Seq<u8>)
    requires
        body.len() <= MAX_SEND_SIZE,
    ensures
        spec_encode_frame(opcode, body).len() == HEADER_LEN + body.len(),
        spec_decode_header(spec_encode_frame(opcode, body).take(HEADER_LEN as int)) == (
            opcode,
            body.len() as u32,
        ),
        spec_encode_frame(opcode, body).skip(HEADER_LEN as int) == body,
{
    vstd::bytes::lemma_auto_spec_u32_to_from_le_bytes();
    let enc = spec_encode_frame(opcode, body);
    let h = enc.take(8);
    assert(h.subrange(0, 4) =~= spec_u32_to_le_bytes(opcode));
    assert(h.subrange(4, 8) =~= spec_u32_to_le_bytes(body.len() as u32));
    assert(enc.skip(8) =~= body);
}

} // verus!
