//! Framing of the Discord IPC socket: each message is a little-endian `u32`
//! opcode, a little-endian `u32` body length, then the JSON body.

use vstd::prelude::*;
use crate::failure::Failure;
use crate::json::{Json, json_text, json_text_value, parse_json, write_json};

verus! {

pub const HANDSHAKE: u32 = 0;
pub const FRAME: u32 = 1;
pub const CLOSE: u32 = 2;
pub const PING: u32 = 3;
pub const PONG: u32 = 4;

/// The four little-endian bytes of `x` (`u32::to_le_bytes`).
pub open spec fn le_bytes(x: u32) -> Seq<u8> {
    seq![x as u8, (x >> 8u32) as u8, (x >> 16u32) as u8, (x >> 24u32) as u8]
}

/// The `u32` whose little-endian bytes are `b0..b3` (`u32::from_le_bytes`).
pub open spec fn le_value(b0: u8, b1: u8, b2: u8, b3: u8) -> u32 {
    (b0 as u32) | ((b1 as u32) << 8u32) | ((b2 as u32) << 16u32) | ((b3 as u32) << 24u32)
}

/// The `u32` read from `b[at..at + 4]`.
pub open spec fn le_at(b: Seq<u8>, at: int) -> u32 {
    le_value(b[at], b[at + 1], b[at + 2], b[at + 3])
}

/// The bytes of a frame: the opcode, the body length (as a `u32`, as the
/// sender casts it), then the body.
pub open spec fn frame_bytes(opcode: u32, body: Seq<u8>) -> Seq<u8> {
    le_bytes(opcode) + le_bytes(body.len() as u32) + body
}

/// The first frame in `bytes` and what follows it, if `bytes` holds a whole
/// frame.
pub open spec fn split_frame_spec(bytes: Seq<u8>) -> Option<(u32, Seq<u8>, Seq<u8>)> {
    if bytes.len() < 8 {
        None
    } else {
        let len = le_at(bytes, 4) as int;
        if bytes.len() < 8 + len {
            None
        } else {
            Some((le_at(bytes, 0), bytes.subrange(8, 8 + len), bytes.subrange(8 + len, bytes.len() as int)))
        }
    }
}

pub proof fn lemma_le_round_trip(x: u32)
    ensures
        le_value(le_bytes(x)[0], le_bytes(x)[1], le_bytes(x)[2], le_bytes(x)[3]) == x,
{
    assert(((x as u8) as u32) | ((((x >> 8u32) as u8) as u32) << 8u32) | ((((x >> 16u32) as u8) as u32) << 16u32)
        | ((((x >> 24u32) as u8) as u32) << 24u32) == x) by (bit_vector);
}

pub proof fn lemma_bytes_round_trip(b0: u8, b1: u8, b2: u8, b3: u8)
    ensures
        le_bytes(le_value(b0, b1, b2, b3)) == seq![b0, b1, b2, b3],
{
    let x = le_value(b0, b1, b2, b3);
    assert(x as u8 == b0 && (x >> 8u32) as u8 == b1 && (x >> 16u32) as u8 == b2 && (x >> 24u32) as u8 == b3) by (bit_vector)
        requires
            x == (b0 as u32) | ((b1 as u32) << 8u32) | ((b2 as u32) << 16u32) | ((b3 as u32) << 24u32),
    ;
    assert(le_bytes(x) =~= seq![b0, b1, b2, b3]);
}

/// Reading back a frame gives the opcode and the body that were written,
/// and leaves what followed untouched, for any body shorter than 4 GiB.
pub proof fn lemma_frame_round_trip(opcode: u32, body: Seq<u8>, rest: Seq<u8>)
    requires
        body.len() <= u32::MAX,
    ensures
        split_frame_spec(frame_bytes(opcode, body) + rest) == Some((opcode, body, rest)),
{
    let b = frame_bytes(opcode, body) + rest;
    lemma_le_round_trip(opcode);
    lemma_le_round_trip(body.len() as u32);
    assert(b[0] == le_bytes(opcode)[0] && b[1] == le_bytes(opcode)[1] && b[2] == le_bytes(opcode)[2] && b[3] == le_bytes(opcode)[3]);
    let l = body.len() as u32;
    assert(b[4] == le_bytes(l)[0] && b[5] == le_bytes(l)[1] && b[6] == le_bytes(l)[2] && b[7] == le_bytes(l)[3]);
    assert(l == body.len());
    assert(b.subrange(8, 8 + body.len() as int) =~= body);
    assert(b.subrange(8 + body.len() as int, b.len() as int) =~= rest);
}

fn push_le(v: &mut Vec<u8>, x: u32)
    ensures
        final(v)@ == old(v)@ + le_bytes(x),
{
    v.push(x as u8);
    v.push((x >> 8) as u8);
    v.push((x >> 16) as u8);
    v.push((x >> 24) as u8);
    assert(final(v)@ =~= old(v)@ + le_bytes(x)) by {
        assert(v@ =~= old(v)@ + le_bytes(x));
    }
}

/// The bytes to write for a message with this opcode and JSON body.
pub fn encode_frame(opcode: u32, body: &[u8]) -> (frame: Vec<u8>)
    ensures
        frame@ == frame_bytes(opcode, body@),
{
    let mut frame: Vec<u8> = Vec::new();
    push_le(&mut frame, opcode);
    push_le(&mut frame, body.len() as u32);
    let ghost head = frame@;
    let mut i: usize = 0;
    while i < body.len()
        invariant
            i <= body@.len(),
            frame@ == head + body@.take(i as int),
        decreases body@.len() - i,
    {
        frame.push(body[i]);
        assert(body@.take(i + 1) =~= body@.take(i as int).push(body@[i as int]));
        i = i + 1;
    }
    assert(body@.take(body@.len() as int) =~= body@);
    assert(head == le_bytes(opcode) + le_bytes(body@.len() as u32));
    frame
}

/// The opcode and the body length read from a frame header.
pub fn decode_header(header: &[u8]) -> (r: (u32, u32))
    requires
        header@.len() == 8,
    ensures
        r.0 == le_at(header@, 0),
        r.1 == le_at(header@, 4),
{
    let op = (header[0] as u32) | ((header[1] as u32) << 8) | ((header[2] as u32) << 16) | ((header[3] as u32) << 24);
    let len = (header[4] as u32) | ((header[5] as u32) << 8) | ((header[6] as u32) << 16) | ((header[7] as u32) << 24);
    (op, len)
}

/// The first whole frame in `bytes` and the number of bytes it takes.
pub fn split_frame(bytes: &[u8]) -> (r: Option<(u32, Vec<u8>, usize)>)
    ensures
        match r {
            Some((op, body, used)) => split_frame_spec(bytes@) matches Some(s) && s.0 == op && s.1 == body@
                && used == 8 + body@.len() && s.2 == bytes@.subrange(used as int, bytes@.len() as int),
            None => split_frame_spec(bytes@) is None,
        },
{
    if bytes.len() < 8 {
        return None;
    }
    let op = (bytes[0] as u32) | ((bytes[1] as u32) << 8) | ((bytes[2] as u32) << 16) | ((bytes[3] as u32) << 24);
    let len = (bytes[4] as u32) | ((bytes[5] as u32) << 8) | ((bytes[6] as u32) << 16) | ((bytes[7] as u32) << 24);
    let n = len as usize;
    if bytes.len() - 8 < n {
        return None;
    }
    let blen = bytes.len();
    let mut body: Vec<u8> = Vec::new();
    let mut i: usize = 0;
    while i < n
        invariant
            i <= n,
            blen == bytes@.len(),
            8 + n <= blen,
            body@ == bytes@.subrange(8, 8 + i),
        decreases n - i,
    {
        body.push(bytes[8 + i]);
        assert(bytes@.subrange(8, 8 + i + 1) =~= bytes@.subrange(8, 8 + i).push(bytes@[8 + i]));
        i = i + 1;
    }
    Some((op, body, 8 + n))
}

/// The bytes to write for a message with this opcode and this JSON body.
pub fn encode_message(opcode: u32, payload: &Json) -> (frame: Vec<u8>)
    ensures
        frame@ == frame_bytes(opcode, json_text(*payload)),
{
    let body = write_json(payload);
    encode_frame(opcode, body.as_slice())
}

/// The first whole frame in `bytes`, with its body read as JSON, and the
/// number of bytes it takes; `None` while no whole frame is there.
pub fn decode_message(bytes: &[u8]) -> (r: Option<Result<(u32, Json, usize), Failure>>)
    ensures
        match split_frame_spec(bytes@) {
            None => r is None,
            Some((op, body, _)) => match json_text_value(body) {
                Ok(j) => r == Some(Ok::<(u32, Json, usize), Failure>((op, j, (8 + body.len()) as usize))),
                Err(e) => r matches Some(Err(f)) && f.message@ == "invalid Discord RPC JSON"@
                    && f.detail@ == "invalid Discord RPC JSON"@ + ": "@ + e,
            },
        },
{
    match split_frame(bytes) {
        None => None,
        Some((op, body, used)) => match parse_json(body.as_slice()) {
            Ok(j) => Some(Ok((op, j, used))),
            Err(e) => Some(Err(Failure::caused_by("invalid Discord RPC JSON", &Failure::new(e)))),
        },
    }
}

} // verus!
