//! Framing of one message on a byte stream: a four-byte little-endian length
//! followed by that many payload bytes.
use vstd::arithmetic::div_mod::{lemma_div_denominator, lemma_fundamental_div_mod};
use vstd::prelude::*;
use vstd::slice::slice_subrange;

use crate::error::GreeterError;

verus! {

/// The largest payload length that a frame header can carry.
pub const MAX_PAYLOAD_LEN: u64 = 0xffff_ffff;

/// The value of four bytes read as a little-endian unsigned integer.
pub open spec fn le_value(b: Seq<u8>) -> nat
    recommends
        b.len() == 4,
{
    (b[0] as nat) + 256 * (b[1] as nat) + 65536 * (b[2] as nat) + 16777216 * (b[3] as nat)
}

/// The four little-endian bytes of `n`.
pub open spec fn le_bytes(n: nat) -> Seq<u8> {
    seq![
        (n % 256) as u8,
        ((n / 256) % 256) as u8,
        ((n / 65536) % 256) as u8,
        ((n / 16777216) % 256) as u8,
    ]
}

/// Reading back the bytes of a value that fits in 32 bits gives the value.
pub proof fn lemma_le_round_trip(n: nat)
    requires
        n <= MAX_PAYLOAD_LEN,
    ensures
        le_bytes(n).len() == 4,
        le_value(le_bytes(n)) == n,
{
    let b = le_bytes(n);
    let q1 = n / 256;
    let q2 = n / 65536;
    let q3 = n / 16777216;
    lemma_fundamental_div_mod(n as int, 256);
    lemma_fundamental_div_mod(q1 as int, 256);
    lemma_fundamental_div_mod(q2 as int, 256);
    lemma_div_denominator(n as int, 256, 256);
    lemma_div_denominator(n as int, 65536, 256);
    assert(q3 < 256) by (nonlinear_arith)
        requires
            q3 == n / 16777216,
            n <= 0xffff_ffff,
    ;
    assert(q3 % 256 == q3) by (nonlinear_arith)
        requires
            q3 < 256,
    ;
    assert(b[0] as nat == n % 256);
    assert(b[1] as nat == q1 % 256);
    assert(b[2] as nat == q2 % 256);
    assert(b[3] as nat == q3);
}

/// The frame that carries `payload`.
pub open spec fn frame_of(payload: Seq<u8>) -> Seq<u8> {
    le_bytes(payload.len()) + payload
}

/// The payload of the first frame of `stream`, if the stream holds a whole one.
pub open spec fn first_payload(stream: Seq<u8>) -> Option<Seq<u8>> {
    if stream.len() < 4 {
        None
    } else {
        let n = le_value(stream.take(4));
        if stream.len() - 4 < n {
            None
        } else {
            Some(stream.subrange(4, 4 + n as int))
        }
    }
}

/// Reads a frame header: the payload length that four bytes announce.
pub fn frame_length(header: &[u8]) -> (r: u32)
    requires
        header@.len() == 4,
    ensures
        r as nat == le_value(header@),
{
    let b0 = header[0] as u32;
    let b1 = header[1] as u32;
    let b2 = header[2] as u32;
    let b3 = header[3] as u32;
    assert(b0 + 256 * b1 + 65536 * b2 + 16777216 * b3 <= 0xffff_ffff) by (nonlinear_arith)
        requires
            b0 <= 255,
            b1 <= 255,
            b2 <= 255,
            b3 <= 255,
    ;
    b0 + 256 * b1 + 65536 * b2 + 16777216 * b3
}

/// Writes a frame header for a payload of `len` bytes.
pub fn length_header(len: u32) -> (r: Vec<u8>)
    ensures
        r@ == le_bytes(len as nat),
{
    let mut r: Vec<u8> = Vec::new();
    r.push((len % 256) as u8);
    r.push(((len / 256) % 256) as u8);
    r.push(((len / 65536) % 256) as u8);
    r.push(((len / 16777216) % 256) as u8);
    assert(r@ =~= le_bytes(len as nat));
    r
}


/// Turns a payload into a frame: its length as four little-endian bytes, then
/// the payload itself. A payload too long for the header is refused.
pub fn encode_frame(payload: &[u8]) -> (r: Result<Vec<u8>, GreeterError>)
    ensures
        payload@.len() <= MAX_PAYLOAD_LEN ==> r is Ok && r->Ok_0@ == frame_of(payload@),
        payload@.len() > MAX_PAYLOAD_LEN ==> r == Err::<Vec<u8>, GreeterError>(
            GreeterError::Encoding,
        ),
{
    if payload.len() as u64 > MAX_PAYLOAD_LEN {
        return Err(GreeterError::Encoding);
    }
    let mut out = length_header(payload.len() as u32);
    let mut i: usize = 0;
    while i < payload.len()
        invariant
            i <= payload@.len(),
            out@ == le_bytes(payload@.len()) + payload@.take(i as int),
        decreases payload@.len() - i,
    {
        out.push(payload[i]);
        i = i + 1;
        assert(payload@.take(i as int) =~= payload@.take(i - 1) + seq![payload@[i - 1]]);
        assert(out@ =~= le_bytes(payload@.len()) + payload@.take(i as int));
    }
    assert(payload@.take(i as int) =~= payload@);
    Ok(out)
}

/// Reads the first frame of `stream`, the bytes that the connection delivered
/// before it closed, and gives its payload. A stream that ends inside the
/// header or the payload is a transport failure: no partial payload is given.
pub fn read_frame(stream: &[u8]) -> (r: Result<Vec<u8>, GreeterError>)
    ensures
        match first_payload(stream@) {
            Some(p) => r is Ok && r->Ok_0@ == p,
            None => r == Err::<Vec<u8>, GreeterError>(GreeterError::Transport),
        },
{
    if stream.len() < 4 {
        return Err(GreeterError::Transport);
    }
    let header = slice_subrange(stream, 0, 4);
    assert(header@ =~= stream@.take(4));
    let n = frame_length(header) as usize;
    if stream.len() - 4 < n {
        return Err(GreeterError::Transport);
    }
    let len = stream.len();
    let mut out: Vec<u8> = Vec::new();
    let mut i: usize = 0;
    while i < n
        invariant
            i <= n,
            len == stream@.len(),
            4 + n <= len,
            out@ == stream@.subrange(4, 4 + i),
        decreases n - i,
    {
        out.push(stream[4 + i]);
        i = i + 1;
        assert(out@ =~= stream@.subrange(4, 4 + i));
    }
    Ok(out)
}

/// Framing a payload and reading the first frame back gives the payload,
/// whatever follows it on the stream.
pub proof fn lemma_frame_round_trip(payload: Seq<u8>, rest: Seq<u8>)
    requires
        payload.len() <= MAX_PAYLOAD_LEN,
    ensures
        first_payload(frame_of(payload) + rest) == Some(payload),
{
    lemma_le_round_trip(payload.len());
    let s = frame_of(payload) + rest;
    assert(s.take(4) =~= le_bytes(payload.len()));
    assert(s.subrange(4, 4 + payload.len() as int) =~= payload);
}

} // verus!
