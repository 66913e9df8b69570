//! Length-delimited framing of the byte stream.
//!
//! A frame is one marker byte, a 16-bit little-endian payload length and
//! the payload. The marker byte is never checked.

use bytes::{Buf, Bytes, BytesMut};
use vstd::prelude::*;

use crate::error::FrameError;
use crate::wire::{le_bytes_u16, le_u16, read_u16_le};

verus! {

#[verifier::external_type_specification]
#[verifier::external_body]
pub struct ExBytesMut(BytesMut);

#[verifier::external_type_specification]
#[verifier::external_body]
pub struct ExBytes(Bytes);

/// The bytes held by a growable buffer.
pub uninterp spec fn buffer_contents(b: BytesMut) -> Seq<u8>;

/// The bytes held by a frozen buffer.
pub uninterp spec fn bytes_contents(b: Bytes) -> Seq<u8>;

/// Relies on `BytesMut::with_capacity`: a new buffer is empty.
#[verifier::external_body]
fn buffer_with_capacity(n: usize) -> (r: BytesMut)
    ensures
        buffer_contents(r) == Seq::<u8>::empty(),
{
    BytesMut::with_capacity(n)
}

/// Relies on `BytesMut::extend_from_slice`: appends the slice.
#[verifier::external_body]
fn buffer_extend(b: &mut BytesMut, s: &[u8])
    ensures
        buffer_contents(*final(b)) == buffer_contents(*old(b)) + s@,
{
    b.extend_from_slice(s)
}

/// Relies on `BytesMut::len`: the number of bytes held.
#[verifier::external_body]
fn buffer_len(b: &BytesMut) -> (r: usize)
    ensures
        r == buffer_contents(*b).len(),
{
    b.len()
}

/// Relies on indexing a `BytesMut` through its slice: the byte at `i`.
#[verifier::external_body]
fn buffer_byte(b: &BytesMut, i: usize) -> (r: u8)
    requires
        i < buffer_contents(*b).len(),
    ensures
        r == buffer_contents(*b)[i as int],
{
    b[i]
}

/// Relies on `Buf::advance` for `BytesMut`: drops the first `n` bytes.
#[verifier::external_body]
fn buffer_advance(b: &mut BytesMut, n: usize)
    requires
        n <= buffer_contents(*old(b)).len(),
    ensures
        buffer_contents(*final(b)) == buffer_contents(*old(b)).subrange(
            n as int,
            buffer_contents(*old(b)).len() as int,
        ),
{
    b.advance(n)
}

/// Relies on `BytesMut::split_to`: splits off and returns the first `n` bytes.
#[verifier::external_body]
fn buffer_split_to(b: &mut BytesMut, n: usize) -> (r: BytesMut)
    requires
        n <= buffer_contents(*old(b)).len(),
    ensures
        buffer_contents(r) == buffer_contents(*old(b)).subrange(0, n as int),
        buffer_contents(*final(b)) == buffer_contents(*old(b)).subrange(
            n as int,
            buffer_contents(*old(b)).len() as int,
        ),
{
    b.split_to(n)
}

/// Relies on `BytesMut::freeze`: the same bytes, immutable.
#[verifier::external_body]
fn buffer_freeze(b: BytesMut) -> (r: Bytes)
    ensures
        bytes_contents(r) == buffer_contents(b),
{
    b.freeze()
}

/// Relies on `BytesMut::clear`: drops every byte.
#[verifier::external_body]
fn buffer_clear(b: &mut BytesMut)
    ensures
        buffer_contents(*final(b)) == Seq::<u8>::empty(),
{
    b.clear()
}

/// Marker byte written before each outgoing frame.
pub const FRAME_HEADER: u8 = 0x3c;

/// Largest payload a frame can carry.
pub const MAX_FRAME_SIZE: usize = 65535;

/// Length of the frame header: marker byte and 16-bit length.
pub const MIN_FRAME_SIZE: usize = 3;

/// The frame that carries `payload`.
pub open spec fn framed(payload: Seq<u8>) -> Seq<u8> {
    seq![FRAME_HEADER] + le_bytes_u16(payload.len() as u16) + payload
}

/// The payload length declared by a buffer's header.
pub open spec fn declared_len(buf: Seq<u8>) -> nat {
    le_u16(buf, 1) as nat
}

/// What decoding does to a buffer: `None` when more bytes are needed,
/// otherwise the payload and what stays buffered after it.
pub open spec fn decode_step(buf: Seq<u8>) -> Option<(Seq<u8>, Seq<u8>)> {
    if buf.len() < 3 || buf.len() < 3 + declared_len(buf) {
        None
    } else {
        let end = 3 + declared_len(buf);
        Some((buf.subrange(3, end as int), buf.subrange(end as int, buf.len() as int)))
    }
}

/// Encodes a payload into a frame.
pub fn encode(payload: &[u8]) -> (r: Bytes)
    requires
        payload@.len() <= MAX_FRAME_SIZE,
    ensures
        bytes_contents(r) == framed(payload@),
{
    let len = payload.len() as u16;
    let header: [u8; 3] = [FRAME_HEADER, (len % 0x100) as u8, (len / 0x100) as u8];
    let mut buf = buffer_with_capacity(MIN_FRAME_SIZE + payload.len());
    buffer_extend(&mut buf, header.as_slice());
    buffer_extend(&mut buf, payload);
    assert(buffer_contents(buf) =~= framed(payload@));
    buffer_freeze(buf)
}

/// Incremental frame decoder: bytes are fed in as they arrive and
/// complete frames are taken out one at a time.
#[derive(Debug, Default)]
pub struct FrameDecoder {
    buffer: BytesMut,
}

impl FrameDecoder {
    /// The bytes buffered and not yet decoded.
    pub closed spec fn view(&self) -> Seq<u8> {
        buffer_contents(self.buffer)
    }

    /// Creates a decoder with nothing buffered.
    pub fn new() -> (r: Self)
        ensures
            r.view() == Seq::<u8>::empty(),
    {
        FrameDecoder { buffer: buffer_with_capacity(0) }
    }

    /// Appends received bytes to the buffer.
    pub fn feed(&mut self, data: &[u8])
        ensures
            final(self).view() == old(self).view() + data@,
    {
        buffer_extend(&mut self.buffer, data);
    }

    /// Takes the next complete frame's payload out of the buffer.
    ///
    /// Returns `Ok(None)`, consuming nothing, while the header or the
    /// payload is not fully buffered. A declared length above the largest
    /// frame is `TooLarge`; a 16-bit length never exceeds it.
    pub fn decode(&mut self) -> (r: Result<Option<Bytes>, FrameError>)
        ensures
            old(self).view().len() >= 3 && declared_len(old(self).view()) > MAX_FRAME_SIZE
                <==> r is Err,
            r is Err ==> r == Err::<Option<Bytes>, FrameError>(
                FrameError::TooLarge { size: declared_len(old(self).view()) as usize, max: MAX_FRAME_SIZE },
            ),
            r is Err ==> final(self).view() == old(self).view(),
            r matches Ok(o) ==> match decode_step(old(self).view()) {
                None => o is None && final(self).view() == old(self).view(),
                Some((payload, rest)) => o matches Some(b) && bytes_contents(b) == payload
                    && final(self).view() == rest,
            },
    {
        let n = buffer_len(&self.buffer);
        if n < MIN_FRAME_SIZE {
            return Ok(None);
        }
        let header: [u8; 3] = [
            buffer_byte(&self.buffer, 0),
            buffer_byte(&self.buffer, 1),
            buffer_byte(&self.buffer, 2),
        ];
        let length = read_u16_le(header.as_slice(), 1) as usize;
        proof {
            assert(header@[1] == self.view()[1] && header@[2] == self.view()[2]);
        }
        if length > MAX_FRAME_SIZE {
            return Err(FrameError::TooLarge { size: length, max: MAX_FRAME_SIZE });
        }
        let total = MIN_FRAME_SIZE + length;
        if n < total {
            return Ok(None);
        }
        buffer_advance(&mut self.buffer, MIN_FRAME_SIZE);
        let payload = buffer_split_to(&mut self.buffer, length);
        proof {
            let old_buf = old(self).view();
            assert(buffer_contents(payload) =~= old_buf.subrange(3, total as int));
            assert(self.view() =~= old_buf.subrange(total as int, old_buf.len() as int));
        }
        Ok(Some(buffer_freeze(payload)))
    }

    /// The number of bytes buffered.
    pub fn buffered(&self) -> (r: usize)
        ensures
            r == self.view().len(),
    {
        buffer_len(&self.buffer)
    }

    /// Drops everything buffered.
    pub fn clear(&mut self)
        ensures
            final(self).view() == Seq::<u8>::empty(),
    {
        buffer_clear(&mut self.buffer);
    }
}

proof fn lemma_header_len(payload: Seq<u8>, rest: Seq<u8>)
    requires
        payload.len() <= MAX_FRAME_SIZE,
    ensures
        declared_len(framed(payload) + rest) == payload.len(),
        (framed(payload) + rest).len() == 3 + payload.len() + rest.len(),
{
    let n = payload.len() as u16;
    let b = framed(payload) + rest;
    assert(b[1] == (n % 0x100) as u8);
    assert(b[2] == (n / 0x100) as u8);
}

/// Decoding a frame, followed by any further bytes, gives back exactly its
/// payload and leaves exactly the further bytes buffered.
pub proof fn law_frame_round_trip(payload: Seq<u8>, rest: Seq<u8>)
    requires
        payload.len() <= MAX_FRAME_SIZE,
    ensures
        decode_step(framed(payload) + rest) == Some((payload, rest)),
        decode_step(framed(payload)) == Some((payload, Seq::<u8>::empty())),
{
    lemma_header_len(payload, rest);
    lemma_header_len(payload, Seq::<u8>::empty());
    let b = framed(payload) + rest;
    let end = 3 + payload.len();
    assert(b.subrange(3, end as int) =~= payload);
    assert(b.subrange(end as int, b.len() as int) =~= rest);
    assert(framed(payload) + Seq::<u8>::empty() =~= framed(payload));
    assert(framed(payload).subrange(3, end as int) =~= payload);
    assert(framed(payload).subrange(end as int, end as int) =~= Seq::<u8>::empty());
}

/// Every strict prefix of a frame decodes to nothing, so a frame fed in
/// pieces yields no payload until its last byte has arrived.
pub proof fn law_frame_incomplete_prefix(payload: Seq<u8>, k: nat)
    requires
        payload.len() <= MAX_FRAME_SIZE,
        k < framed(payload).len(),
    ensures
        decode_step(framed(payload).subrange(0, k as int)) is None,
{
    lemma_header_len(payload, Seq::<u8>::empty());
    assert(framed(payload) + Seq::<u8>::empty() =~= framed(payload));
    let pre = framed(payload).subrange(0, k as int);
    if k >= 3 {
        assert(pre[1] == framed(payload)[1] && pre[2] == framed(payload)[2]);
    }
}

/// Two frames buffered back to back decode as two payloads in arrival
/// order, leaving nothing behind.
pub proof fn law_two_frames_in_order(a: Seq<u8>, b: Seq<u8>)
    requires
        a.len() <= MAX_FRAME_SIZE,
        b.len() <= MAX_FRAME_SIZE,
    ensures
        decode_step(framed(a) + framed(b)) == Some((a, framed(b))),
        decode_step(framed(b)) == Some((b, Seq::<u8>::empty())),
{
    law_frame_round_trip(a, framed(b));
    law_frame_round_trip(b, Seq::<u8>::empty());
}

/// The marker byte has no effect: two buffers that differ only in their
/// first byte decode alike.
pub proof fn law_marker_ignored(buf: Seq<u8>, marker: u8)
    requires
        buf.len() > 0,
    ensures
        decode_step(buf.update(0, marker)) == decode_step(buf),
{
    let other = buf.update(0, marker);
    if buf.len() >= 3 {
        assert(other[1] == buf[1] && other[2] == buf[2]);
        let end = 3 + declared_len(buf);
        if buf.len() >= end {
            assert(other.subrange(3, end as int) =~= buf.subrange(3, end as int));
            assert(other.subrange(end as int, buf.len() as int) =~= buf.subrange(
                end as int,
                buf.len() as int,
            ));
        }
    }
}

/// No header declares a length above the largest frame, so `TooLarge`
/// comes exactly when the declared length exceeds it: never, whatever is
/// buffered.
pub proof fn law_declared_len_bounded(buf: Seq<u8>)
    requires
        buf.len() >= 3,
    ensures
        declared_len(buf) <= MAX_FRAME_SIZE,
{
}

} // verus!
