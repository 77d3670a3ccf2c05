//! The wire format: length-delimited frames, each carrying one tagged,
//! binary-encoded telemetry message.
//!
//! A frame is a 4-byte little-endian payload length followed by the payload.
//! A payload is a 1-byte kind tag; for the duration-measurement kind the tag
//! is followed by the measured value as 8 little-endian bytes. Payloads with
//! any other tag decode to [`Msg::Unknown`] so that future kinds pass through
//! a receiver of this version without error.

use vstd::arithmetic::div_mod::{lemma_div_denominator, lemma_div_is_ordered};
use vstd::prelude::*;

use crate::msg::Msg;

verus! {

/// Wire tag of the duration-measurement message kind.
pub const KIND_LOOP_TIME: u8 = 1;

/// Largest payload length a frame may declare; anything above is malformed.
pub const MAX_PAYLOAD_LEN: usize = 1048576;

/// The value of 4 little-endian bytes.
pub open spec fn le4(s: Seq<u8>) -> int
    recommends
        s.len() == 4,
{
    s[0] + s[1] * 0x100 + s[2] * 0x10000 + s[3] * 0x1000000
}

/// The value of 8 little-endian bytes.
pub open spec fn le8(s: Seq<u8>) -> int
    recommends
        s.len() == 8,
{
    s[0] + s[1] * 0x100 + s[2] * 0x10000 + s[3] * 0x1000000 + s[4] * 0x100000000 + s[5]
        * 0x10000000000 + s[6] * 0x1000000000000 + s[7] * 0x100000000000000
}

/// The 4 little-endian bytes of a value below 2^32.
pub open spec fn u32_le_bytes(v: int) -> Seq<u8>
    recommends
        0 <= v < 0x100000000,
{
    seq![
        (v % 0x100) as u8,
        (v / 0x100 % 0x100) as u8,
        (v / 0x10000 % 0x100) as u8,
        (v / 0x1000000 % 0x100) as u8,
    ]
}

/// The 8 little-endian bytes of a `u64`.
pub open spec fn u64_le_bytes(v: u64) -> Seq<u8> {
    seq![
        (v as int % 0x100) as u8,
        (v as int / 0x100 % 0x100) as u8,
        (v as int / 0x10000 % 0x100) as u8,
        (v as int / 0x1000000 % 0x100) as u8,
        (v as int / 0x100000000 % 0x100) as u8,
        (v as int / 0x10000000000 % 0x100) as u8,
        (v as int / 0x1000000000000 % 0x100) as u8,
        (v as int / 0x100000000000000 % 0x100) as u8,
    ]
}

/// Reading back the 4 little-endian bytes of a value below 2^32 yields it.
pub proof fn lemma_le4_round_trip(v: int)
    requires
        0 <= v < 0x100000000,
    ensures
        le4(u32_le_bytes(v)) == v,
{
    lemma_div_denominator(v, 0x100, 0x100);
    lemma_div_denominator(v, 0x10000, 0x100);
    lemma_div_is_ordered(v, 0xffffffff, 0x1000000);
}

/// Reading back the 8 little-endian bytes of a `u64` yields it.
pub proof fn lemma_le8_round_trip(v: u64)
    ensures
        le8(u64_le_bytes(v)) == v,
{
    lemma_div_denominator(v as int, 0x100, 0x100);
    lemma_div_denominator(v as int, 0x10000, 0x100);
    lemma_div_denominator(v as int, 0x1000000, 0x100);
    lemma_div_denominator(v as int, 0x100000000, 0x100);
    lemma_div_denominator(v as int, 0x10000000000, 0x100);
    lemma_div_denominator(v as int, 0x1000000000000, 0x100);
    lemma_div_is_ordered(v as int, 0xffffffffffffffff, 0x100000000000000);
}

/// Errors a malformed payload or frame decodes to. The error is local to the
/// connection the bytes arrived on.
#[derive(Clone, Copy, PartialEq, Eq, Structural, Debug)]
pub enum DecodeError {
    /// The payload held no kind tag at all.
    EmptyPayload,
    /// A duration-measurement payload whose length is not tag + 8 bytes.
    WrongLength,
    /// A frame that declared a payload longer than `MAX_PAYLOAD_LEN`.
    OversizedFrame,
}

/// What a payload decodes to: the message, or exactly why it is malformed.
pub open spec fn spec_decode_payload(s: Seq<u8>) -> Result<Msg, DecodeError> {
    if s.len() == 0 {
        Err(DecodeError::EmptyPayload)
    } else if s[0] == KIND_LOOP_TIME {
        if s.len() == 9 {
            Ok(Msg::LoopTime(le8(s.subrange(1, 9)) as u64))
        } else {
            Err(DecodeError::WrongLength)
        }
    } else {
        Ok(Msg::Unknown(s[0]))
    }
}

/// The payload encoding a duration measurement of `d` milliseconds.
pub open spec fn spec_encode_loop_time(d: u64) -> Seq<u8> {
    seq![KIND_LOOP_TIME] + u64_le_bytes(d)
}

/// A duration-measurement payload decodes back to the value it encodes.
pub proof fn lemma_loop_time_round_trip(d: u64)
    ensures
        spec_decode_payload(spec_encode_loop_time(d)) == Ok::<Msg, DecodeError>(Msg::LoopTime(d)),
{
    let s = spec_encode_loop_time(d);
    assert(s.subrange(1, 9) =~= u64_le_bytes(d));
    lemma_le8_round_trip(d);
}

/// Reads the 8 little-endian bytes starting at `off`.
fn read_u64_le(p: &[u8], off: usize) -> (r: u64)
    requires
        off + 8 <= p@.len(),
    ensures
        r == le8(p@.subrange(off as int, off as int + 8)),
{
    let r = (p[off] as u64) + (p[off + 1] as u64) * 0x100 + (p[off + 2] as u64) * 0x10000 + (p[off
        + 3] as u64) * 0x1000000 + (p[off + 4] as u64) * 0x100000000 + (p[off + 5] as u64)
        * 0x10000000000 + (p[off + 6] as u64) * 0x1000000000000 + (p[off + 7] as u64)
        * 0x100000000000000;
    proof {
        let s = p@.subrange(off as int, off as int + 8);
        assert(s[0] == p@[off as int] && s[1] == p@[off + 1] && s[2] == p@[off + 2] && s[3] == p@[
            off + 3
        ] && s[4] == p@[off + 4] && s[5] == p@[off + 5] && s[6] == p@[off + 6] && s[7] == p@[off
            + 7]);
    }
    r
}

/// Decodes one frame payload into a typed message, or reports exactly how it
/// is malformed. Stateless per call.
pub fn decode_payload(p: &[u8]) -> (r: Result<Msg, DecodeError>)
    ensures
        r == spec_decode_payload(p@),
{
    if p.len() == 0 {
        Err(DecodeError::EmptyPayload)
    } else if p[0] == KIND_LOOP_TIME {
        if p.len() == 9 {
            Ok(Msg::LoopTime(read_u64_le(p, 1)))
        } else {
            Err(DecodeError::WrongLength)
        }
    } else {
        Ok(Msg::Unknown(p[0]))
    }
}

/// Encodes a duration measurement of `d` milliseconds as one frame payload.
pub fn encode_loop_time(d: u64) -> (r: Vec<u8>)
    ensures
        r@ == spec_encode_loop_time(d),
        spec_decode_payload(r@) == Ok::<Msg, DecodeError>(Msg::LoopTime(d)),
{
    let mut out: Vec<u8> = Vec::new();
    out.push(KIND_LOOP_TIME);
    out.push((d % 0x100) as u8);
    out.push((d / 0x100 % 0x100) as u8);
    out.push((d / 0x10000 % 0x100) as u8);
    out.push((d / 0x1000000 % 0x100) as u8);
    out.push((d / 0x100000000 % 0x100) as u8);
    out.push((d / 0x10000000000 % 0x100) as u8);
    out.push((d / 0x1000000000000 % 0x100) as u8);
    out.push((d / 0x100000000000000 % 0x100) as u8);
    proof {
        assert(out@ =~= spec_encode_loop_time(d));
        lemma_loop_time_round_trip(d);
    }
    out
}

/// How the front of a connection's byte stream parses as one frame.
#[derive(Clone, Copy, PartialEq, Eq, Structural, Debug)]
pub enum FrameStatus {
    /// Too few bytes so far for a header or for the declared payload.
    Incomplete,
    /// The header declares a payload longer than `MAX_PAYLOAD_LEN`.
    Oversized,
    /// A complete frame whose payload holds this many bytes; the whole frame
    /// occupies the payload length plus the 4 header bytes.
    Complete(usize),
}

/// How the front of `s` parses as one length-delimited frame.
pub open spec fn spec_frame_split(s: Seq<u8>) -> FrameStatus {
    if s.len() < 4 {
        FrameStatus::Incomplete
    } else {
        let n = le4(s.subrange(0, 4));
        if n > MAX_PAYLOAD_LEN {
            FrameStatus::Oversized
        } else if s.len() < 4 + n {
            FrameStatus::Incomplete
        } else {
            FrameStatus::Complete(n as usize)
        }
    }
}

/// Classifies the front of a connection's byte stream as one frame.
pub fn frame_split(s: &[u8]) -> (r: FrameStatus)
    ensures
        r == spec_frame_split(s@),
{
    if s.len() < 4 {
        return FrameStatus::Incomplete;
    }
    let n = (s[0] as usize) + (s[1] as usize) * 0x100 + (s[2] as usize) * 0x10000 + (s[3] as usize)
        * 0x1000000;
    proof {
        assert(s@.subrange(0, 4)[0] == s@[0] && s@.subrange(0, 4)[1] == s@[1] && s@.subrange(0, 4)[2]
            == s@[2] && s@.subrange(0, 4)[3] == s@[3]);
    }
    if n > MAX_PAYLOAD_LEN {
        FrameStatus::Oversized
    } else if s.len() < 4 + n {
        FrameStatus::Incomplete
    } else {
        FrameStatus::Complete(n)
    }
}

/// The frame wrapping a payload: a 4-byte little-endian length, then the
/// payload.
pub open spec fn spec_encode_frame(p: Seq<u8>) -> Seq<u8> {
    u32_le_bytes(p.len() as int) + p
}

/// A frame encoding a payload within the length limit parses back as one
/// complete frame holding exactly that payload.
pub proof fn lemma_frame_round_trip(p: Seq<u8>)
    requires
        p.len() <= MAX_PAYLOAD_LEN,
    ensures
        spec_frame_split(spec_encode_frame(p)) == FrameStatus::Complete(p.len() as usize),
        spec_encode_frame(p).subrange(4, 4 + p.len() as int) == p,
{
    let s = spec_encode_frame(p);
    assert(s.subrange(0, 4) =~= u32_le_bytes(p.len() as int));
    lemma_le4_round_trip(p.len() as int);
    assert(s.subrange(4, 4 + p.len() as int) =~= p);
}

/// Wraps one payload as a frame for the wire: its length as 4 little-endian
/// bytes, then the payload itself.
pub fn encode_frame(payload: &Vec<u8>) -> (r: Vec<u8>)
    requires
        payload@.len() <= MAX_PAYLOAD_LEN,
    ensures
        r@ == spec_encode_frame(payload@),
        spec_frame_split(r@) == FrameStatus::Complete(payload@.len() as usize),
{
    let n = payload.len();
    let mut out: Vec<u8> = Vec::new();
    out.push((n % 0x100) as u8);
    out.push((n / 0x100 % 0x100) as u8);
    out.push((n / 0x10000 % 0x100) as u8);
    out.push((n / 0x1000000 % 0x100) as u8);
    let mut i: usize = 0;
    while i < n
        invariant
            i <= n,
            n == payload@.len(),
            out@ =~= u32_le_bytes(n as int) + payload@.subrange(0, i as int),
        decreases n - i,
    {
        out.push(payload[i]);
        i += 1;
    }
    proof {
        assert(out@ =~= spec_encode_frame(payload@));
        lemma_frame_round_trip(payload@);
    }
    out
}

/// Result of trying to take one frame off the front of a stream buffer.
pub enum FrameTake {
    /// One complete frame's payload, removed from the stream buffer.
    Frame(Vec<u8>),
    /// No complete frame yet; the stream buffer is untouched.
    NeedMore,
    /// The front of the stream is not a well-formed frame; the stream buffer
    /// is untouched and the connection cannot be resynchronized.
    Malformed,
}

/// Takes one complete frame off the front of `stream`, handing back its
/// payload, or reports that more bytes are needed or that the stream front
/// is malformed (in which cases `stream` is left untouched).
pub fn take_frame(stream: &mut Vec<u8>) -> (r: FrameTake)
    ensures
        match spec_frame_split(old(stream)@) {
            FrameStatus::Complete(n) => (r matches FrameTake::Frame(p) && p@ == old(
                stream,
            )@.subrange(4, 4 + n) && final(stream)@ == old(stream)@.subrange(
                4 + n,
                old(stream)@.len() as int,
            )),
            FrameStatus::Incomplete => r is NeedMore && final(stream)@ == old(stream)@,
            FrameStatus::Oversized => r is Malformed && final(stream)@ == old(stream)@,
        },
{
    let status = frame_split(stream.as_slice());
    match status {
        FrameStatus::Incomplete => FrameTake::NeedMore,
        FrameStatus::Oversized => FrameTake::Malformed,
        FrameStatus::Complete(n) => {
            let total = 4 + n;
            let mut payload: Vec<u8> = Vec::new();
            let mut i: usize = 4;
            while i < total
                invariant
                    4 <= i <= total,
                    total == 4 + n,
                    total <= stream@.len(),
                    payload@ =~= stream@.subrange(4, i as int),
                decreases total - i,
            {
                payload.push(stream[i]);
                i += 1;
            }
            let mut rest: Vec<u8> = Vec::new();
            let mut j: usize = total;
            let end = stream.len();
            while j < end
                invariant
                    total <= j <= end,
                    end == stream@.len(),
                    rest@ =~= stream@.subrange(total as int, j as int),
                decreases end - j,
            {
                rest.push(stream[j]);
                j += 1;
            }
            *stream = rest;
            FrameTake::Frame(payload)
        },
    }
}

} // verus!
