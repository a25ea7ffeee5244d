//! Frames: a payload behind the two bytes of its length, low byte first.

use crate::error::{ErrorView, YabuError};
use vstd::prelude::*;

verus! {

/// The longest payload that a frame holds: what two bytes can count.
pub const MAX_PAYLOAD: usize = 65535;

/// The two bytes that count `length`, low byte first.
pub open spec fn length_prefix(length: int) -> Seq<u8> {
    seq![(length % 256) as u8, (length / 256) as u8]
}

/// The length that two bytes count, the low byte first.
pub open spec fn prefix_length(low: u8, high: u8) -> int {
    low as int + 256 * (high as int)
}

/// The frame of a payload: its length in two bytes, then the payload. A
/// payload of more than 65535 bytes has no frame.
pub open spec fn spec_frame(payload: Seq<u8>) -> Result<Seq<u8>, ErrorView> {
    if payload.len() > MAX_PAYLOAD {
        Err(ErrorView::PayloadTooLarge(payload.len() as usize))
    } else {
        Ok(length_prefix(payload.len() as int) + payload)
    }
}

/// The payload of the frame at the head of `stream`, where `stream` is all
/// that arrives before the stream ends.
///
/// No byte at all is a peer that closed between two frames. A stream that
/// ends inside the length, or before the payload is complete, is truncated.
pub open spec fn spec_unframe(stream: Seq<u8>) -> Result<Seq<u8>, ErrorView> {
    if stream.len() == 0 {
        Err(ErrorView::ConnectionClosed)
    } else if stream.len() < 2 {
        Err(ErrorView::Truncated)
    } else if stream.len() - 2 < prefix_length(stream[0], stream[1]) {
        Err(ErrorView::Truncated)
    } else {
        Ok(stream.subrange(2, 2 + prefix_length(stream[0], stream[1])))
    }
}

/// How many bytes of `stream` the frame at its head takes.
pub open spec fn frame_size(stream: Seq<u8>) -> int {
    2 + prefix_length(stream[0], stream[1])
}

/// The length that the two bytes of a frame's head count.
pub fn payload_length(low: u8, high: u8) -> (length: usize)
    ensures
        length == prefix_length(low, high),
        length <= MAX_PAYLOAD,
{
    let low_part: usize = low as usize;
    let high_part: usize = high as usize;
    low_part + 256 * high_part
}

/// Puts a payload behind its length.
pub fn frame(payload: &[u8]) -> (r: Result<Vec<u8>, YabuError>)
    ensures
        match r {
            Ok(bytes) => spec_frame(payload@) == Ok::<Seq<u8>, ErrorView>(bytes@),
            Err(e) => spec_frame(payload@) == Err::<Seq<u8>, ErrorView>(e@),
        },
{
    let length = payload.len();
    if length > MAX_PAYLOAD {
        return Err(YabuError::PayloadTooLarge(length));
    }
    let mut bytes: Vec<u8> = Vec::new();
    bytes.push((length % 256) as u8);
    bytes.push((length / 256) as u8);
    let mut i: usize = 0;
    while i < length
        invariant
            length == payload@.len(),
            i <= length,
            bytes@ == length_prefix(length as int) + payload@.subrange(0, i as int),
        decreases length - i,
    {
        bytes.push(payload[i]);
        i += 1;
        assert(bytes@ =~= length_prefix(length as int) + payload@.subrange(0, i as int));
    }
    assert(payload@.subrange(0, length as int) =~= payload@);
    Ok(bytes)
}

/// Takes the payload of the frame at the head of `stream`, where `stream` is
/// all that arrived before the stream ended. Bytes behind the frame are left
/// alone.
pub fn unframe(stream: &[u8]) -> (r: Result<Vec<u8>, YabuError>)
    ensures
        match r {
            Ok(payload) => spec_unframe(stream@) == Ok::<Seq<u8>, ErrorView>(payload@),
            Err(e) => spec_unframe(stream@) == Err::<Seq<u8>, ErrorView>(e@),
        },
{
    if stream.len() == 0 {
        return Err(YabuError::ConnectionClosed);
    }
    if stream.len() < 2 {
        return Err(YabuError::Truncated);
    }
    let length = payload_length(stream[0], stream[1]);
    if stream.len() - 2 < length {
        return Err(YabuError::Truncated);
    }
    let mut payload: Vec<u8> = Vec::new();
    let mut i: usize = 0;
    while i < length
        invariant
            i <= length,
            length <= MAX_PAYLOAD,
            2 + length <= stream@.len(),
            payload@ == stream@.subrange(2, 2 + i as int),
        decreases length - i,
    {
        payload.push(stream[2 + i]);
        i += 1;
        assert(payload@ =~= stream@.subrange(2, 2 + i as int));
    }
    Ok(payload)
}

/// The two bytes in front of a payload count its length, low byte first, and
/// the payload follows them unchanged.
pub proof fn lemma_frame_layout(payload: Seq<u8>)
    requires
        payload.len() <= MAX_PAYLOAD,
    ensures
        spec_frame(payload) is Ok,
        spec_frame(payload)->Ok_0.len() == 2 + payload.len(),
        spec_frame(payload)->Ok_0[0] == payload.len() % 256,
        spec_frame(payload)->Ok_0[1] == payload.len() / 256,
        prefix_length(spec_frame(payload)->Ok_0[0], spec_frame(payload)->Ok_0[1]) == payload.len(),
        spec_frame(payload)->Ok_0.subrange(2, 2 + payload.len() as int) == payload,
{
    let bytes = spec_frame(payload)->Ok_0;
    assert(bytes.subrange(2, 2 + payload.len() as int) =~= payload);
}

/// A frame gives its payload back, whatever follows it on the stream.
pub proof fn lemma_frame_round_trip(payload: Seq<u8>, rest: Seq<u8>)
    requires
        payload.len() <= MAX_PAYLOAD,
    ensures
        spec_unframe(spec_frame(payload)->Ok_0 + rest) == Ok::<Seq<u8>, ErrorView>(payload),
        frame_size(spec_frame(payload)->Ok_0 + rest) == 2 + payload.len(),
{
    lemma_frame_layout(payload);
    let stream = spec_frame(payload)->Ok_0 + rest;
    assert(stream[0] == spec_frame(payload)->Ok_0[0]);
    assert(stream[1] == spec_frame(payload)->Ok_0[1]);
    assert(stream.subrange(2, 2 + payload.len() as int) =~= payload);
}

/// A stream that ends before a frame is complete is truncated, unless not
/// one byte of the frame arrived: that is a peer that closed.
pub proof fn lemma_cut_frame(payload: Seq<u8>, arrived: int)
    requires
        payload.len() <= MAX_PAYLOAD,
        0 <= arrived < 2 + payload.len(),
    ensures
        arrived == 0 ==> spec_unframe(spec_frame(payload)->Ok_0.subrange(0, arrived)) == Err::<
            Seq<u8>,
            ErrorView,
        >(ErrorView::ConnectionClosed),
        arrived > 0 ==> spec_unframe(spec_frame(payload)->Ok_0.subrange(0, arrived)) == Err::<
            Seq<u8>,
            ErrorView,
        >(ErrorView::Truncated),
{
    lemma_frame_layout(payload);
}

/// Frames keep their boundaries: behind the bytes that the first frame of a
/// stream takes, the next frame is read as if it stood alone.
pub proof fn lemma_frames_follow(first: Seq<u8>, second: Seq<u8>, rest: Seq<u8>)
    requires
        first.len() <= MAX_PAYLOAD,
        second.len() <= MAX_PAYLOAD,
    ensures
        ({
            let stream = spec_frame(first)->Ok_0 + spec_frame(second)->Ok_0 + rest;
            &&& spec_unframe(stream) == Ok::<Seq<u8>, ErrorView>(first)
            &&& spec_unframe(stream.subrange(frame_size(stream), stream.len() as int)) == Ok::<
                Seq<u8>,
                ErrorView,
            >(second)
        }),
{
    let one = spec_frame(first)->Ok_0;
    let two = spec_frame(second)->Ok_0;
    let stream = one + two + rest;
    lemma_frame_layout(first);
    lemma_frame_round_trip(first, two + rest);
    assert(stream =~= one + (two + rest));
    lemma_frame_round_trip(second, rest);
    assert(stream.subrange(frame_size(stream), stream.len() as int) =~= two + rest);
}

/// Reading a frame fails in two ways only: the peer closed the stream before
/// the frame, or the stream was cut inside it.
pub proof fn lemma_unframe_outcomes(stream: Seq<u8>)
    ensures
        match spec_unframe(stream) {
            Ok(payload) => payload.len() <= MAX_PAYLOAD && payload.len() + 2 <= stream.len(),
            Err(e) => e == ErrorView::ConnectionClosed || e == ErrorView::Truncated,
        },
        spec_unframe(stream) == Err::<Seq<u8>, ErrorView>(ErrorView::ConnectionClosed)
            <==> stream.len() == 0,
{
}

} // verus!
