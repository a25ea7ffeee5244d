//! Messages and responses as bytes on a stream: the JSON text of their tree,
//! framed.
//!
//! A text is read back before it is framed. What leaves is therefore always
//! read by the other side as what was meant.

use crate::error::{ErrorView, YabuError};
use crate::frame::{
    frame, frame_size, lemma_frame_round_trip, spec_frame, spec_unframe, unframe, MAX_PAYLOAD,
};
use crate::json::{json_from_bytes, json_parse, json_text, json_to_bytes, JsonView};
use crate::message::{Message, MessageView, Response, ResponseView};
use crate::same::{same_message, same_response};
use crate::wire::{
    json_message, json_response, lemma_message_round_trip, lemma_response_round_trip,
    message_json, response_json,
};
use vstd::prelude::*;

verus! {

/// The bytes that carry a text: the text behind its length. A text that is
/// too long has none, and neither has a text that does not read back as what
/// it was written for.
pub open spec fn spec_write(text: Seq<u8>, reads_back: bool) -> Result<Seq<u8>, ErrorView> {
    match spec_frame(text) {
        Ok(bytes) => if reads_back {
            Ok(bytes)
        } else {
            Err(ErrorView::SerializationError)
        },
        Err(e) => Err(e),
    }
}

/// The request that a payload spells.
pub open spec fn spec_message_from_payload(payload: Seq<u8>) -> Result<MessageView, ErrorView> {
    match json_parse(payload) {
        Some(tree) => match json_message(tree) {
            Some(message) => Ok(message),
            None => Err(ErrorView::MalformedMessage),
        },
        None => Err(ErrorView::MalformedMessage),
    }
}

/// The answer that a payload spells.
pub open spec fn spec_response_from_payload(payload: Seq<u8>) -> Result<ResponseView, ErrorView> {
    match json_parse(payload) {
        Some(tree) => match json_response(tree) {
            Some(response) => Ok(response),
            None => Err(ErrorView::MalformedMessage),
        },
        None => Err(ErrorView::MalformedMessage),
    }
}

/// The request at the head of `stream`, where `stream` is all that arrives
/// before the stream ends.
pub open spec fn spec_decode_message(stream: Seq<u8>) -> Result<MessageView, ErrorView> {
    match spec_unframe(stream) {
        Ok(payload) => spec_message_from_payload(payload),
        Err(e) => Err(e),
    }
}

/// The answer at the head of `stream`, where `stream` is all that arrives
/// before the stream ends.
pub open spec fn spec_decode_response(stream: Seq<u8>) -> Result<ResponseView, ErrorView> {
    match spec_unframe(stream) {
        Ok(payload) => spec_response_from_payload(payload),
        Err(e) => Err(e),
    }
}

/// The bytes that carry a request: the JSON text of its tree behind the
/// text's length.
pub open spec fn spec_write_message(message: MessageView) -> Result<Seq<u8>, ErrorView> {
    spec_write(
        json_text(message_json(message)),
        spec_message_from_payload(json_text(message_json(message))) == Ok::<
            MessageView,
            ErrorView,
        >(message),
    )
}

/// The bytes that carry an answer: the JSON text of its tree behind the
/// text's length.
pub open spec fn spec_write_response(response: ResponseView) -> Result<Seq<u8>, ErrorView> {
    spec_write(
        json_text(response_json(response)),
        spec_response_from_payload(json_text(response_json(response))) == Ok::<
            ResponseView,
            ErrorView,
        >(response),
    )
}

/// Frames a text that was found to read back, or not.
fn write(text: Vec<u8>, reads_back: bool) -> (r: Result<Vec<u8>, YabuError>)
    ensures
        match r {
            Ok(bytes) => spec_write(text@, reads_back) == Ok::<Seq<u8>, ErrorView>(bytes@),
            Err(e) => spec_write(text@, reads_back) == Err::<Seq<u8>, ErrorView>(e@),
        },
{
    match frame(text.as_slice()) {
        Ok(bytes) => if reads_back {
            Ok(bytes)
        } else {
            Err(YabuError::SerializationError)
        },
        Err(e) => Err(e),
    }
}

impl Message {
    /// The request that a payload spells. A payload that is no JSON, or JSON
    /// of another shape, is malformed.
    pub fn from_payload(payload: &[u8]) -> (r: Result<Message, YabuError>)
        ensures
            match r {
                Ok(message) => spec_message_from_payload(payload@) == Ok::<
                    MessageView,
                    ErrorView,
                >(message@),
                Err(e) => spec_message_from_payload(payload@) == Err::<MessageView, ErrorView>(e@),
            },
    {
        match json_from_bytes(payload) {
            Some(tree) => match Message::from_json(&tree) {
                Some(message) => Ok(message),
                None => Err(YabuError::MalformedMessage),
            },
            None => Err(YabuError::MalformedMessage),
        }
    }

    /// Reads the request at the head of what came from the socket before the
    /// stream ended: two bytes of length, that many bytes of payload, and the
    /// request that the payload spells.
    pub fn read_from_socket(received: &[u8]) -> (r: Result<Message, YabuError>)
        ensures
            match r {
                Ok(message) => spec_decode_message(received@) == Ok::<MessageView, ErrorView>(
                    message@,
                ),
                Err(e) => spec_decode_message(received@) == Err::<MessageView, ErrorView>(e@),
            },
    {
        match unframe(received) {
            Ok(payload) => Message::from_payload(payload.as_slice()),
            Err(e) => Err(e),
        }
    }

    /// The bytes that go to the socket for this request: the length of its
    /// JSON text in two bytes, then the text. They are read from the socket
    /// as this request.
    pub fn write_to_socket(&self) -> (r: Result<Vec<u8>, YabuError>)
        ensures
            match r {
                Ok(bytes) => spec_write_message(self@) == Ok::<Seq<u8>, ErrorView>(bytes@)
                    && spec_decode_message(bytes@) == Ok::<MessageView, ErrorView>(self@),
                Err(e) => spec_write_message(self@) == Err::<Seq<u8>, ErrorView>(e@),
            },
    {
        let text = match json_to_bytes(&self.to_json()) {
            Some(text) => text,
            None => {
                return Err(YabuError::SerializationError);
            },
        };
        let reads_back = text.len() <= MAX_PAYLOAD && match Message::from_payload(
            text.as_slice(),
        ) {
            Ok(back) => same_message(&back, self),
            Err(_) => false,
        };
        proof {
            if text@.len() <= MAX_PAYLOAD {
                lemma_frame_round_trip(text@, Seq::<u8>::empty());
                assert(spec_frame(text@)->Ok_0 + Seq::<u8>::empty() =~= spec_frame(text@)->Ok_0);
            }
        }
        write(text, reads_back)
    }
}

impl Response {
    /// The answer that a payload spells. A payload that is no JSON, or JSON
    /// of another shape, is malformed.
    pub fn from_payload(payload: &[u8]) -> (r: Result<Response, YabuError>)
        ensures
            match r {
                Ok(response) => spec_response_from_payload(payload@) == Ok::<
                    ResponseView,
                    ErrorView,
                >(response@),
                Err(e) => spec_response_from_payload(payload@) == Err::<ResponseView, ErrorView>(
                    e@,
                ),
            },
    {
        match json_from_bytes(payload) {
            Some(tree) => match Response::from_json(&tree) {
                Some(response) => Ok(response),
                None => Err(YabuError::MalformedMessage),
            },
            None => Err(YabuError::MalformedMessage),
        }
    }

    /// Reads the answer at the head of what came from the socket before the
    /// stream ended: two bytes of length, that many bytes of payload, and the
    /// answer that the payload spells.
    pub fn read_from_socket(received: &[u8]) -> (r: Result<Response, YabuError>)
        ensures
            match r {
                Ok(response) => spec_decode_response(received@) == Ok::<ResponseView, ErrorView>(
                    response@,
                ),
                Err(e) => spec_decode_response(received@) == Err::<ResponseView, ErrorView>(e@),
            },
    {
        match unframe(received) {
            Ok(payload) => Response::from_payload(payload.as_slice()),
            Err(e) => Err(e),
        }
    }

    /// The bytes that go to the socket for this answer: the length of its
    /// JSON text in two bytes, then the text. They are read from the socket
    /// as this answer.
    pub fn write_to_socket(&self) -> (r: Result<Vec<u8>, YabuError>)
        ensures
            match r {
                Ok(bytes) => spec_write_response(self@) == Ok::<Seq<u8>, ErrorView>(bytes@)
                    && spec_decode_response(bytes@) == Ok::<ResponseView, ErrorView>(self@),
                Err(e) => spec_write_response(self@) == Err::<Seq<u8>, ErrorView>(e@),
            },
    {
        let text = match json_to_bytes(&self.to_json()) {
            Some(text) => text,
            None => {
                return Err(YabuError::SerializationError);
            },
        };
        let reads_back = text.len() <= MAX_PAYLOAD && match Response::from_payload(
            text.as_slice(),
        ) {
            Ok(back) => same_response(&back, self),
            Err(_) => false,
        };
        proof {
            if text@.len() <= MAX_PAYLOAD {
                lemma_frame_round_trip(text@, Seq::<u8>::empty());
                assert(spec_frame(text@)->Ok_0 + Seq::<u8>::empty() =~= spec_frame(text@)->Ok_0);
            }
        }
        write(text, reads_back)
    }
}

/// Whether the JSON serializer and parser agree on a tree: the serializer
/// writes a text for it that fits a frame, and the parser reads that text
/// back as the same tree.
pub open spec fn text_round_trips(tree: JsonView) -> bool {
    &&& json_text(tree).len() <= MAX_PAYLOAD
    &&& json_parse(json_text(tree)) == Some(tree)
}

/// A request that was written to a stream is read back as it was, whatever
/// follows it, and reading it takes the bytes that were written and no
/// more.
pub proof fn lemma_message_survives_the_wire(message: MessageView, rest: Seq<u8>)
    requires
        spec_write_message(message) is Ok,
    ensures
        spec_decode_message(spec_write_message(message)->Ok_0 + rest) == Ok::<
            MessageView,
            ErrorView,
        >(message),
        frame_size(spec_write_message(message)->Ok_0 + rest) == spec_write_message(
            message,
        )->Ok_0.len(),
{
    lemma_frame_round_trip(json_text(message_json(message)), rest);
}

/// An answer that was written to a stream is read back as it was, whatever
/// follows it, and reading it takes the bytes that were written and no
/// more.
pub proof fn lemma_response_survives_the_wire(response: ResponseView, rest: Seq<u8>)
    requires
        spec_write_response(response) is Ok,
    ensures
        spec_decode_response(spec_write_response(response)->Ok_0 + rest) == Ok::<
            ResponseView,
            ErrorView,
        >(response),
        frame_size(spec_write_response(response)->Ok_0 + rest) == spec_write_response(
            response,
        )->Ok_0.len(),
{
    lemma_frame_round_trip(json_text(response_json(response)), rest);
}

/// A request is written wherever the JSON serializer and parser agree on
/// its tree.
pub proof fn lemma_message_is_written(message: MessageView)
    requires
        message.valid(),
        text_round_trips(message_json(message)),
    ensures
        spec_write_message(message) is Ok,
{
    lemma_message_round_trip(message);
}

/// An answer is written wherever the JSON serializer and parser agree on its
/// tree.
pub proof fn lemma_response_is_written(response: ResponseView)
    requires
        response.valid(),
        text_round_trips(response_json(response)),
    ensures
        spec_write_response(response) is Ok,
{
    lemma_response_round_trip(response);
}

/// Reading a request or an answer fails in three ways only: the peer closed
/// the stream, the stream was cut inside a frame, or the payload is
/// malformed. Writing one fails in two: the text is too long for a frame, or
/// it does not read back.
pub proof fn lemma_codec_outcomes(stream: Seq<u8>, text: Seq<u8>, reads_back: bool)
    ensures
        spec_decode_message(stream) matches Err(e) ==> e == ErrorView::ConnectionClosed || e
            == ErrorView::Truncated || e == ErrorView::MalformedMessage,
        spec_decode_response(stream) matches Err(e) ==> e == ErrorView::ConnectionClosed || e
            == ErrorView::Truncated || e == ErrorView::MalformedMessage,
        spec_write(text, reads_back) matches Err(e) ==> e == ErrorView::SerializationError || e
            is PayloadTooLarge,
        spec_write(text, reads_back) is Ok <==> text.len() <= MAX_PAYLOAD && reads_back,
{
}

} // verus!
