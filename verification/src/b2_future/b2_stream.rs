//! Reads a list from the body of a response, element by element.
//!
//! A [`B2Stream`] is driven like a [`B2Future`](super::B2Future). Each time it is
//! polled it first looks for an element among the bytes it holds, so that an element
//! is handed out as soon as its last byte has arrived; only when there is none does
//! it ask for more of the body. The body of a response whose status is not 200 is
//! collected whole, as it holds the error of the service and not a list.

use super::{
    extend_with, min_size, B2Future, BodyEvent, ExchangeEvent, FutureState, State, STATUS_OK,
};
use crate::chunk::chunk_bytes;
use crate::error::B2Error;
use crate::partial_json::{spec_next, Decoder, Outcome, PartialJson};
use vstd::prelude::*;

verus! {

/// The depth at which the elements lie in the answers of the service: in a list
/// inside an object.
pub const LIST_LEVEL: u32 = 2;

/// The most room that is made at once for the body of an error.
pub const MAX_ERROR_RESERVE: usize = 0x1000;

/// What a [`B2Stream`] says to its driver.
pub enum StreamReply {
    /// Poll the exchange and report with `on_exchange`.
    AskExchange,
    /// Poll the body and report with `on_body`.
    AskBody,
    /// Nothing more can be done now.
    Pending,
    /// The bytes of the next element of the list.
    Item(Vec<u8>),
    /// The stream has no more elements.
    End,
    /// The body of a response whose status is not 200, whole: it holds the error
    /// that the service sends.
    ApiError { status: u16, body: Vec<u8> },
    /// The exchange failed, or the body is not a list.
    Failed(B2Error),
}

/// The states of a [`B2Stream`].
pub enum StreamState {
    /// The request is under way.
    Connecting,
    /// The response has status 200 and its body is being decoded.
    Collecting(Decoder),
    /// The response has another status, and these bytes of its body have arrived.
    CollectingError { status: u16, bytes: Seq<u8> },
    /// The request could not even be made.
    FailImmediately(B2Error),
    /// The stream has failed or was made from a future that was done.
    Done,
}

enum Inner {
    Connecting,
    Collecting(PartialJson),
    CollectingError(u16, Vec<u8>),
    FailImmediately(B2Error),
    Done,
}

/// Reads the elements of a list from the body of a response.
pub struct B2Stream {
    state: Inner,
    capacity: usize,
    level: u32,
}

impl View for B2Stream {
    type V = StreamState;

    closed spec fn view(&self) -> StreamState {
        match self.state {
            Inner::Connecting => StreamState::Connecting,
            Inner::Collecting(json) => StreamState::Collecting(json@),
            Inner::CollectingError(status, bytes) => StreamState::CollectingError {
                status,
                bytes: bytes@,
            },
            Inner::FailImmediately(err) => StreamState::FailImmediately(err),
            Inner::Done => StreamState::Done,
        }
    }
}

/// The state after a poll: a decoder has read on to the end of the next element,
/// and a stream that had something to say is done.
pub open spec fn polled(state: StreamState) -> StreamState {
    match state {
        StreamState::Collecting(decoder) => match spec_next(decoder).1 {
            Outcome::Invalid => StreamState::Done,
            _ => StreamState::Collecting(spec_next(decoder).0),
        },
        StreamState::FailImmediately(_) => StreamState::Done,
        other => other,
    }
}

/// Whether `reply` is what a stream in the state `state` says when it is polled: it
/// asks for what it waits for, hands out the next element if the bytes at hand hold
/// one, reports a body that is no list, hands out the error that it was made with,
/// and has nothing more when it is done.
pub open spec fn answers(state: StreamState, reply: StreamReply) -> bool {
    match state {
        StreamState::Connecting => reply is AskExchange,
        StreamState::Collecting(decoder) => match spec_next(decoder).1 {
            Outcome::Element(bytes) => reply matches StreamReply::Item(item) && item@ == bytes,
            Outcome::NeedMore => reply is AskBody,
            Outcome::Invalid => reply matches StreamReply::Failed(B2Error::ApiInconsistency(text))
                && text@ == "Invalid json"@,
        },
        StreamState::CollectingError { .. } => reply is AskBody,
        StreamState::FailImmediately(err) => reply == StreamReply::Failed(err),
        StreamState::Done => reply is End,
    }
}

impl B2Stream {
    /// The decoder, if there is one, is well formed.
    pub closed spec fn wf(&self) -> bool {
        self.state matches Inner::Collecting(json) ==> json.wf()
    }

    /// The depth at which this stream looks for elements.
    pub closed spec fn level(&self) -> u32 {
        self.level
    }

    /// A stream for a request that is under way. `capacity` is the room to make for
    /// the body at first.
    pub fn new(capacity: usize) -> (stream: B2Stream)
        ensures
            stream.wf(),
            stream@ is Connecting,
            stream.level() == LIST_LEVEL,
    {
        B2Stream { state: Inner::Connecting, capacity, level: LIST_LEVEL }
    }

    /// A stream for a request that is under way, whose elements lie `level` brackets
    /// deep: 1 where the body is the list itself.
    pub fn with_level(capacity: usize, level: u32) -> (stream: B2Stream)
        ensures
            stream.wf(),
            stream@ is Connecting,
            stream.level() == level,
    {
        B2Stream { state: Inner::Connecting, capacity, level }
    }

    /// A stream that fails with `err` as soon as it is polled.
    pub fn err(err: B2Error) -> (stream: B2Stream)
        ensures
            stream.wf(),
            stream@ == StreamState::FailImmediately(err),
            stream.level() == LIST_LEVEL,
    {
        B2Stream { state: Inner::FailImmediately(err), capacity: 0, level: LIST_LEVEL }
    }

    /// Goes on where a future stands: the bytes that it has collected are decoded as
    /// the beginning of a list.
    pub fn from_b2_future(fut: B2Future, cap: usize) -> (stream: B2Stream)
        ensures
            stream.wf(),
            stream.level() == LIST_LEVEL,
            stream@ == match fut@ {
                FutureState::Connecting => StreamState::Connecting,
                FutureState::Collecting { status, bytes } => if status == STATUS_OK {
                    StreamState::Collecting(Decoder::start(LIST_LEVEL as nat).push(bytes))
                } else {
                    StreamState::CollectingError { status, bytes }
                },
                FutureState::FailImmediately(err) => StreamState::FailImmediately(err),
                FutureState::Done => StreamState::Done,
            },
    {
        let state = match fut.state {
            State::Connecting => Inner::Connecting,
            State::Collecting(status, vec) => if status == STATUS_OK {
                Inner::Collecting(PartialJson::from_vec(vec, LIST_LEVEL))
            } else {
                Inner::CollectingError(status, vec)
            },
            State::FailImmediately(err) => Inner::FailImmediately(err),
            State::Done => Inner::Done,
        };
        B2Stream { state, capacity: cap, level: LIST_LEVEL }
    }

    /// Whether the stream is done: it has failed, or the future that it was made from
    /// was done.
    pub fn is_terminated(&self) -> (done: bool)
        ensures
            done == (self@ is Done),
    {
        match self.state {
            Inner::Done => true,
            _ => false,
        }
    }

    /// Hands out the next element if the bytes at hand hold one, and says what is
    /// to be done next if they do not. A stream that is done has no more elements.
    pub fn poll(&mut self) -> (reply: StreamReply)
        requires
            old(self).wf(),
        ensures
            final(self).wf(),
            final(self).level() == old(self).level(),
            final(self)@ == polled(old(self)@),
            answers(old(self)@, reply),
    {
        let mut state = Inner::Done;
        std::mem::swap(&mut self.state, &mut state);
        match state {
            Inner::Connecting => {
                self.state = Inner::Connecting;
                StreamReply::AskExchange
            },
            Inner::Collecting(mut json) => match json.next() {
                Ok(Some(value)) => {
                    self.state = Inner::Collecting(json);
                    StreamReply::Item(value)
                },
                Ok(None) => {
                    self.state = Inner::Collecting(json);
                    StreamReply::AskBody
                },
                Err(err) => StreamReply::Failed(err),
            },
            Inner::CollectingError(status, bytes) => {
                self.state = Inner::CollectingError(status, bytes);
                StreamReply::AskBody
            },
            Inner::FailImmediately(err) => StreamReply::Failed(err),
            Inner::Done => StreamReply::End,
        }
    }

    /// Takes what polling the exchange gave. A response with status 200 starts the
    /// decoder; one with another status starts collecting the error; a failure ends
    /// the stream.
    pub fn on_exchange(&mut self, event: ExchangeEvent) -> (reply: StreamReply)
        requires
            old(self).wf(),
            old(self)@ is Connecting,
        ensures
            final(self).wf(),
            final(self).level() == old(self).level(),
            match event {
                ExchangeEvent::Pending => reply is Pending && final(self)@ is Connecting,
                ExchangeEvent::Response { status, content_length } => {
                    &&& reply is AskBody
                    &&& final(self)@ == if status == STATUS_OK {
                        StreamState::Collecting(Decoder::start(old(self).level() as nat))
                    } else {
                        StreamState::CollectingError { status, bytes: Seq::empty() }
                    }
                },
                ExchangeEvent::Failed(err) => {
                    &&& reply == StreamReply::Failed(B2Error::HyperError(err))
                    &&& final(self)@ is Done
                },
            },
    {
        match event {
            ExchangeEvent::Pending => StreamReply::Pending,
            ExchangeEvent::Response { status, content_length } => {
                if status == STATUS_OK {
                    let json = PartialJson::new(self.capacity, self.level);
                    self.state = Inner::Collecting(json);
                } else {
                    let size = min_size(content_length, MAX_ERROR_RESERVE);
                    self.state = Inner::CollectingError(status, Vec::with_capacity(size));
                }
                StreamReply::AskBody
            },
            ExchangeEvent::Failed(err) => {
                self.state = Inner::Done;
                StreamReply::Failed(B2Error::HyperError(err))
            },
        }
    }

    /// Takes what polling the body gave. While a list is decoded, a chunk goes to
    /// the decoder, which is then asked for the next element as by `poll`, and the
    /// end of the body ends the list. While an error is
    /// collected, a chunk is added to its bytes and the end of the body hands them
    /// out and ends the stream. A failure ends the stream.
    pub fn on_body(&mut self, event: BodyEvent) -> (reply: StreamReply)
        requires
            old(self).wf(),
            old(self)@ is Collecting || old(self)@ is CollectingError,
        ensures
            final(self).wf(),
            final(self).level() == old(self).level(),
            event is Pending ==> reply is Pending && final(self)@ == old(self)@,
            event matches BodyEvent::Failed(err) ==> reply == StreamReply::Failed(
                B2Error::HyperError(err),
            ) && final(self)@ is Done,
            old(self)@ matches StreamState::Collecting(decoder) ==> match event {
                BodyEvent::Chunk(chunk) => {
                    let fed = StreamState::Collecting(decoder.push(chunk_bytes(chunk)));
                    &&& final(self)@ == polled(fed)
                    &&& answers(fed, reply)
                },
                BodyEvent::End => reply is End && final(self)@ == old(self)@,
                _ => true,
            },
            old(self)@ matches StreamState::CollectingError { status, bytes } ==> match event {
                BodyEvent::Chunk(chunk) => {
                    &&& reply is AskBody
                    &&& final(self)@ == (StreamState::CollectingError {
                        status,
                        bytes: bytes + chunk_bytes(chunk),
                    })
                },
                BodyEvent::End => {
                    &&& reply matches StreamReply::ApiError { status: s, body }
                    &&& s == status
                    &&& body@ == bytes
                    &&& final(self)@ is Done
                },
                _ => true,
            },
    {
        let mut state = Inner::Done;
        std::mem::swap(&mut self.state, &mut state);
        match state {
            Inner::Collecting(mut json) => match event {
                BodyEvent::Pending => {
                    self.state = Inner::Collecting(json);
                    StreamReply::Pending
                },
                BodyEvent::Chunk(chunk) => {
                    json.push(&chunk);
                    self.state = Inner::Collecting(json);
                    self.poll()
                },
                BodyEvent::End => {
                    self.state = Inner::Collecting(json);
                    StreamReply::End
                },
                BodyEvent::Failed(err) => StreamReply::Failed(B2Error::HyperError(err)),
            },
            Inner::CollectingError(status, mut bytes) => match event {
                BodyEvent::Pending => {
                    self.state = Inner::CollectingError(status, bytes);
                    StreamReply::Pending
                },
                BodyEvent::Chunk(chunk) => {
                    extend_with(&mut bytes, &chunk);
                    self.state = Inner::CollectingError(status, bytes);
                    StreamReply::AskBody
                },
                BodyEvent::End => StreamReply::ApiError { status, body: bytes },
                BodyEvent::Failed(err) => StreamReply::Failed(B2Error::HyperError(err)),
            },
            _ => StreamReply::Pending,
        }
    }
}

} // verus!
