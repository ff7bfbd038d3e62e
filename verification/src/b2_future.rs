//! The life of one exchange with the service, from the request that is under way to
//! the body that has arrived.
//!
//! A [`B2Future`] decides; it owns neither the connection nor the body. Whoever drives
//! it calls [`B2Future::poll`] and does what the [`Reply`] says: a reply that asks for
//! the exchange or for the body is answered by polling that and reporting what it
//! gave with [`B2Future::on_exchange`] or [`B2Future::on_body`], which reply in turn;
//! any other reply ends the poll. The body of a finished exchange is handed out as
//! bytes, to be decoded by the caller.
//!
//! [`B2Stream`] does the same for a body that holds a list, and hands out the
//! elements one by one as they arrive.

use crate::chunk::{chunk_as_slice, chunk_bytes};
use crate::error::B2Error;
use bytes::Bytes;
use vstd::prelude::*;

pub mod b2_stream;

pub use self::b2_stream::B2Stream;

verus! {

/// The status of a response that went well.
pub const STATUS_OK: u16 = 200;

/// The most room that is made at once for the body of a response.
pub const MAX_BODY_RESERVE: usize = 0x1000000;

/// What polling the exchange gave.
pub enum ExchangeEvent {
    /// No answer yet.
    Pending,
    /// The head of the response: its status and the body length that it announces,
    /// zero where it announces none.
    Response { status: u16, content_length: usize },
    /// The connection failed.
    Failed(hyper::Error),
}

/// What polling the body gave.
pub enum BodyEvent {
    /// No bytes yet.
    Pending,
    Chunk(Bytes),
    /// The body has ended.
    End,
    /// The connection failed.
    Failed(hyper::Error),
}

/// What a [`B2Future`] says to its driver.
pub enum Reply {
    /// Poll the exchange and report with `on_exchange`.
    AskExchange,
    /// Poll the body and report with `on_body`.
    AskBody,
    /// Nothing more can be done now.
    Pending,
    /// The body of a response with status 200, whole.
    Complete(Vec<u8>),
    /// The body of a response with another status, whole: it holds the error that the
    /// service sends.
    ApiError { status: u16, body: Vec<u8> },
    /// The exchange failed.
    Failed(B2Error),
}

/// The states of a [`B2Future`].
pub enum FutureState {
    /// The request is under way.
    Connecting,
    /// The head of the response has arrived, and these bytes of its body.
    Collecting { status: u16, bytes: Seq<u8> },
    /// The request could not even be made.
    FailImmediately(B2Error),
    /// The outcome has been handed out.
    Done,
}

enum State {
    Connecting,
    Collecting(u16, Vec<u8>),
    FailImmediately(B2Error),
    Done,
}

/// Reads the whole body of a response.
pub struct B2Future {
    state: State,
}

impl View for B2Future {
    type V = FutureState;

    closed spec fn view(&self) -> FutureState {
        match self.state {
            State::Connecting => FutureState::Connecting,
            State::Collecting(status, bytes) => FutureState::Collecting { status, bytes: bytes@ },
            State::FailImmediately(err) => FutureState::FailImmediately(err),
            State::Done => FutureState::Done,
        }
    }
}

/// The smaller of two sizes.
pub fn min_size(a: usize, b: usize) -> (m: usize)
    ensures
        m == if a <= b {
            a
        } else {
            b
        },
{
    if a <= b {
        a
    } else {
        b
    }
}

/// Appends the bytes of a chunk.
pub fn extend_with(bytes: &mut Vec<u8>, chunk: &Bytes)
    ensures
        final(bytes)@ == old(bytes)@ + chunk_bytes(*chunk),
{
    let slice = chunk_as_slice(chunk);
    let mut k: usize = 0;
    while k < slice.len()
        invariant
            k <= slice.len(),
            slice@ == chunk_bytes(*chunk),
            bytes@ == old(bytes)@ + slice@.take(k as int),
        decreases slice.len() - k,
    {
        bytes.push(slice[k]);
        assert(slice@.take(k as int).push(slice@[k as int]) =~= slice@.take(k as int + 1));
        k += 1;
    }
    assert(slice@.take(k as int) =~= slice@);
}

/// The reply that ends an exchange whose body has arrived whole.
pub fn finished(status: u16, body: Vec<u8>) -> (reply: Reply)
    ensures
        reply == if status == STATUS_OK {
            Reply::Complete(body)
        } else {
            Reply::ApiError { status, body }
        },
{
    if status == STATUS_OK {
        Reply::Complete(body)
    } else {
        Reply::ApiError { status, body }
    }
}

impl B2Future {
    /// A future for a request that is under way.
    pub fn new() -> (fut: B2Future)
        ensures
            fut@ == FutureState::Connecting,
    {
        B2Future { state: State::Connecting }
    }

    /// A future that fails with `err` as soon as it is polled.
    pub fn err(err: B2Error) -> (fut: B2Future)
        ensures
            fut@ == FutureState::FailImmediately(err),
    {
        B2Future { state: State::FailImmediately(err) }
    }

    /// Whether the outcome has been handed out. Such a future must not be polled.
    pub fn is_terminated(&self) -> (done: bool)
        ensures
            done == (self@ is Done),
    {
        match self.state {
            State::Done => true,
            _ => false,
        }
    }

    /// Says what is to be done next. A future that was made with `err` hands its
    /// error out and is done.
    pub fn poll(&mut self) -> (reply: Reply)
        requires
            !(old(self)@ is Done),
        ensures
            match old(self)@ {
                FutureState::Connecting => reply is AskExchange && final(self)@ == old(self)@,
                FutureState::Collecting { .. } => reply is AskBody && final(self)@ == old(self)@,
                FutureState::FailImmediately(err) => reply == Reply::Failed(err) && final(self)@
                    is Done,
                FutureState::Done => false,
            },
    {
        let mut state = State::Done;
        std::mem::swap(&mut self.state, &mut state);
        match state {
            State::Connecting => {
                self.state = State::Connecting;
                Reply::AskExchange
            },
            State::Collecting(status, bytes) => {
                self.state = State::Collecting(status, bytes);
                Reply::AskBody
            },
            State::FailImmediately(err) => Reply::Failed(err),
            State::Done => Reply::Pending,
        }
    }

    /// Takes what polling the exchange gave. The head of a response makes room for
    /// the body; a failure ends the future.
    pub fn on_exchange(&mut self, event: ExchangeEvent) -> (reply: Reply)
        requires
            old(self)@ is Connecting,
        ensures
            match event {
                ExchangeEvent::Pending => reply is Pending && final(self)@ is Connecting,
                ExchangeEvent::Response { status, content_length } => {
                    &&& reply is AskBody
                    &&& final(self)@ == (FutureState::Collecting { status, bytes: Seq::empty() })
                },
                ExchangeEvent::Failed(err) => {
                    &&& reply == Reply::Failed(B2Error::HyperError(err))
                    &&& final(self)@ is Done
                },
            },
    {
        match event {
            ExchangeEvent::Pending => Reply::Pending,
            ExchangeEvent::Response { status, content_length } => {
                let size = min_size(content_length, MAX_BODY_RESERVE);
                self.state = State::Collecting(status, Vec::with_capacity(size));
                Reply::AskBody
            },
            ExchangeEvent::Failed(err) => {
                self.state = State::Done;
                Reply::Failed(B2Error::HyperError(err))
            },
        }
    }

    /// Takes what polling the body gave. A chunk is added to the bytes collected; the
    /// end of the body ends the future and hands the bytes out, as the value where
    /// the status is 200 and as the error of the service where it is not; a failure
    /// ends the future.
    pub fn on_body(&mut self, event: BodyEvent) -> (reply: Reply)
        requires
            old(self)@ is Collecting,
        ensures
            old(self)@ matches FutureState::Collecting { status, bytes } && match event {
                BodyEvent::Pending => reply is Pending && final(self)@ == old(self)@,
                BodyEvent::Chunk(chunk) => {
                    &&& reply is AskBody
                    &&& final(self)@ == (FutureState::Collecting {
                        status,
                        bytes: bytes + chunk_bytes(chunk),
                    })
                },
                BodyEvent::End => {
                    &&& final(self)@ is Done
                    &&& status == STATUS_OK ==> (reply matches Reply::Complete(body) && body@
                        == bytes)
                    &&& status != STATUS_OK ==> (reply matches Reply::ApiError { status: s, body }
                        && s == status && body@ == bytes)
                },
                BodyEvent::Failed(err) => {
                    &&& reply == Reply::Failed(B2Error::HyperError(err))
                    &&& final(self)@ is Done
                },
            },
    {
        let mut state = State::Done;
        std::mem::swap(&mut self.state, &mut state);
        match state {
            State::Collecting(status, mut bytes) => match event {
                BodyEvent::Pending => {
                    self.state = State::Collecting(status, bytes);
                    Reply::Pending
                },
                BodyEvent::Chunk(chunk) => {
                    extend_with(&mut bytes, &chunk);
                    self.state = State::Collecting(status, bytes);
                    Reply::AskBody
                },
                BodyEvent::End => finished(status, bytes),
                BodyEvent::Failed(err) => Reply::Failed(B2Error::HyperError(err)),
            },
            _ => Reply::Pending,
        }
    }
}

} // verus!
