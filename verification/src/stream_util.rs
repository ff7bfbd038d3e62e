//! Small machines for streams of chunks: collecting a stream, piping it to a sink,
//! and putting the SHA-1 of a stream at its end.
//!
//! As everywhere in this library the machines decide and their driver does the
//! outside work: it polls the stream or writes to the sink and reports what
//! happened.

use crate::b2_future::extend_with;
use crate::chunk::{chunk_as_slice, chunk_bytes, chunk_from_string};
use bytes::Bytes;
use sha1::Sha1;
use vstd::prelude::*;

verus! {

#[verifier::external_type_specification]
#[verifier::external_body]
pub struct ExSha1(sha1::Sha1);

/// How many characters the SHA-1 at the end of an upload takes.
pub const SHA1_HEX_LEN: usize = 40;

/// The bytes that a hasher has been given, in order.
pub uninterp spec fn sha1_input(hasher: Sha1) -> Seq<u8>;

/// The SHA-1 of some bytes as 40 hexadecimal digits in lower case.
pub uninterp spec fn spec_sha1_hex(bytes: Seq<u8>) -> Seq<char>;

/// `Sha1::new`: a hasher that has been given nothing.
pub assume_specification[ Sha1::new ]() -> (hasher: Sha1)
    ensures
        sha1_input(hasher) == Seq::<u8>::empty(),
;

/// `Sha1::update`: the hasher is given `data` after what it was given before.
pub assume_specification[ Sha1::update ](hasher: &mut Sha1, data: &[u8])
    ensures
        sha1_input(*final(hasher)) == sha1_input(*old(hasher)) + data@,
;

/// `Sha1::digest`, written out in hexadecimal digits: the SHA-1 of all that the
/// hasher has been given. The hasher is left as it is.
#[verifier::external_body]
fn hexdigest(hasher: &Sha1) -> (hex: String)
    ensures
        hex@ == spec_sha1_hex(sha1_input(*hasher)),
{
    hasher.digest().to_string()
}

/// The length of an upload that carries its SHA-1 at the end.
pub fn len_with_sha1(len: usize) -> (total: usize)
    requires
        len + SHA1_HEX_LEN <= usize::MAX,
    ensures
        total == len + SHA1_HEX_LEN,
{
    len + SHA1_HEX_LEN
}

/// The length of an upload that carries its SHA-1 at the end, or `None` where that
/// length is beyond `usize`.
pub fn checked_len_with_sha1(len: usize) -> (total: Option<usize>)
    ensures
        total == if len + SHA1_HEX_LEN <= usize::MAX {
            Some((len + SHA1_HEX_LEN) as usize)
        } else {
            None
        },
{
    if len <= usize::MAX - SHA1_HEX_LEN {
        Some(len_with_sha1(len))
    } else {
        None
    }
}

/// What a machine says when its stream is polled.
pub enum Next {
    /// Poll the stream that is wrapped and report what it gave.
    AskInner,
    /// The stream has ended.
    End,
}

/// Puts the SHA-1 of a stream at its end.
pub struct Sha1AtEnd {
    sha1: Sha1,
    done: bool,
}

/// A [`Sha1AtEnd`] as a mathematical value.
pub struct Hashing {
    /// The bytes that have passed.
    pub passed: Seq<u8>,
    /// The SHA-1 has been handed out.
    pub done: bool,
}

impl View for Sha1AtEnd {
    type V = Hashing;

    closed spec fn view(&self) -> Hashing {
        Hashing { passed: sha1_input(self.sha1), done: self.done }
    }
}

/// A stream that has let nothing pass yet.
pub fn sha1_at_end() -> (stream: Sha1AtEnd)
    ensures
        stream@ == (Hashing { passed: Seq::empty(), done: false }),
{
    Sha1AtEnd { sha1: Sha1::new(), done: false }
}

impl Sha1AtEnd {
    /// Says whether the stream that is wrapped is to be polled: it is, until the
    /// SHA-1 has been handed out.
    pub fn poll(&self) -> (next: Next)
        ensures
            next is End == self@.done,
    {
        if self.done {
            Next::End
        } else {
            Next::AskInner
        }
    }

    /// Takes a chunk that the stream gave. The chunk is to be passed on as it is.
    pub fn on_chunk(&mut self, bytes: &Bytes)
        ensures
            final(self)@ == (Hashing {
                passed: old(self)@.passed + chunk_bytes(*bytes),
                ..old(self)@
            }),
    {
        self.sha1.update(chunk_as_slice(bytes));
    }

    /// Takes the end of the stream and hands out the last chunk to pass on: the
    /// SHA-1 of all the bytes that have passed, in hexadecimal digits.
    pub fn on_end(&mut self) -> (last: Bytes)
        ensures
            final(self)@ == (Hashing { done: true, ..old(self)@ }),
            chunk_bytes(last) == vstd::utf8::encode_utf8(spec_sha1_hex(old(self)@.passed)),
    {
        self.done = true;
        chunk_from_string(hexdigest(&self.sha1))
    }
}

/// Collects a stream of chunks in one vector.
pub struct Collect {
    buf: Vec<u8>,
}

impl View for Collect {
    type V = Seq<u8>;

    closed spec fn view(&self) -> Seq<u8> {
        self.buf@
    }
}

/// A collector that holds nothing yet, with room for `size_hint` bytes.
pub fn collect_stream(size_hint: usize) -> (collect: Collect)
    ensures
        collect@ == Seq::<u8>::empty(),
{
    Collect { buf: Vec::with_capacity(size_hint) }
}

impl Collect {
    /// Takes a chunk that the stream gave.
    pub fn on_chunk(&mut self, chunk: &Bytes)
        ensures
            final(self)@ == old(self)@ + chunk_bytes(*chunk),
    {
        extend_with(&mut self.buf, chunk);
    }

    /// Takes the end of the stream and hands out all that was collected. The
    /// collector holds nothing afterwards.
    pub fn on_end(&mut self) -> (all: Vec<u8>)
        ensures
            all@ == old(self)@,
            final(self)@ == Seq::<u8>::empty(),
    {
        let mut buf: Vec<u8> = Vec::new();
        std::mem::swap(&mut self.buf, &mut buf);
        buf
    }
}

/// What is left of a chunk of which a sink took the first `written` bytes: the
/// rest, to be written next, or nothing if the sink took all.
pub fn after_write(chunk: Bytes, written: usize) -> (rest: Option<Bytes>)
    ensures
        match rest {
            Some(rest) => written < chunk_bytes(chunk).len() && chunk_bytes(rest) == chunk_bytes(
                chunk,
            ).skip(written as int),
            None => written >= chunk_bytes(chunk).len(),
        },
{
    let mut chunk = chunk;
    if written < chunk.len() {
        let _ = chunk.split_to(written);
        Some(chunk)
    } else {
        None
    }
}

} // verus!
