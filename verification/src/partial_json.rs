//! Cuts a JSON list into its elements while the bytes are still arriving.
//!
//! A [`PartialJson`] is fed chunks of a body with [`PartialJson::push`] and asked for
//! the next element with [`PartialJson::next`]. It never looks at a byte twice and it
//! forgets every byte that lies outside the list it was asked to read, so the memory it
//! needs is bounded by the largest element.
//!
//! What the decoder does is stated over a small model: [`Scan`] is what the scanner
//! remembers between two bytes, [`Decoder`] adds the bytes it holds, and
//! [`spec_next`] says what one call of `next` does to a `Decoder`.

use crate::chunk::{chunk_as_slice, chunk_bytes};
use crate::error::B2Error;
use bytes::Bytes;
use std::collections::VecDeque;
use vstd::prelude::*;

verus! {

pub const OPEN_BRACKET: u8 = 0x5b;

pub const CLOSE_BRACKET: u8 = 0x5d;

pub const OPEN_BRACE: u8 = 0x7b;

pub const CLOSE_BRACE: u8 = 0x7d;

pub const COMMA: u8 = 0x2c;

pub const QUOTE: u8 = 0x22;

pub const BACKSLASH: u8 = 0x5c;

/// The deepest nesting the decoder follows.
pub const MAX_DEPTH: u32 = 0xffff_ffff;

/// What the scanner remembers between two bytes.
pub struct Scan {
    /// How many brackets and braces are open.
    pub depth: nat,
    /// The scanner is inside a quoted string.
    pub in_string: bool,
    /// Inside a string, the byte before was an unescaped backslash.
    pub escaped: bool,
    /// The list to read has been opened and nothing but white space followed.
    pub fresh: bool,
}

/// What a byte means to the scanner.
pub enum Step {
    /// The byte is taken and the scan goes on.
    Continue,
    /// The byte ends an element of the list.
    Emit,
    /// The byte closes something that was never opened, or opens more than
    /// [`MAX_DEPTH`] levels.
    Invalid,
}

/// What a call of [`PartialJson::next`] found.
pub enum Outcome {
    /// The bytes pushed so far end before the next element does.
    NeedMore,
    /// The bytes of the next element, without the byte that ended it.
    Element(Seq<u8>),
    /// The bytes are not a JSON list.
    Invalid,
}

/// The decoder as a mathematical value.
pub struct Decoder {
    /// The depth at which the elements of the list lie.
    pub level: nat,
    pub scan: Scan,
    /// The bytes of the element that is being read.
    pub held: Seq<u8>,
    /// The bytes pushed and not yet looked at.
    pub pending: Seq<u8>,
}

/// White space as `char::is_whitespace` sees a byte that is read as a `char`.
pub open spec fn is_space(b: u8) -> bool {
    (0x09 <= b && b <= 0x0d) || b == 0x20 || b == 0x85 || b == 0xa0
}

pub open spec fn is_open(b: u8) -> bool {
    b == OPEN_BRACKET || b == OPEN_BRACE
}

pub open spec fn is_close(b: u8) -> bool {
    b == CLOSE_BRACKET || b == CLOSE_BRACE
}

/// What the byte `b` means in the state `s`.
pub open spec fn scan_kind(level: nat, s: Scan, b: u8) -> Step {
    if s.in_string {
        Step::Continue
    } else if is_open(b) {
        if s.depth >= MAX_DEPTH {
            Step::Invalid
        } else {
            Step::Continue
        }
    } else if b == COMMA {
        if s.depth == level {
            Step::Emit
        } else {
            Step::Continue
        }
    } else if is_close(b) {
        if s.depth == 0 {
            Step::Invalid
        } else if s.depth == level && !s.fresh {
            Step::Emit
        } else {
            Step::Continue
        }
    } else {
        Step::Continue
    }
}

/// The state after the byte `b` was read in the state `s`.
pub open spec fn scan_next(level: nat, s: Scan, b: u8) -> Scan {
    if s.in_string {
        if s.escaped {
            Scan { escaped: false, ..s }
        } else if b == QUOTE {
            Scan { in_string: false, ..s }
        } else if b == BACKSLASH {
            Scan { escaped: true, ..s }
        } else {
            s
        }
    } else if is_open(b) {
        if s.depth >= MAX_DEPTH {
            s
        } else {
            Scan { depth: s.depth + 1, fresh: s.depth + 1 == level, ..s }
        }
    } else if b == COMMA {
        Scan { fresh: false, ..s }
    } else if b == QUOTE {
        Scan { fresh: false, in_string: true, ..s }
    } else if is_close(b) {
        if s.depth == 0 {
            s
        } else {
            Scan { depth: (s.depth - 1) as nat, fresh: false, ..s }
        }
    } else if is_space(b) {
        s
    } else {
        Scan { fresh: false, ..s }
    }
}

/// The bytes held after the byte `b` was read in the state `s`. A byte read outside
/// the list is dropped at once; so is all that was held when an element ends or when
/// the list closes without one.
pub open spec fn held_next(level: nat, s: Scan, held: Seq<u8>, b: u8) -> Seq<u8> {
    if s.depth < level || scan_kind(level, s, b) is Emit || scan_next(level, s, b).depth < level {
        Seq::empty()
    } else {
        held.push(b)
    }
}

impl Decoder {
    /// A decoder that has seen nothing yet.
    pub open spec fn start(level: nat) -> Decoder {
        Decoder {
            level,
            scan: Scan { depth: 0, in_string: false, escaped: false, fresh: false },
            held: Seq::empty(),
            pending: Seq::empty(),
        }
    }

    /// Nothing is held while the scanner is outside the list.
    pub open spec fn wf(self) -> bool {
        &&& self.scan.depth <= MAX_DEPTH
        &&& self.scan.depth < self.level ==> self.held.len() == 0
    }

    /// The decoder after `chunk` was pushed.
    pub open spec fn push(self, chunk: Seq<u8>) -> Decoder {
        Decoder { pending: self.pending + chunk, ..self }
    }

    /// The decoder after its first pending byte was read.
    pub open spec fn advance(self) -> Decoder
        recommends
            self.pending.len() > 0,
    {
        let b = self.pending[0];
        Decoder {
            level: self.level,
            scan: scan_next(self.level, self.scan, b),
            held: held_next(self.level, self.scan, self.held, b),
            pending: self.pending.skip(1),
        }
    }
}

/// One call of [`PartialJson::next`]: the pending bytes are read up to the first that
/// ends an element or is invalid, or to their end.
pub open spec fn spec_next(d: Decoder) -> (Decoder, Outcome)
    decreases d.pending.len(),
{
    if d.pending.len() == 0 {
        (d, Outcome::NeedMore)
    } else {
        match scan_kind(d.level, d.scan, d.pending[0]) {
            Step::Continue => spec_next(d.advance()),
            Step::Emit => (d.advance(), Outcome::Element(d.held)),
            Step::Invalid => (d.advance(), Outcome::Invalid),
        }
    }
}

/// What is left of a decoder, what came out of it, and whether it ended on an invalid
/// byte.
pub struct Drained {
    pub decoder: Decoder,
    pub elements: Seq<Seq<u8>>,
    pub failed: bool,
}

/// Everything that the pending bytes hold: the elements in the order in which they
/// end, up to the end of the bytes or to the first invalid byte.
pub open spec fn spec_drain(d: Decoder) -> Drained
    decreases d.pending.len(),
{
    if d.pending.len() == 0 {
        Drained { decoder: d, elements: Seq::empty(), failed: false }
    } else {
        match scan_kind(d.level, d.scan, d.pending[0]) {
            Step::Continue => spec_drain(d.advance()),
            Step::Emit => {
                let rest = spec_drain(d.advance());
                Drained { elements: seq![d.held] + rest.elements, ..rest }
            },
            Step::Invalid => Drained {
                decoder: d.advance(),
                elements: Seq::empty(),
                failed: true,
            },
        }
    }
}

/// The chunks pushed one after the other, each followed by calls of `next` until
/// nothing more comes out. An invalid byte ends it.
pub open spec fn spec_feed(d: Decoder, chunks: Seq<Seq<u8>>) -> Drained
    decreases chunks.len(),
{
    if chunks.len() == 0 {
        Drained { decoder: d, elements: Seq::empty(), failed: false }
    } else {
        let first = spec_drain(d.push(chunks.first()));
        if first.failed {
            first
        } else {
            let rest = spec_feed(first.decoder, chunks.drop_first());
            Drained { elements: first.elements + rest.elements, ..rest }
        }
    }
}

/// `spec_drain` is `next` called until it has no element to give.
pub proof fn lemma_drain_is_repeated_next(d: Decoder)
    ensures
        spec_drain(d) == match spec_next(d).1 {
            Outcome::NeedMore => Drained {
                decoder: spec_next(d).0,
                elements: Seq::empty(),
                failed: false,
            },
            Outcome::Invalid => Drained {
                decoder: spec_next(d).0,
                elements: Seq::empty(),
                failed: true,
            },
            Outcome::Element(e) => {
                let rest = spec_drain(spec_next(d).0);
                Drained { elements: seq![e] + rest.elements, ..rest }
            },
        },
        spec_next(d).1 is Element ==> spec_next(d).0.pending.len() < d.pending.len(),
    decreases d.pending.len(),
{
    if d.pending.len() > 0 {
        if scan_kind(d.level, d.scan, d.pending[0]) is Continue {
            lemma_drain_is_repeated_next(d.advance());
        }
    }
}

/// A decoder that was drained without failure has read every byte it was given.
pub proof fn lemma_drain_reads_all(d: Decoder)
    ensures
        !spec_drain(d).failed ==> spec_drain(d).decoder.pending.len() == 0,
        spec_drain(d).decoder.level == d.level,
    decreases d.pending.len(),
{
    if d.pending.len() > 0 {
        lemma_drain_reads_all(d.advance());
    }
}

/// Reading keeps the model well formed.
pub proof fn lemma_drain_wf(d: Decoder)
    requires
        d.wf(),
    ensures
        spec_drain(d).decoder.wf(),
        spec_next(d).0.wf(),
    decreases d.pending.len(),
{
    if d.pending.len() > 0 {
        lemma_drain_wf(d.advance());
    }
}

/// Bytes that arrive later change nothing of what the earlier bytes gave: draining
/// `tail` after the pending bytes is draining the pending bytes, then pushing `tail`
/// and draining again.
pub proof fn lemma_split_invariance(d: Decoder, tail: Seq<u8>)
    ensures
        spec_drain(d).failed ==> {
            &&& spec_drain(d.push(tail)).failed
            &&& spec_drain(d.push(tail)).elements == spec_drain(d).elements
        },
        !spec_drain(d).failed ==> {
            let rest = spec_drain(spec_drain(d).decoder.push(tail));
            spec_drain(d.push(tail)) == Drained {
                elements: spec_drain(d).elements + rest.elements,
                ..rest
            }
        },
    decreases d.pending.len(),
{
    let whole = d.push(tail);
    if d.pending.len() == 0 {
        assert(spec_drain(d).decoder == d);
        let rest = spec_drain(whole);
        assert(Seq::<Seq<u8>>::empty() + rest.elements =~= rest.elements);
    } else {
        assert(whole.pending[0] == d.pending[0]);
        assert(whole.pending.skip(1) =~= d.pending.skip(1) + tail);
        assert(whole.advance() == d.advance().push(tail));
        match scan_kind(d.level, d.scan, d.pending[0]) {
            Step::Continue => {
                lemma_split_invariance(d.advance(), tail);
            },
            Step::Emit => {
                lemma_split_invariance(d.advance(), tail);
                let inner = spec_drain(d.advance());
                if !inner.failed {
                    let rest = spec_drain(inner.decoder.push(tail));
                    assert(seq![d.held] + (inner.elements + rest.elements) =~= (seq![d.held]
                        + inner.elements) + rest.elements);
                }
            },
            Step::Invalid => {},
        }
    }
}

/// However a body is cut into chunks, the same elements come out in the same
/// order, and an invalid byte is found after the same elements: pushing the chunks
/// one by one and reading after each gives what pushing the whole body at once and
/// reading gives.
pub proof fn lemma_concatenation_invariance(d: Decoder, chunks: Seq<Seq<u8>>)
    requires
        d.pending.len() == 0,
    ensures
        spec_feed(d, chunks).elements == spec_drain(d.push(chunks.flatten())).elements,
        spec_feed(d, chunks).failed == spec_drain(d.push(chunks.flatten())).failed,
        !spec_feed(d, chunks).failed ==> spec_feed(d, chunks).decoder == spec_drain(
            d.push(chunks.flatten()),
        ).decoder,
    decreases chunks.len(),
{
    if chunks.len() == 0 {
        assert(chunks.flatten() =~= Seq::<u8>::empty());
        assert(d.push(chunks.flatten()).pending =~= d.pending);
        assert(d.push(chunks.flatten()) == d);
    } else {
        let head = chunks.first();
        let others = chunks.drop_first();
        assert(chunks.flatten() =~= head + others.flatten());
        let after_head = d.push(head);
        assert(after_head.push(others.flatten()).pending =~= d.push(
            chunks.flatten(),
        ).pending);
        assert(after_head.push(others.flatten()) == d.push(chunks.flatten()));
        lemma_split_invariance(after_head, others.flatten());
        let first = spec_drain(after_head);
        if !first.failed {
            lemma_drain_reads_all(after_head);
            lemma_concatenation_invariance(first.decoder, others);
        }
    }
}

/// The outcome that a result of [`PartialJson::next`] stands for.
pub open spec fn outcome_of(res: Result<Option<Vec<u8>>, B2Error>) -> Outcome {
    match res {
        Ok(None) => Outcome::NeedMore,
        Ok(Some(bytes)) => Outcome::Element(bytes@),
        Err(_) => Outcome::Invalid,
    }
}

/// Decodes the elements of a JSON list one at a time, as the bytes arrive.
pub struct PartialJson {
    buffer: VecDeque<u8>,
    parens: u32,
    level: u32,
    in_string: bool,
    last_was_escape: bool,
    last_was_start: bool,
    i: usize,
}

impl View for PartialJson {
    type V = Decoder;

    closed spec fn view(&self) -> Decoder {
        Decoder {
            level: self.level as nat,
            scan: Scan {
                depth: self.parens as nat,
                in_string: self.in_string,
                escaped: self.last_was_escape,
                fresh: self.last_was_start,
            },
            held: self.buffer@.take(self.i as int),
            pending: self.buffer@.skip(self.i as int),
        }
    }
}

/// `char::is_whitespace` for a byte read as a `char`.
pub fn is_whitespace_byte(b: u8) -> (r: bool)
    ensures
        r == is_space(b),
{
    (0x09 <= b && b <= 0x0d) || b == 0x20 || b == 0x85 || b == 0xa0
}

impl PartialJson {
    /// The cursor lies inside the buffer and the model is well formed.
    pub closed spec fn wf(&self) -> bool {
        &&& self.i <= self.buffer@.len()
        &&& self@.wf()
    }

    /// A well-formed decoder has a well-formed model.
    pub proof fn lemma_wf_view(&self)
        requires
            self.wf(),
        ensures
            self@.wf(),
    {
    }

    /// A decoder for the elements that lie `level` brackets deep: 1 for a list, 2 for a
    /// list inside an object. `size` is how many bytes to make room for.
    pub fn new(size: usize, level: u32) -> (json: PartialJson)
        ensures
            json.wf(),
            json@ == Decoder::start(level as nat),
    {
        let json = PartialJson {
            buffer: VecDeque::with_capacity(size),
            parens: 0,
            level,
            in_string: false,
            last_was_escape: false,
            last_was_start: false,
            i: 0,
        };
        assert(json@.held =~= Seq::empty());
        assert(json@.pending =~= Seq::empty());
        json
    }

    /// A decoder that has been given `bytes` and has read none of them.
    pub fn from_vec(bytes: Vec<u8>, level: u32) -> (json: PartialJson)
        ensures
            json.wf(),
            json@ == Decoder::start(level as nat).push(bytes@),
    {
        let mut json = PartialJson::new(bytes.len(), level);
        json.push_slice(bytes.as_slice());
        assert(Seq::<u8>::empty() + bytes@ =~= bytes@);
        json
    }

    /// Appends the bytes of a slice. Nothing is read yet.
    pub fn push_slice(&mut self, bytes: &[u8])
        requires
            old(self).wf(),
        ensures
            final(self).wf(),
            final(self)@ == old(self)@.push(bytes@),
    {
        let mut k: usize = 0;
        while k < bytes.len()
            invariant
                k <= bytes.len(),
                self.i == old(self).i,
                self.i <= old(self).buffer@.len(),
                self.parens == old(self).parens,
                self.level == old(self).level,
                self.in_string == old(self).in_string,
                self.last_was_escape == old(self).last_was_escape,
                self.last_was_start == old(self).last_was_start,
                self.buffer@ == old(self).buffer@ + bytes@.take(k as int),
            decreases bytes.len() - k,
        {
            self.buffer.push_back(bytes[k]);
            assert(bytes@.take(k as int).push(bytes@[k as int]) =~= bytes@.take(k as int + 1));
            k += 1;
        }
        assert(bytes@.take(k as int) =~= bytes@);
        assert(self@.held =~= old(self)@.held);
        assert(self@.pending =~= old(self)@.pending + bytes@);
    }

    /// Appends a chunk of the body. Nothing is read yet.
    pub fn push(&mut self, chunk: &Bytes)
        requires
            old(self).wf(),
        ensures
            final(self).wf(),
            final(self)@ == old(self)@.push(chunk_bytes(*chunk)),
    {
        let bytes = chunk_as_slice(chunk);
        self.push_slice(bytes);
    }

    /// Reads on to the end of the next element and hands its bytes out. `Ok(None)`
    /// says that the bytes pushed so far end before the element does: push more and
    /// call again. An error says that a bracket closes what was never opened, or that
    /// the nesting is deeper than [`MAX_DEPTH`]; the offending byte is consumed.
    pub fn next(&mut self) -> (res: Result<Option<Vec<u8>>, B2Error>)
        requires
            old(self).wf(),
        ensures
            final(self).wf(),
            final(self)@ == spec_next(old(self)@).0,
            outcome_of(res) == spec_next(old(self)@).1,
            res matches Err(e) ==> e matches B2Error::ApiInconsistency(text) && text@
                == "Invalid json"@,
    {
        loop
            invariant
                self.wf(),
                spec_next(self@) == spec_next(old(self)@),
            decreases self.buffer@.len() - self.i,
        {
            if self.i == self.buffer.len() {
                return Ok(None);
            }
            let b = self.buffer[self.i];
            let ghost before = self@;
            assert(before.pending[0] == b);
            let ghost kind = scan_kind(before.level, before.scan, b);
            if self.parens < self.level {
                let _ = self.buffer.pop_front();
            } else {
                self.i += 1;
            }
            // The buffer is now as if the byte had been taken and kept where it belongs.
            assert(self.buffer@.skip(self.i as int) =~= before.pending.skip(1));
            assert(before.scan.depth >= before.level ==> self.buffer@.take(self.i as int)
                =~= before.held.push(b));
            assert(before.scan.depth < before.level ==> self.buffer@.take(self.i as int)
                =~= Seq::<u8>::empty());
            if self.in_string {
                if self.last_was_escape {
                    self.last_was_escape = false;
                } else if b == QUOTE {
                    self.in_string = false;
                } else if b == BACKSLASH {
                    self.last_was_escape = true;
                }
                assert(self@ == before.advance());
            } else if b == OPEN_BRACKET || b == OPEN_BRACE {
                if self.parens == MAX_DEPTH {
                    assert(self@ == before.advance());
                    return Err(B2Error::api("Invalid json"));
                }
                self.parens += 1;
                self.last_was_start = self.parens == self.level;
                assert(self@ == before.advance());
            } else if b == COMMA {
                self.last_was_start = false;
                if self.parens == self.level {
                    let value = self.next_value();
                    assert(self.buffer@.take(0) =~= Seq::<u8>::empty());
                    assert(self.buffer@.skip(0) =~= self.buffer@);
                    assert(value@ =~= before.held);
                    assert(self@ == before.advance());
                    return Ok(Some(value));
                }
                assert(self@ == before.advance());
            } else if b == QUOTE {
                self.last_was_start = false;
                self.in_string = true;
                assert(self@ == before.advance());
            } else if b == CLOSE_BRACKET || b == CLOSE_BRACE {
                if self.parens == 0 {
                    assert(self@ == before.advance());
                    return Err(B2Error::api("Invalid json"));
                }
                let at_level = self.parens == self.level;
                self.parens -= 1;
                if at_level {
                    if !self.last_was_start {
                        let value = self.next_value();
                        assert(self.buffer@.take(0) =~= Seq::<u8>::empty());
                        assert(self.buffer@.skip(0) =~= self.buffer@);
                        assert(value@ =~= before.held);
                        assert(self@ == before.advance());
                        return Ok(Some(value));
                    }
                    self.drop_held();
                    assert(self.buffer@.take(0) =~= Seq::<u8>::empty());
                    assert(self.buffer@.skip(0) =~= self.buffer@);
                }
                self.last_was_start = false;
                assert(self@ == before.advance());
            } else {
                if !is_whitespace_byte(b) {
                    self.last_was_start = false;
                }
                assert(self@ == before.advance());
            }
            assert(kind is Continue);
        }
    }

    /// Takes the held bytes out: all but the last make the element, the last is the
    /// byte that ended it.
    fn next_value(&mut self) -> (value: Vec<u8>)
        requires
            old(self).i >= 1,
            old(self).i <= old(self).buffer@.len(),
        ensures
            value@ == old(self).buffer@.take(old(self).i as int - 1),
            final(self).buffer@ == old(self).buffer@.skip(old(self).i as int),
            final(self).i == 0,
            final(self).parens == old(self).parens,
            final(self).level == old(self).level,
            final(self).in_string == old(self).in_string,
            final(self).last_was_escape == old(self).last_was_escape,
            final(self).last_was_start == old(self).last_was_start,
    {
        let mut value: Vec<u8> = Vec::new();
        let n: usize = self.i;
        let mut k: usize = 0;
        while k < n
            invariant
                1 <= n == old(self).i <= old(self).buffer@.len(),
                k <= n,
                self.buffer@ == old(self).buffer@.skip(k as int),
                value@ == old(self).buffer@.take(if k < n { k as int } else { n as int - 1 }),
                self.i == old(self).i,
                self.parens == old(self).parens,
                self.level == old(self).level,
                self.in_string == old(self).in_string,
                self.last_was_escape == old(self).last_was_escape,
                self.last_was_start == old(self).last_was_start,
            decreases n - k,
        {
            let front = self.buffer.pop_front();
            assert(self.buffer@ =~= old(self).buffer@.skip(k as int + 1));
            if k + 1 < n {
                match front {
                    Some(b) => {
                        value.push(b);
                        assert(value@ =~= old(self).buffer@.take(k as int + 1));
                    },
                    None => {},
                }
            }
            k += 1;
        }
        self.i = 0;
        value
    }

    /// Drops the held bytes.
    fn drop_held(&mut self)
        requires
            old(self).i <= old(self).buffer@.len(),
        ensures
            final(self).buffer@ == old(self).buffer@.skip(old(self).i as int),
            final(self).i == 0,
            final(self).parens == old(self).parens,
            final(self).level == old(self).level,
            final(self).in_string == old(self).in_string,
            final(self).last_was_escape == old(self).last_was_escape,
            final(self).last_was_start == old(self).last_was_start,
    {
        let n: usize = self.i;
        let mut k: usize = 0;
        while k < n
            invariant
                n == old(self).i <= old(self).buffer@.len(),
                k <= n,
                self.buffer@ == old(self).buffer@.skip(k as int),
                self.i == old(self).i,
                self.parens == old(self).parens,
                self.level == old(self).level,
                self.in_string == old(self).in_string,
                self.last_was_escape == old(self).last_was_escape,
                self.last_was_start == old(self).last_was_start,
            decreases n - k,
        {
            let _ = self.buffer.pop_front();
            assert(self.buffer@ =~= old(self).buffer@.skip(k as int + 1));
            k += 1;
        }
        self.i = 0;
    }
}

} // verus!
