//! A token bucket that caps the rate of a stream of chunks.
//!
//! Every byte that is let through costs one token; tokens come back at `rate` per
//! second and never exceed the size of the bucket. A rate of zero switches the
//! throttle off.
//!
//! A [`ThrottledStream`] holds the bucket and decides; it owns neither the stream nor
//! a timer. Whoever drives it takes the held-back rest with
//! [`ThrottledStream::take_next`] or, when there is none, a chunk from the stream, and
//! hands it to [`ThrottledStream::offer`] with the time. The answer is the chunk to
//! pass on, or how long to sleep before the chunk, now held back, is offered again.
//! Time is a count of nanoseconds on a clock that only moves forward.
//!
//! The module [`shared`] divides one rate among the streams that are in use.

use crate::chunk::chunk_bytes;
use bytes::Bytes;
use vstd::prelude::*;

pub mod shared;

verus! {

/// The smallest bucket that a throttle accepts.
pub const MIN_BUCKET_SIZE: usize = 1024;

pub const NANOS_PER_SEC: u64 = 1_000_000_000;

pub const MILLIS_PER_SEC: u64 = 1000;

pub open spec fn min_nat(a: nat, b: nat) -> nat {
    if a <= b {
        a
    } else {
        b
    }
}

/// A span of `secs` seconds and `subsec_nanos` nanoseconds in nanoseconds, at most
/// `u64::MAX`.
pub open spec fn spec_nanos(secs: nat, subsec_nanos: nat) -> nat {
    min_nat(secs * NANOS_PER_SEC as nat + subsec_nanos, u64::MAX as nat)
}

/// The tokens that `nanos` nanoseconds bring at `rate` tokens per second, shared
/// evenly by `sharers` streams. The product is cut off at `u64::MAX`, the quotient at
/// `usize::MAX`.
pub open spec fn spec_gained(nanos: nat, rate: nat, sharers: nat) -> nat
    recommends
        sharers > 0,
{
    min_nat(min_nat(nanos * rate, u64::MAX as nat) / NANOS_PER_SEC as nat, usize::MAX as nat)
        / sharers
}

/// The tokens in a bucket of `bucket_size` that held `tokens`, after `nanos`
/// nanoseconds.
pub open spec fn spec_refill(
    tokens: nat,
    bucket_size: nat,
    nanos: nat,
    rate: nat,
    sharers: nat,
) -> nat
    recommends
        sharers > 0,
{
    min_nat(bucket_size, tokens + spec_gained(nanos, rate, sharers))
}

/// How many milliseconds to sleep for `needed` tokens at `rate` tokens per second:
/// the quotient rounded up, and one more where it is whole, so that the sleep is
/// never zero.
pub open spec fn spec_wait_millis(needed: nat, rate: nat) -> int
    recommends
        needed > 0,
        rate > 0,
{
    1 + (min_nat(needed * MILLIS_PER_SEC as nat, u64::MAX as nat) - 1) / (rate as int)
}

/// Whether a chunk of `len` bytes has to wait in a bucket that holds `tokens`: it
/// does when the tokens neither cover it nor reach [`MIN_BUCKET_SIZE`].
pub open spec fn spec_must_wait(tokens: nat, len: nat) -> bool {
    tokens < len && tokens < MIN_BUCKET_SIZE
}

/// `i` as a `usize`, or `usize::MAX` where it does not fit.
pub fn saturating_u64_to_usize(i: u64) -> (r: usize)
    ensures
        r == min_nat(i as nat, usize::MAX as nat),
{
    if i <= usize::MAX as u64 {
        i as usize
    } else {
        usize::MAX
    }
}

/// The product, or `u64::MAX` where it does not fit.
fn saturating_mul(a: u64, b: u64) -> (r: u64)
    ensures
        r == min_nat(a as nat * b as nat, u64::MAX as nat),
{
    assert(a as nat * b as nat == a * b);
    match a.checked_mul(b) {
        Some(product) => product,
        None => u64::MAX,
    }
}

/// A span of time in nanoseconds, saturating at `u64::MAX`.
pub fn nanos_of(secs: u64, subsec_nanos: u32) -> (nanos: u64)
    ensures
        nanos == spec_nanos(secs as nat, subsec_nanos as nat),
{
    let whole = saturating_mul(secs, NANOS_PER_SEC);
    whole.saturating_add(subsec_nanos as u64)
}

/// The tokens gained in `nanos` nanoseconds.
pub fn gained_tokens(nanos: u64, rate: u64, sharers: usize) -> (gained: usize)
    requires
        sharers > 0,
    ensures
        gained == spec_gained(nanos as nat, rate as nat, sharers as nat),
{
    let tokens_x_1000000000 = saturating_mul(nanos, rate);
    let tokens_all = tokens_x_1000000000 / NANOS_PER_SEC;
    saturating_u64_to_usize(tokens_all) / sharers
}

/// The tokens after a refill.
pub fn refill(tokens: usize, bucket_size: usize, nanos: u64, rate: u64, sharers: usize) -> (now:
    usize)
    requires
        sharers > 0,
    ensures
        now == spec_refill(
            tokens as nat,
            bucket_size as nat,
            nanos as nat,
            rate as nat,
            sharers as nat,
        ),
{
    let new_tokens = tokens.saturating_add(gained_tokens(nanos, rate, sharers));
    if bucket_size <= new_tokens {
        bucket_size
    } else {
        new_tokens
    }
}

/// The sleep, in milliseconds, before a chunk of `len` bytes is offered again to a
/// bucket of `bucket_size` that holds `tokens`.
pub fn wait_millis(tokens: usize, len: usize, bucket_size: usize, rate: u64) -> (millis: u64)
    requires
        tokens < len,
        bucket_size > 0,
        rate > 0,
    ensures
        millis == spec_wait_millis(
            min_nat(bucket_size as nat, (len - tokens) as nat),
            rate as nat,
        ),
        millis >= 1,
{
    let missing = len - tokens;
    let needed_tokens = if bucket_size <= missing {
        bucket_size
    } else {
        missing
    };
    let scaled = saturating_mul(needed_tokens as u64, MILLIS_PER_SEC);
    1 + (scaled - 1) / rate
}

/// The bucket as a mathematical value.
pub struct Bucket {
    pub tokens: nat,
    pub bucket_size: nat,
    /// Tokens per second; zero means that nothing is throttled.
    pub rate: nat,
    /// When the tokens were last refilled.
    pub last_read: nat,
    /// The rest of a chunk that could not be passed on yet.
    pub next: Option<Seq<u8>>,
}

/// What a throttle says to a chunk.
pub enum Verdict {
    /// Pass this on now. It is a prefix of the chunk that was offered; the rest is
    /// held back.
    Send(Bytes),
    /// Sleep this many milliseconds, counted from the time of the offer, then take
    /// the chunk back with `take_next` and offer it again.
    Wait(u64),
}

/// The bytes of a chunk that may be absent.
pub open spec fn opt_bytes(chunk: Option<Bytes>) -> Option<Seq<u8>> {
    match chunk {
        Some(c) => Some(chunk_bytes(c)),
        None => None,
    }
}

/// The time between `earlier` and `later`, zero where the clock was read out of order.
pub open spec fn spec_elapsed(earlier: nat, later: nat) -> nat {
    if later >= earlier {
        (later - earlier) as nat
    } else {
        0
    }
}

impl Bucket {
    /// The bucket after a refill at the time `now`, its rate shared by `sharers`.
    pub open spec fn fill(self, now: nat, sharers: nat) -> Bucket {
        Bucket {
            tokens: spec_refill(
                self.tokens,
                self.bucket_size,
                spec_elapsed(self.last_read, now),
                self.rate,
                sharers,
            ),
            last_read: now,
            ..self
        }
    }

    /// The bucket after a chunk was cut to the tokens at hand.
    pub open spec fn cut(self, chunk: Seq<u8>) -> Bucket {
        if self.tokens < chunk.len() {
            Bucket { tokens: 0, next: Some(chunk.skip(self.tokens as int)), ..self }
        } else {
            Bucket { tokens: (self.tokens - chunk.len()) as nat, next: None, ..self }
        }
    }

    /// The part of a chunk that the tokens at hand cover.
    pub open spec fn sent(self, chunk: Seq<u8>) -> Seq<u8> {
        if self.tokens < chunk.len() {
            chunk.take(self.tokens as int)
        } else {
            chunk
        }
    }

    /// What an offer of `chunk` at the time `now` passes on: the whole chunk where
    /// nothing is throttled, nothing where the chunk has to wait, else the part that
    /// the tokens cover.
    pub open spec fn passes(self, chunk: Seq<u8>, now: nat, sharers: nat) -> Option<Seq<u8>> {
        if self.rate == 0 {
            Some(chunk)
        } else {
            let filled = self.fill(now, sharers);
            if spec_must_wait(filled.tokens, chunk.len()) {
                None
            } else {
                Some(filled.sent(chunk))
            }
        }
    }

    /// How long a chunk that has to wait is to sleep: as long as the tokens that it
    /// lacks, or a whole bucket if it lacks more, take to come back.
    pub open spec fn sleep(self, chunk: Seq<u8>, now: nat, sharers: nat) -> int {
        let filled = self.fill(now, sharers);
        spec_wait_millis(
            min_nat(filled.bucket_size, (chunk.len() - filled.tokens) as nat),
            filled.rate,
        )
    }

    /// The bucket after `chunk` was offered at the time `now`.
    pub open spec fn offer(self, chunk: Seq<u8>, now: nat, sharers: nat) -> Bucket {
        if self.rate == 0 {
            Bucket { next: None, ..self }
        } else {
            let filled = self.fill(now, sharers);
            if spec_must_wait(filled.tokens, chunk.len()) {
                Bucket { next: Some(chunk), ..filled }
            } else {
                filled.cut(chunk)
            }
        }
    }
}

/// The token bucket of one stream.
pub struct ThrottledStream {
    tokens: usize,
    last_read: u64,
    next: Option<Bytes>,
    bucket_size: usize,
    rate: u64,
}

impl View for ThrottledStream {
    type V = Bucket;

    closed spec fn view(&self) -> Bucket {
        Bucket {
            tokens: self.tokens as nat,
            bucket_size: self.bucket_size as nat,
            rate: self.rate as nat,
            last_read: self.last_read as nat,
            next: opt_bytes(self.next),
        }
    }
}

impl ThrottledStream {
    /// The bucket is at least [`MIN_BUCKET_SIZE`].
    pub closed spec fn wf(&self) -> bool {
        self.bucket_size >= MIN_BUCKET_SIZE
    }

    pub proof fn lemma_wf_view(&self)
        requires
            self.wf(),
        ensures
            self@.bucket_size >= MIN_BUCKET_SIZE,
    {
    }

    /// A full bucket of `bucket_size` tokens that regains `rate` tokens per second,
    /// made at the time `now`.
    pub fn new(bucket_size: usize, rate: u64, now: u64) -> (stream: ThrottledStream)
        requires
            bucket_size >= MIN_BUCKET_SIZE,
        ensures
            stream.wf(),
            stream@ == (Bucket {
                tokens: bucket_size as nat,
                bucket_size: bucket_size as nat,
                rate: rate as nat,
                last_read: now as nat,
                next: None,
            }),
    {
        ThrottledStream { tokens: bucket_size, last_read: now, next: None, bucket_size, rate }
    }

    /// Sets the rate at which tokens come back. Zero switches the throttle off.
    pub fn set_rate(&mut self, rate: u64)
        ensures
            final(self).wf() == old(self).wf(),
            final(self)@ == (Bucket { rate: rate as nat, ..old(self)@ }),
    {
        self.rate = rate;
    }

    /// Sets the size of the bucket. The tokens at hand stay until the next refill.
    pub fn set_bucket_size(&mut self, bucket_size: usize)
        requires
            bucket_size >= MIN_BUCKET_SIZE,
        ensures
            final(self).wf(),
            final(self)@ == (Bucket { bucket_size: bucket_size as nat, ..old(self)@ }),
    {
        self.bucket_size = bucket_size;
    }

    /// Gives up the bucket and hands out the chunk that is held back, if any.
    pub fn into_inner(self) -> (next: Option<Bytes>)
        ensures
            opt_bytes(next) == self@.next,
    {
        self.next
    }

    /// Takes out the chunk that is held back. `None` means that the next chunk is to
    /// come from the stream.
    pub fn take_next(&mut self) -> (next: Option<Bytes>)
        ensures
            final(self).wf() == old(self).wf(),
            opt_bytes(next) == old(self)@.next,
            final(self)@ == (Bucket { next: None, ..old(self)@ }),
    {
        self.next.take()
    }

    /// Adds the tokens that came back since the last refill.
    pub fn fill_tokens(&mut self, now: u64)
        ensures
            final(self).wf() == old(self).wf(),
            final(self)@ == old(self)@.fill(now as nat, 1),
    {
        let nanos = if now >= self.last_read {
            now - self.last_read
        } else {
            0
        };
        self.tokens = refill(self.tokens, self.bucket_size, nanos, self.rate, 1);
        self.last_read = now;
    }

    /// Cuts the chunk where the tokens end. The first part is paid for and handed
    /// out; the rest, if any, is handed out beside it.
    pub fn cut_chunk(&mut self, bytes: Bytes) -> (parts: (Bytes, Option<Bytes>))
        ensures
            final(self).wf() == old(self).wf(),
            chunk_bytes(parts.0) == old(self)@.sent(chunk_bytes(bytes)),
            opt_bytes(parts.1) == old(self)@.cut(chunk_bytes(bytes)).next,
            final(self)@ == (Bucket { next: old(self)@.next, ..old(self)@.cut(chunk_bytes(bytes)) }),
    {
        let mut bytes = bytes;
        if self.tokens < bytes.len() {
            let remaining = bytes.split_off(self.tokens);
            self.tokens = 0;
            (bytes, Some(remaining))
        } else {
            self.tokens -= bytes.len();
            (bytes, None)
        }
    }

    /// Decides what happens to `chunk` at the time `now`. With a rate of zero the
    /// chunk passes as it is. Otherwise the bucket is refilled; a chunk that has to
    /// wait is held back whole, any other is cut to the tokens at hand, its first
    /// part passed on and the rest held back.
    pub fn offer(&mut self, chunk: Bytes, now: u64) -> (verdict: Verdict)
        requires
            old(self).wf(),
        ensures
            final(self).wf(),
            final(self)@ == old(self)@.offer(chunk_bytes(chunk), now as nat, 1),
            match verdict {
                Verdict::Send(send) => old(self)@.passes(chunk_bytes(chunk), now as nat, 1)
                    == Some(chunk_bytes(send)),
                Verdict::Wait(millis) => {
                    &&& old(self)@.passes(chunk_bytes(chunk), now as nat, 1) is None
                    &&& millis == old(self)@.sleep(chunk_bytes(chunk), now as nat, 1)
                    &&& millis >= 1
                },
            },
    {
        if self.rate == 0 {
            self.next = None;
            return Verdict::Send(chunk);
        }
        self.fill_tokens(now);
        let len = chunk.len();
        if self.tokens < len && self.tokens < MIN_BUCKET_SIZE {
            let millis = wait_millis(self.tokens, len, self.bucket_size, self.rate);
            self.next = Some(chunk);
            return Verdict::Wait(millis);
        }
        let (send, store) = self.cut_chunk(chunk);
        self.next = store;
        Verdict::Send(send)
    }
}

/// Nothing is lost and nothing changes place: what an offer passes on, followed by
/// what it holds back, is the chunk that was offered.
pub proof fn lemma_offer_conserves_bytes(b: Bucket, chunk: Seq<u8>, now: nat, sharers: nat)
    ensures
        ({
            let passed = match b.passes(chunk, now, sharers) {
                Some(part) => part,
                None => Seq::<u8>::empty(),
            };
            let held = match b.offer(chunk, now, sharers).next {
                Some(rest) => rest,
                None => Seq::<u8>::empty(),
            };
            passed + held == chunk
        }),
{
    let filled = b.fill(now, sharers);
    if b.rate != 0 && !spec_must_wait(filled.tokens, chunk.len()) {
        if filled.tokens < chunk.len() {
            assert(chunk.take(filled.tokens as int) + chunk.skip(filled.tokens as int) =~= chunk);
        } else {
            assert(chunk + Seq::<u8>::empty() =~= chunk);
        }
    } else if b.rate == 0 {
        assert(chunk + Seq::<u8>::empty() =~= chunk);
    } else {
        assert(Seq::<u8>::empty() + chunk =~= chunk);
    }
}

/// A stream behind a throttle: the bucket, the chunks that the stream has still to
/// give, and the bytes that have passed.
pub struct Flow {
    pub bucket: Bucket,
    pub source: Seq<Seq<u8>>,
    pub passed: Seq<u8>,
}

impl Flow {
    /// The bytes that have not passed yet: what the bucket holds back, then what
    /// the stream has still to give.
    pub open spec fn waiting(self) -> Seq<u8> {
        match self.bucket.next {
            Some(rest) => rest + self.source.flatten(),
            None => self.source.flatten(),
        }
    }

    /// One pull at the time `now`: the chunk that is held back, or else the next
    /// chunk of the stream, is offered to the bucket, and what the bucket passes on
    /// is added to the bytes that have passed. A stream that has nothing more to
    /// give stays as it is.
    pub open spec fn pull(self, now: nat, sharers: nat) -> Flow {
        let emptied = Bucket { next: None, ..self.bucket };
        match self.bucket.next {
            Some(rest) => Flow {
                bucket: emptied.offer(rest, now, sharers),
                source: self.source,
                passed: self.passed + match emptied.passes(rest, now, sharers) {
                    Some(part) => part,
                    None => Seq::empty(),
                },
            },
            None => if self.source.len() == 0 {
                self
            } else {
                let chunk = self.source.first();
                Flow {
                    bucket: emptied.offer(chunk, now, sharers),
                    source: self.source.drop_first(),
                    passed: self.passed + match emptied.passes(chunk, now, sharers) {
                        Some(part) => part,
                        None => Seq::empty(),
                    },
                }
            },
        }
    }

    /// Pulls at each of the times, one after the other.
    pub open spec fn pulls(self, times: Seq<nat>, sharers: nat) -> Flow
        decreases times.len(),
    {
        if times.len() == 0 {
            self
        } else {
            self.pull(times.first(), sharers).pulls(times.drop_first(), sharers)
        }
    }
}

/// The throttle only delays and cuts: whatever the times of the pulls, the bytes
/// that have passed, followed by those that wait, are always the bytes of the
/// stream in their order. Once nothing waits, all of them have passed.
pub proof fn lemma_throttle_keeps_bytes(f: Flow, times: Seq<nat>, sharers: nat)
    ensures
        f.pulls(times, sharers).passed + f.pulls(times, sharers).waiting() == f.passed
            + f.waiting(),
    decreases times.len(),
{
    if times.len() > 0 {
        let now = times.first();
        let g = f.pull(now, sharers);
        let emptied = Bucket { next: None, ..f.bucket };
        match f.bucket.next {
            Some(rest) => {
                lemma_offer_conserves_bytes(emptied, rest, now, sharers);
                let part = match emptied.passes(rest, now, sharers) {
                    Some(part) => part,
                    None => Seq::<u8>::empty(),
                };
                let held = match g.bucket.next {
                    Some(held) => held,
                    None => Seq::<u8>::empty(),
                };
                assert(part + held == rest);
                assert(g.waiting() =~= held + f.source.flatten());
                assert(g.passed + g.waiting() =~= f.passed + (part + held) + f.source.flatten());
                assert(f.passed + f.waiting() =~= f.passed + rest + f.source.flatten());
            },
            None => {
                if f.source.len() > 0 {
                    let chunk = f.source.first();
                    lemma_offer_conserves_bytes(emptied, chunk, now, sharers);
                    let part = match emptied.passes(chunk, now, sharers) {
                        Some(part) => part,
                        None => Seq::<u8>::empty(),
                    };
                    let held = match g.bucket.next {
                        Some(held) => held,
                        None => Seq::<u8>::empty(),
                    };
                    assert(part + held == chunk);
                    assert(f.source.flatten() =~= chunk + f.source.drop_first().flatten());
                    assert(g.waiting() =~= held + f.source.drop_first().flatten());
                    assert(g.passed + g.waiting() =~= f.passed + (part + held)
                        + f.source.drop_first().flatten());
                    assert(f.passed + f.waiting() =~= f.passed + chunk
                        + f.source.drop_first().flatten());
                }
            },
        }
        lemma_throttle_keeps_bytes(g, times.drop_first(), sharers);
    }
}

/// One offer to a throttled stream.
pub struct Pull {
    /// When the chunk is offered.
    pub now: nat,
    pub chunk: Seq<u8>,
}

/// The times of the pulls do not go back, and none lies before `from`.
pub open spec fn in_order(from: nat, pulls: Seq<Pull>) -> bool
    decreases pulls.len(),
{
    pulls.len() > 0 ==> from <= pulls.first().now && in_order(
        pulls.first().now,
        pulls.drop_first(),
    )
}

/// How many bytes a bucket passes on over a series of offers.
pub open spec fn spec_passed_len(b: Bucket, pulls: Seq<Pull>, sharers: nat) -> nat
    decreases pulls.len(),
{
    if pulls.len() == 0 {
        0
    } else {
        let p = pulls.first();
        let passed: nat = match b.passes(p.chunk, p.now, sharers) {
            Some(part) => part.len(),
            None => 0,
        };
        passed + spec_passed_len(b.offer(p.chunk, p.now, sharers), pulls.drop_first(), sharers)
    }
}

/// The bucket after a series of offers.
pub open spec fn spec_after(b: Bucket, pulls: Seq<Pull>, sharers: nat) -> Bucket
    decreases pulls.len(),
{
    if pulls.len() == 0 {
        b
    } else {
        let p = pulls.first();
        spec_after(b.offer(p.chunk, p.now, sharers), pulls.drop_first(), sharers)
    }
}

/// What `nanos` nanoseconds bring to each of the streams that share a rate is never
/// more than its share of what the rate allows.
pub proof fn lemma_gained_within_rate(nanos: nat, rate: nat, sharers: nat)
    requires
        sharers > 0,
    ensures
        spec_gained(nanos, rate, sharers) * sharers * NANOS_PER_SEC as nat <= nanos * rate,
{
    let product = min_nat(nanos * rate, u64::MAX as nat);
    let whole = product / NANOS_PER_SEC as nat;
    let capped = min_nat(whole, usize::MAX as nat);
    let share = capped / sharers;
    assert(whole * 1_000_000_000 <= product) by (nonlinear_arith)
        requires
            whole == product / 1_000_000_000,
    ;
    assert(share * sharers <= capped) by (nonlinear_arith)
        requires
            sharers > 0,
            share == capped / sharers,
    ;
    assert(share * sharers * 1_000_000_000 <= whole * 1_000_000_000) by (nonlinear_arith)
        requires
            share * sharers <= capped,
            capped <= whole,
    ;
}

/// The throttle keeps the rate. Over any series of offers whose times do not go
/// back, a stream that shares the rate with `sharers - 1` others passes on no more
/// bytes than the tokens it began with and its share of those that the rate brings
/// in the time from its last refill to the last offer: with `S` bytes passed, `C`
/// tokens at the start, `R` tokens per second, `T` nanoseconds and `n` sharers,
/// `S * n * 10^9 <= C * n * 10^9 + R * T`.
pub proof fn lemma_throttle_keeps_rate(b: Bucket, pulls: Seq<Pull>, sharers: nat)
    requires
        b.rate > 0,
        sharers > 0,
        in_order(b.last_read, pulls),
    ensures
        ({
            let end = spec_after(b, pulls, sharers);
            &&& end.rate == b.rate
            &&& end.last_read >= b.last_read
            &&& (spec_passed_len(b, pulls, sharers) + end.tokens) * sharers
                * NANOS_PER_SEC as nat <= b.tokens * sharers * NANOS_PER_SEC as nat + (
            end.last_read - b.last_read) * b.rate
        }),
    decreases pulls.len(),
{
    if pulls.len() > 0 {
        let p = pulls.first();
        let filled = b.fill(p.now, sharers);
        let next = b.offer(p.chunk, p.now, sharers);
        let passed: nat = match b.passes(p.chunk, p.now, sharers) {
            Some(part) => part.len(),
            None => 0,
        };
        let elapsed = spec_elapsed(b.last_read, p.now);
        lemma_gained_within_rate(elapsed, b.rate, sharers);
        assert(filled.tokens <= b.tokens + spec_gained(elapsed, b.rate, sharers));
        assert(passed + next.tokens == filled.tokens);
        assert(next.last_read == p.now);
        lemma_throttle_keeps_rate(next, pulls.drop_first(), sharers);
        let end = spec_after(b, pulls, sharers);
        let rest = spec_passed_len(next, pulls.drop_first(), sharers);
        let gained = spec_gained(elapsed, b.rate, sharers);
        assert((passed + rest + end.tokens) * sharers * 1_000_000_000 <= b.tokens * sharers
            * 1_000_000_000 + (end.last_read - b.last_read) * b.rate) by (nonlinear_arith)
            requires
                (rest + end.tokens) * sharers * 1_000_000_000 <= next.tokens * sharers
                    * 1_000_000_000 + (end.last_read - p.now) * b.rate,
                passed + next.tokens <= b.tokens + gained,
                gained * sharers * 1_000_000_000 <= elapsed * b.rate,
                elapsed == p.now - b.last_read,
                end.last_read >= p.now,
                p.now >= b.last_read,
                sharers > 0,
        ;
    }
}

} // verus!
