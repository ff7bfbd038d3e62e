//! One rate divided among the streams that are in use.
//!
//! A [`Throttle`] counts the streams that use bandwidth. Each stream made from it has
//! a token bucket of its own, and refills it at the rate of the throttle divided by
//! that count as it stands at the refill. A stream is counted from the first chunk
//! it is offered until it is unregistered; whoever owns the stream unregisters it
//! when the stream is dropped.

use super::{
    min_nat, opt_bytes, refill, spec_gained, wait_millis, Bucket, Verdict, MIN_BUCKET_SIZE,
    NANOS_PER_SEC,
};
use crate::chunk::chunk_bytes;
use bytes::Bytes;
use std::sync::atomic::AtomicUsize;
use std::sync::atomic::Ordering;
use std::sync::Arc;
use vstd::prelude::*;

verus! {

/// Among how many streams the rate is divided when `count` streams are registered:
/// a stream that finds nobody registered takes the whole rate.
pub open spec fn spec_sharers(count: nat) -> nat {
    if count == 0 {
        1
    } else {
        count
    }
}

/// Makes throttled streams that share one rate.
#[derive(Clone)]
pub struct Throttle {
    stream_count: Arc<AtomicUsize>,
    default_rate: u64,
    default_bucket_size: usize,
}

/// The token bucket of one of the streams that share a rate.
pub struct ThrottledStream {
    tokens: usize,
    last_read: u64,
    next: Option<Bytes>,
    stream_count: Arc<AtomicUsize>,
    registered: bool,
    bucket_size: usize,
    rate: u64,
}

/// A shared stream as a mathematical value.
pub struct SharedBucket {
    pub bucket: Bucket,
    /// The stream is counted among those in use.
    pub registered: bool,
}

impl View for ThrottledStream {
    type V = SharedBucket;

    closed spec fn view(&self) -> SharedBucket {
        SharedBucket {
            bucket: Bucket {
                tokens: self.tokens as nat,
                bucket_size: self.bucket_size as nat,
                rate: self.rate as nat,
                last_read: self.last_read as nat,
                next: opt_bytes(self.next),
            },
            registered: self.registered,
        }
    }
}

impl Throttle {
    /// The bucket size for new streams is at least [`MIN_BUCKET_SIZE`].
    pub closed spec fn wf(&self) -> bool {
        self.default_bucket_size >= MIN_BUCKET_SIZE
    }

    /// The rate that new streams get.
    pub closed spec fn default_rate(&self) -> u64 {
        self.default_rate
    }

    /// The bucket size that new streams get.
    pub closed spec fn default_bucket_size(&self) -> usize {
        self.default_bucket_size
    }

    /// A throttle with no stream yet.
    pub fn new(rate: u64, bucket_size: usize) -> (throttle: Throttle)
        requires
            bucket_size >= MIN_BUCKET_SIZE,
        ensures
            throttle.wf(),
            throttle.default_rate() == rate,
            throttle.default_bucket_size() == bucket_size,
    {
        Throttle {
            stream_count: Arc::new(AtomicUsize::new(0)),
            default_rate: rate,
            default_bucket_size: bucket_size,
        }
    }

    /// Sets the rate for the streams made from now on. Zero switches the throttle
    /// off for them.
    pub fn set_default_rate(&mut self, rate: u64)
        ensures
            final(self).wf() == old(self).wf(),
            final(self).default_rate() == rate,
            final(self).default_bucket_size() == old(self).default_bucket_size(),
    {
        self.default_rate = rate;
    }

    /// Sets the bucket size for the streams made from now on.
    pub fn set_default_bucket_size(&mut self, bucket_size: usize)
        requires
            bucket_size >= MIN_BUCKET_SIZE,
        ensures
            final(self).wf(),
            final(self).default_rate() == old(self).default_rate(),
            final(self).default_bucket_size() == bucket_size,
    {
        self.default_bucket_size = bucket_size;
    }

    /// A stream with a full bucket, made at the time `now` and not yet counted among
    /// the streams in use.
    pub fn throttle_stream(&self, now: u64) -> (stream: ThrottledStream)
        requires
            self.wf(),
        ensures
            stream.wf(),
            stream@ == (SharedBucket {
                bucket: Bucket {
                    tokens: self.default_bucket_size() as nat,
                    bucket_size: self.default_bucket_size() as nat,
                    rate: self.default_rate() as nat,
                    last_read: now as nat,
                    next: None,
                },
                registered: false,
            }),
    {
        ThrottledStream {
            tokens: self.default_bucket_size,
            last_read: now,
            next: None,
            stream_count: self.stream_count.clone(),
            registered: false,
            bucket_size: self.default_bucket_size,
            rate: self.default_rate,
        }
    }
}

/// Counts one stream more.
fn count_up(stream_count: &Arc<AtomicUsize>) {
    let _ = stream_count.fetch_add(1, Ordering::Release);
}

/// Counts one stream less.
fn count_down(stream_count: &Arc<AtomicUsize>) {
    let _ = stream_count.fetch_sub(1, Ordering::Release);
}

/// How many streams are counted at this moment. Other threads change the count, so
/// nothing is known of the answer.
fn count_now(stream_count: &Arc<AtomicUsize>) -> usize {
    stream_count.load(Ordering::Acquire)
}

impl ThrottledStream {
    /// The bucket is at least [`MIN_BUCKET_SIZE`].
    pub closed spec fn wf(&self) -> bool {
        self.bucket_size >= MIN_BUCKET_SIZE
    }

    pub proof fn lemma_wf_view(&self)
        requires
            self.wf(),
        ensures
            self@.bucket.bucket_size >= MIN_BUCKET_SIZE,
    {
    }

    /// Sets the rate at which tokens come back, before it is divided. Zero switches
    /// the throttle off.
    pub fn set_rate(&mut self, rate: u64)
        ensures
            final(self).wf() == old(self).wf(),
            final(self)@ == (SharedBucket {
                bucket: Bucket { rate: rate as nat, ..old(self)@.bucket },
                ..old(self)@
            }),
    {
        self.rate = rate;
    }

    /// Sets the size of the bucket. The tokens at hand stay until the next refill.
    pub fn set_bucket_size(&mut self, bucket_size: usize)
        requires
            bucket_size >= MIN_BUCKET_SIZE,
        ensures
            final(self).wf(),
            final(self)@ == (SharedBucket {
                bucket: Bucket { bucket_size: bucket_size as nat, ..old(self)@.bucket },
                ..old(self)@
            }),
    {
        self.bucket_size = bucket_size;
    }

    /// Counts this stream among those in use, once.
    pub fn register(&mut self)
        ensures
            final(self).wf() == old(self).wf(),
            final(self)@ == (SharedBucket { registered: true, ..old(self)@ }),
    {
        if !self.registered {
            count_up(&self.stream_count);
            self.registered = true;
        }
    }

    /// Takes this stream out of the count, if it is in it. To be called when the
    /// stream is dropped.
    pub fn unregister(&mut self)
        ensures
            final(self).wf() == old(self).wf(),
            final(self)@ == (SharedBucket { registered: false, ..old(self)@ }),
    {
        if self.registered {
            count_down(&self.stream_count);
            self.registered = false;
        }
    }

    /// Takes out the chunk that is held back. `None` means that the next chunk is to
    /// come from the stream.
    pub fn take_next(&mut self) -> (next: Option<Bytes>)
        ensures
            final(self).wf() == old(self).wf(),
            opt_bytes(next) == old(self)@.bucket.next,
            final(self)@ == (SharedBucket {
                bucket: Bucket { next: None, ..old(self)@.bucket },
                ..old(self)@
            }),
    {
        self.next.take()
    }

    /// Adds the tokens that came back since the last refill, with `count` streams
    /// registered.
    pub fn fill_tokens_among(&mut self, now: u64, count: usize)
        ensures
            final(self).wf() == old(self).wf(),
            final(self)@ == (SharedBucket {
                bucket: old(self)@.bucket.fill(now as nat, spec_sharers(count as nat)),
                ..old(self)@
            }),
    {
        let nanos = if now >= self.last_read {
            now - self.last_read
        } else {
            0
        };
        let sharers = if count == 0 {
            1
        } else {
            count
        };
        self.tokens = refill(self.tokens, self.bucket_size, nanos, self.rate, sharers);
        self.last_read = now;
    }

    /// Adds the tokens that came back since the last refill, the rate divided by the
    /// number of streams registered at this moment.
    pub fn fill_tokens(&mut self, now: u64)
        ensures
            final(self).wf() == old(self).wf(),
            exists|count: nat|
                final(self)@ == (SharedBucket {
                    bucket: old(self)@.bucket.fill(now as nat, #[trigger] spec_sharers(count)),
                    ..old(self)@
                }),
    {
        let count = count_now(&self.stream_count);
        self.fill_tokens_among(now, count);
        assert(self@.bucket == old(self)@.bucket.fill(now as nat, spec_sharers(count as nat)));
    }

    /// Cuts the chunk where the tokens end. The first part is paid for and handed
    /// out; the rest, if any, is handed out beside it.
    pub fn cut_chunk(&mut self, bytes: Bytes) -> (parts: (Bytes, Option<Bytes>))
        ensures
            final(self).wf() == old(self).wf(),
            chunk_bytes(parts.0) == old(self)@.bucket.sent(chunk_bytes(bytes)),
            opt_bytes(parts.1) == old(self)@.bucket.cut(chunk_bytes(bytes)).next,
            final(self)@ == (SharedBucket {
                bucket: Bucket {
                    next: old(self)@.bucket.next,
                    ..old(self)@.bucket.cut(chunk_bytes(bytes))
                },
                ..old(self)@
            }),
    {
        let mut bytes = bytes;
        if self.tokens < bytes.len() {
            let first = bytes.split_to(self.tokens);
            self.tokens = 0;
            (first, Some(bytes))
        } else {
            self.tokens -= bytes.len();
            (bytes, None)
        }
    }

    /// Decides what happens to `chunk` at the time `now`, with `count` streams
    /// registered. With a rate of zero the chunk passes as it is. Otherwise the
    /// bucket is refilled; a chunk that has to wait is held back whole, any other is
    /// cut to the tokens at hand, its first part passed on and the rest held back.
    pub fn offer_among(&mut self, chunk: Bytes, now: u64, count: usize) -> (verdict: Verdict)
        requires
            old(self).wf(),
        ensures
            final(self).wf(),
            final(self)@ == (SharedBucket {
                bucket: old(self)@.bucket.offer(
                    chunk_bytes(chunk),
                    now as nat,
                    spec_sharers(count as nat),
                ),
                ..old(self)@
            }),
            match verdict {
                Verdict::Send(send) => old(self)@.bucket.passes(
                    chunk_bytes(chunk),
                    now as nat,
                    spec_sharers(count as nat),
                ) == Some(chunk_bytes(send)),
                Verdict::Wait(millis) => {
                    &&& old(self)@.bucket.passes(
                        chunk_bytes(chunk),
                        now as nat,
                        spec_sharers(count as nat),
                    ) is None
                    &&& millis == old(self)@.bucket.sleep(
                        chunk_bytes(chunk),
                        now as nat,
                        spec_sharers(count as nat),
                    )
                    &&& millis >= 1
                },
            },
    {
        if self.rate == 0 {
            self.next = None;
            return Verdict::Send(chunk);
        }
        self.fill_tokens_among(now, count);
        let len = chunk.len();
        if self.tokens < len && self.tokens < MIN_BUCKET_SIZE {
            let millis = wait_millis(self.tokens, len, self.bucket_size, self.rate);
            self.next = Some(chunk);
            return Verdict::Wait(millis);
        }
        let (send, store) = self.cut_chunk(chunk);
        self.next = store;
        Verdict::Send(send)
    }

    /// Decides what happens to `chunk` at the time `now`. A stream whose rate is not
    /// zero is first counted among those in use; then the chunk is offered with the
    /// number of streams registered at this moment.
    pub fn offer(&mut self, chunk: Bytes, now: u64) -> (verdict: Verdict)
        requires
            old(self).wf(),
        ensures
            final(self).wf(),
            final(self)@.registered == (old(self)@.registered || old(self)@.bucket.rate != 0),
            exists|count: nat|
                {
                    &&& final(self)@.bucket == old(self)@.bucket.offer(
                        chunk_bytes(chunk),
                        now as nat,
                        #[trigger] spec_sharers(count),
                    )
                    &&& match verdict {
                        Verdict::Send(send) => old(self)@.bucket.passes(
                            chunk_bytes(chunk),
                            now as nat,
                            spec_sharers(count),
                        ) == Some(chunk_bytes(send)),
                        Verdict::Wait(millis) => {
                            &&& old(self)@.bucket.passes(
                                chunk_bytes(chunk),
                                now as nat,
                                spec_sharers(count),
                            ) is None
                            &&& millis == old(self)@.bucket.sleep(
                                chunk_bytes(chunk),
                                now as nat,
                                spec_sharers(count),
                            )
                            &&& millis >= 1
                        },
                    }
                },
    {
        if self.rate != 0 {
            self.register();
        }
        let count = count_now(&self.stream_count);
        let verdict = self.offer_among(chunk, now, count);
        assert(self@.bucket == old(self)@.bucket.offer(
            chunk_bytes(chunk),
            now as nat,
            spec_sharers(count as nat),
        ));
        verdict
    }
}

/// The streams together never gain more than the whole rate gives: the share of
/// each, taken `sharers` times, is at most what one stream alone would gain.
pub proof fn lemma_shares_within_rate(nanos: nat, rate: nat, sharers: nat)
    requires
        sharers > 0,
    ensures
        spec_gained(nanos, rate, sharers) * sharers <= spec_gained(nanos, rate, 1),
{
    let whole = min_nat(
        min_nat(nanos * rate, u64::MAX as nat) / NANOS_PER_SEC as nat,
        usize::MAX as nat,
    );
    assert(spec_gained(nanos, rate, 1) == whole);
    assert((whole / sharers) * sharers <= whole) by (nonlinear_arith)
        requires
            sharers > 0,
    ;
}

} // verus!
