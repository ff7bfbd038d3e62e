use backblaze_b2::throttle::shared::Throttle;
use backblaze_b2::throttle::{
    gained_tokens, nanos_of, refill, saturating_u64_to_usize, wait_millis, ThrottledStream,
    Verdict,
};
use bytes::Bytes;

const MILLI: u64 = 1_000_000;

/// Pulls everything out of `data`, cut into chunks of `chunk` bytes, through the
/// throttle, sleeping on a clock of its own. Gives the bytes that came out and the
/// nanoseconds that passed.
fn run_single(data: &Bytes, chunk: usize, bucket_size: usize, rate: u64) -> (Vec<u8>, u64) {
    let mut now: u64 = 0;
    let mut throttled = ThrottledStream::new(bucket_size, rate, now);
    let mut out = Vec::with_capacity(data.len());
    let mut pos = 0;
    loop {
        let next = match throttled.take_next() {
            Some(rest) => rest,
            None => {
                if pos == data.len() {
                    break;
                }
                let end = std::cmp::min(pos + chunk, data.len());
                let piece = data.slice(pos..end);
                pos = end;
                piece
            }
        };
        match throttled.offer(next, now) {
            Verdict::Send(send) => out.extend_from_slice(&send),
            Verdict::Wait(millis) => now += millis * MILLI,
        }
    }
    (out, now)
}

#[test]
fn test_throttled_read() {
    // create 20 megabytes
    let mut data = Vec::with_capacity(1024 * 1024 * 20);
    for i in 0..data.capacity() {
        data.push(i as u8);
    }

    let len = data.len();
    let data = Bytes::from(data);
    // The rate is the size of the data divided by four.
    // This means it will take at least four seconds to complete.
    let (out, elapsed) = run_single(&data, 8192, 8192, (len / 4) as u64);

    let sum = out.len();
    assert_eq!(sum, len);
    assert!(out[..] == data[..]);
    let elapsed_secs = elapsed / 1_000_000_000;
    println!("Elapsed: {}", elapsed_secs);
    assert!(elapsed_secs >= 4);
}

#[test]
fn test_throttled_async_read() {
    // create 20 megabytes
    let mut data1 = Vec::with_capacity(1024 * 1024 * 20);
    for i in 0..data1.capacity() {
        data1.push(i as u8);
    }
    let len = data1.len();
    let data = [Bytes::from(data1.clone()), Bytes::from(data1)];

    // The rate is the size of the data divided by two.
    // This means it will take at least four seconds to complete both.
    let throttle = Throttle::new((len / 2) as u64, 8192);

    let mut streams = [throttle.throttle_stream(0), throttle.throttle_stream(0)];
    let mut pos = [0usize, 0usize];
    let mut sums = [0usize, 0usize];
    let mut wake = [0u64, 0u64];
    let mut done = [false, false];
    let mut finished_at = [0u64, 0u64];
    while !(done[0] && done[1]) {
        // the stream that wakes first runs next
        let s = if done[1] || (!done[0] && wake[0] <= wake[1]) { 0 } else { 1 };
        let now = wake[s];
        let next = match streams[s].take_next() {
            Some(rest) => rest,
            None => {
                if pos[s] == len {
                    done[s] = true;
                    finished_at[s] = now;
                    streams[s].unregister();
                    continue;
                }
                let end = std::cmp::min(pos[s] + 8192, len);
                let piece = data[s].slice(pos[s]..end);
                pos[s] = end;
                piece
            }
        };
        match streams[s].offer(next, now) {
            Verdict::Send(send) => sums[s] += send.len(),
            Verdict::Wait(millis) => wake[s] = now + millis * MILLI,
        }
    }
    assert_eq!(sums[0], len);
    assert_eq!(sums[1], len);
    let elapsed_secs = std::cmp::max(finished_at[0], finished_at[1]) / 1_000_000_000;
    println!("Elapsed: {}", elapsed_secs);
    assert!(elapsed_secs >= 4);
}

#[test]
fn rate_zero_passes_every_chunk_as_it_is() {
    let mut throttled = ThrottledStream::new(1024, 0, 0);
    for size in [0usize, 1, 1024, 5000, 100_000] {
        let chunk = Bytes::from(vec![7u8; size]);
        match throttled.offer(chunk.clone(), 0) {
            Verdict::Send(send) => assert_eq!(send, chunk),
            Verdict::Wait(_) => panic!("a throttle with rate zero made a chunk wait"),
        }
        assert!(throttled.take_next().is_none());
    }
}

#[test]
fn chunk_is_cut_where_the_tokens_end() {
    let mut throttled = ThrottledStream::new(8192, 1000, 0);
    let data: Vec<u8> = (0..20000u32).map(|i| (i % 251) as u8).collect();
    let chunk = Bytes::from(data.clone());
    // a full bucket covers the first 8192 bytes
    match throttled.offer(chunk, 0) {
        Verdict::Send(send) => assert_eq!(&send[..], &data[..8192]),
        Verdict::Wait(_) => panic!("a full bucket made a chunk wait"),
    }
    let rest = throttled.take_next().unwrap();
    assert_eq!(&rest[..], &data[8192..]);
    // the bucket is empty now: the rest has to wait for a whole bucket
    match throttled.offer(rest, 0) {
        Verdict::Wait(millis) => assert_eq!(millis, 8192),
        Verdict::Send(_) => panic!("an empty bucket let a chunk pass"),
    }
    let rest = throttled.take_next().unwrap();
    assert_eq!(&rest[..], &data[8192..]);
    // 2 seconds bring 2000 tokens, which is above the least that is worth sending
    match throttled.offer(rest, 2_000_000_000) {
        Verdict::Send(send) => assert_eq!(&send[..], &data[8192..10192]),
        Verdict::Wait(_) => panic!("2000 tokens made a chunk wait"),
    }
    let rest = throttled.take_next().unwrap();
    assert_eq!(&rest[..], &data[10192..]);
    // half a second brings 500 tokens: too few to send, too few for the chunk
    match throttled.offer(rest, 2_500_000_000) {
        // 8192 tokens are missing at most: 1 + (8192 * 1000 - 1) / 1000
        Verdict::Wait(millis) => assert_eq!(millis, 8192),
        Verdict::Send(_) => panic!("500 tokens let a large chunk pass"),
    }
}

#[test]
fn small_chunk_passes_with_few_tokens() {
    let mut throttled = ThrottledStream::new(1024, 1000, 0);
    // use up the bucket
    match throttled.offer(Bytes::from(vec![1u8; 1024]), 0) {
        Verdict::Send(send) => assert_eq!(send.len(), 1024),
        Verdict::Wait(_) => panic!(),
    }
    assert!(throttled.take_next().is_none());
    // 10 ms bring 10 tokens; a chunk of 10 bytes is covered
    match throttled.offer(Bytes::from(vec![2u8; 10]), 10 * MILLI) {
        Verdict::Send(send) => assert_eq!(send.len(), 10),
        Verdict::Wait(_) => panic!(),
    }
    // no tokens left, 11 bytes wait for 11 tokens: 1 + (11 * 1000 - 1) / 1000 = 11 ms
    match throttled.offer(Bytes::from(vec![3u8; 11]), 10 * MILLI) {
        Verdict::Wait(millis) => assert_eq!(millis, 11),
        Verdict::Send(_) => panic!(),
    }
}

#[test]
fn wait_rounds_up_and_is_never_zero() {
    // 1 token at 1000 per second: 1 + 999 / 1000 = 1
    assert_eq!(wait_millis(0, 1, 1024, 1000), 1);
    // 3 tokens at 2000 per second: 1 + 2999 / 2000 = 2
    assert_eq!(wait_millis(0, 3, 1024, 2000), 2);
    // 2 tokens at 2000 per second take 1 ms exactly: 1 + 1999 / 2000 = 1
    assert_eq!(wait_millis(0, 2, 1024, 2000), 1);
    // more than a bucket is missing: the wait is for a bucket
    assert_eq!(wait_millis(24, 1_000_000, 1024, 1000), 1024);
    // a very high rate
    assert_eq!(wait_millis(0, 1, 1024, u64::MAX), 1);
}

#[test]
fn refill_is_capped_and_saturates() {
    assert_eq!(gained_tokens(500_000_000, 1000, 1), 500);
    assert_eq!(gained_tokens(999_999, 1000, 1), 0);
    assert_eq!(gained_tokens(1_000_000, 1000, 1), 1);
    assert_eq!(gained_tokens(1_000_000_000, 1000, 3), 333);
    // the product does not fit: it counts as u64::MAX
    assert_eq!(
        gained_tokens(u64::MAX, u64::MAX, 1),
        saturating_u64_to_usize(u64::MAX / 1_000_000_000)
    );
    assert_eq!(refill(10, 1024, 500_000_000, 1000, 1), 510);
    assert_eq!(refill(10, 1024, 5_000_000_000, 1000, 1), 1024);
    assert_eq!(refill(usize::MAX, usize::MAX, u64::MAX, u64::MAX, 1), usize::MAX);
    // tokens above a bucket that was made smaller are cut at the next refill
    assert_eq!(refill(5000, 1024, 0, 1000, 1), 1024);
}

#[test]
fn nanos_saturate() {
    assert_eq!(nanos_of(0, 0), 0);
    assert_eq!(nanos_of(1, 5), 1_000_000_005);
    assert_eq!(nanos_of(u64::MAX, 0), u64::MAX);
    assert_eq!(nanos_of(18_446_744_073, 999_999_999), u64::MAX);
    assert_eq!(nanos_of(18_446_744_073, 709_551_615), u64::MAX);
    assert_eq!(nanos_of(18_446_744_073, 709_551_614), u64::MAX - 1);
}

#[test]
fn u64_to_usize_saturates() {
    assert_eq!(saturating_u64_to_usize(0), 0);
    assert_eq!(saturating_u64_to_usize(12345), 12345);
    assert_eq!(saturating_u64_to_usize(usize::MAX as u64), usize::MAX);
    if (usize::MAX as u64) < u64::MAX {
        assert_eq!(saturating_u64_to_usize(u64::MAX), usize::MAX);
    }
}

#[test]
fn clock_that_goes_back_brings_nothing() {
    let mut throttled = ThrottledStream::new(1024, 1000, 5_000_000_000);
    match throttled.offer(Bytes::from(vec![0u8; 1024]), 5_000_000_000) {
        Verdict::Send(send) => assert_eq!(send.len(), 1024),
        Verdict::Wait(_) => panic!(),
    }
    // an earlier time: no tokens
    match throttled.offer(Bytes::from(vec![0u8; 1]), 1_000_000_000) {
        Verdict::Wait(millis) => assert_eq!(millis, 1),
        Verdict::Send(_) => panic!(),
    }
}

#[test]
fn set_rate_and_bucket_size_take_effect() {
    let mut throttled = ThrottledStream::new(1024, 1000, 0);
    throttled.set_bucket_size(4096);
    throttled.set_rate(2000);
    // the tokens at hand are still 1024; one second brings 2000 more
    match throttled.offer(Bytes::from(vec![0u8; 10_000]), 1_000_000_000) {
        Verdict::Send(send) => assert_eq!(send.len(), 3024),
        Verdict::Wait(_) => panic!(),
    }
    let rest = throttled.into_inner().unwrap();
    assert_eq!(rest.len(), 10_000 - 3024);
}

#[test]
fn shared_rate_is_divided_among_registered_streams() {
    let throttle = Throttle::new(1000, 1024);
    let mut a = throttle.throttle_stream(0);
    let mut b = throttle.throttle_stream(0);
    // both use up their buckets; this registers both
    for s in [&mut a, &mut b] {
        match s.offer(Bytes::from(vec![0u8; 1024]), 0) {
            Verdict::Send(send) => assert_eq!(send.len(), 1024),
            Verdict::Wait(_) => panic!(),
        }
    }
    // two seconds at 1000 per second, divided by two: 1000 tokens each
    match a.offer(Bytes::from(vec![0u8; 5000]), 2_000_000_000) {
        // 1000 tokens are below the least worth sending, and below the chunk
        Verdict::Wait(millis) => assert_eq!(millis, 1024),
        Verdict::Send(_) => panic!(),
    }
    let _ = a.take_next();
    match a.offer(Bytes::from(vec![0u8; 900]), 2_000_000_000) {
        Verdict::Send(send) => assert_eq!(send.len(), 900),
        Verdict::Wait(_) => panic!(),
    }
    // when one stream goes, the other gets the whole rate
    a.unregister();
    match b.offer(Bytes::from(vec![0u8; 5000]), 1_000_000_000) {
        // one second alone: 1000 tokens
        Verdict::Wait(_) => {}
        Verdict::Send(_) => panic!(),
    }
    let _ = b.take_next();
    match b.offer(Bytes::from(vec![0u8; 5000]), 1_100_000_000) {
        // 100 more: 1100 tokens reach the least worth sending
        Verdict::Send(send) => assert_eq!(send.len(), 1024),
        Verdict::Wait(_) => panic!(),
    }
}

#[test]
fn shared_stream_with_rate_zero_is_not_counted() {
    let throttle = Throttle::new(0, 1024);
    let mut idle = throttle.throttle_stream(0);
    match idle.offer(Bytes::from(vec![0u8; 5000]), 0) {
        Verdict::Send(send) => assert_eq!(send.len(), 5000),
        Verdict::Wait(_) => panic!(),
    }
    // it did not register, so another stream has the rate for itself
    let mut throttle2 = throttle.clone();
    throttle2.set_default_rate(1000);
    throttle2.set_default_bucket_size(2048);
    let mut busy = throttle2.throttle_stream(0);
    match busy.offer(Bytes::from(vec![0u8; 2048]), 0) {
        Verdict::Send(send) => assert_eq!(send.len(), 2048),
        Verdict::Wait(_) => panic!(),
    }
    match busy.offer(Bytes::from(vec![0u8; 1500]), 1_500_000_000) {
        Verdict::Send(send) => assert_eq!(send.len(), 1500),
        Verdict::Wait(_) => panic!(),
    }
}

#[test]
fn throttle_keeps_the_rate_on_any_schedule() {
    // S * 10^9 <= C * 10^9 + R * T for a run with uneven chunks and pauses
    let data = Bytes::from(vec![9u8; 300_000]);
    for (chunk, bucket, rate) in [(1usize, 1024usize, 50_000u64), (777, 2000, 123_456), (65536, 1024, 1_000_000)] {
        let (out, elapsed) = run_single(&data, chunk, bucket, rate);
        assert_eq!(out.len(), data.len());
        let left = (out.len() as u128) * 1_000_000_000;
        let right = (bucket as u128) * 1_000_000_000 + (rate as u128) * (elapsed as u128);
        assert!(left <= right);
    }
}
