use backblaze_b2::stream_util::{
    after_write, checked_len_with_sha1, collect_stream, len_with_sha1, sha1_at_end, Next,
};
use bytes::Bytes;

#[test]
fn sha1_is_put_at_the_end() {
    let mut stream = sha1_at_end();
    assert!(matches!(stream.poll(), Next::AskInner));
    stream.on_chunk(&Bytes::from_static(b"a"));
    stream.on_chunk(&Bytes::from_static(b""));
    stream.on_chunk(&Bytes::from_static(b"bc"));
    assert!(matches!(stream.poll(), Next::AskInner));
    let last = stream.on_end();
    assert_eq!(&last[..], b"a9993e364706816aba3e25717850c26c9cd0d89d");
    assert!(matches!(stream.poll(), Next::End));

    let mut empty = sha1_at_end();
    let last = empty.on_end();
    assert_eq!(&last[..], b"da39a3ee5e6b4b0d3255bfef95601890afd80709");
    assert_eq!(last.len(), len_with_sha1(0));
}

#[test]
fn length_with_sha1_is_forty_more() {
    assert_eq!(len_with_sha1(0), 40);
    assert_eq!(len_with_sha1(1000), 1040);
    assert_eq!(checked_len_with_sha1(1000), Some(1040));
    assert_eq!(checked_len_with_sha1(usize::MAX - 40), Some(usize::MAX));
    assert_eq!(checked_len_with_sha1(usize::MAX - 39), None);
    assert_eq!(checked_len_with_sha1(usize::MAX), None);
}

#[test]
fn collect_gathers_the_chunks_in_order() {
    let mut collect = collect_stream(4);
    collect.on_chunk(&Bytes::from_static(b"one "));
    collect.on_chunk(&Bytes::from_static(b""));
    collect.on_chunk(&Bytes::from_static(b"two"));
    assert_eq!(collect.on_end(), b"one two".to_vec());
    assert_eq!(collect.on_end(), Vec::<u8>::new());
}

#[test]
fn what_a_sink_did_not_take_is_written_next() {
    let chunk = Bytes::from_static(b"0123456789");
    assert_eq!(after_write(chunk.clone(), 0), Some(chunk.clone()));
    assert_eq!(after_write(chunk.clone(), 4), Some(Bytes::from_static(b"456789")));
    assert_eq!(after_write(chunk.clone(), 9), Some(Bytes::from_static(b"9")));
    assert_eq!(after_write(chunk.clone(), 10), None);
    assert_eq!(after_write(chunk, 11), None);
    assert_eq!(after_write(Bytes::new(), 0), None);
}
