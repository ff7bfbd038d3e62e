use backblaze_b2::b2_future::b2_stream::StreamReply;
use backblaze_b2::b2_future::{B2Future, B2Stream, BodyEvent, ExchangeEvent, Reply};
use backblaze_b2::B2Error;
use bytes::Bytes;

fn transport_error() -> hyper::Error {
    let (sender, body) = hyper::Body::channel();
    sender.abort();
    futures::executor::block_on(hyper::body::to_bytes(body)).unwrap_err()
}

fn chunk(bytes: &'static [u8]) -> BodyEvent {
    BodyEvent::Chunk(Bytes::from_static(bytes))
}

#[test]
fn future_collects_the_body_of_a_good_response() {
    let mut fut = B2Future::new();
    assert!(!fut.is_terminated());
    assert!(matches!(fut.poll(), Reply::AskExchange));
    assert!(matches!(fut.on_exchange(ExchangeEvent::Pending), Reply::Pending));
    assert!(matches!(fut.poll(), Reply::AskExchange));
    let head = ExchangeEvent::Response { status: 200, content_length: 11 };
    assert!(matches!(fut.on_exchange(head), Reply::AskBody));
    assert!(matches!(fut.poll(), Reply::AskBody));
    assert!(matches!(fut.on_body(chunk(b"{\"a\":")), Reply::AskBody));
    assert!(matches!(fut.on_body(BodyEvent::Pending), Reply::Pending));
    assert!(matches!(fut.on_body(chunk(b" 17}")), Reply::AskBody));
    assert!(!fut.is_terminated());
    match fut.on_body(BodyEvent::End) {
        Reply::Complete(body) => {
            assert_eq!(body, b"{\"a\": 17}".to_vec());
            let value: serde_json::Value = serde_json::from_slice(&body).unwrap();
            assert_eq!(value.get("a").unwrap().as_u64(), Some(17));
        }
        _ => panic!("the body was not handed out"),
    }
    assert!(fut.is_terminated());
}

#[test]
fn future_hands_out_the_error_body_of_a_bad_response() {
    let mut fut = B2Future::new();
    let head = ExchangeEvent::Response { status: 401, content_length: 0 };
    assert!(matches!(fut.on_exchange(head), Reply::AskBody));
    assert!(matches!(
        fut.on_body(chunk(b"{\"code\":\"bad_auth_token\",")),
        Reply::AskBody
    ));
    assert!(matches!(
        fut.on_body(chunk(b"\"message\":\"Invalid authorization token\",\"status\":401}")),
        Reply::AskBody
    ));
    match fut.on_body(BodyEvent::End) {
        Reply::ApiError { status, body } => {
            assert_eq!(status, 401);
            assert_eq!(
                body,
                b"{\"code\":\"bad_auth_token\",\"message\":\"Invalid authorization token\",\"status\":401}"
                    .to_vec()
            );
        }
        _ => panic!("the error body was not handed out"),
    }
    assert!(fut.is_terminated());
}

#[test]
fn future_fails_when_the_connection_fails() {
    let mut fut = B2Future::new();
    match fut.on_exchange(ExchangeEvent::Failed(transport_error())) {
        Reply::Failed(B2Error::HyperError(_)) => {}
        _ => panic!("no transport error"),
    }
    assert!(fut.is_terminated());

    let mut fut = B2Future::new();
    let head = ExchangeEvent::Response { status: 200, content_length: 1 << 40 };
    assert!(matches!(fut.on_exchange(head), Reply::AskBody));
    assert!(matches!(fut.on_body(chunk(b"[1,")), Reply::AskBody));
    match fut.on_body(BodyEvent::Failed(transport_error())) {
        Reply::Failed(B2Error::HyperError(_)) => {}
        _ => panic!("no transport error"),
    }
    assert!(fut.is_terminated());
}

#[test]
fn future_made_with_an_error_fails_at_once() {
    let mut fut = B2Future::err(B2Error::api("no such call"));
    assert!(!fut.is_terminated());
    match fut.poll() {
        Reply::Failed(B2Error::ApiInconsistency(text)) => assert_eq!(text, "no such call"),
        _ => panic!("the error was not handed out"),
    }
    assert!(fut.is_terminated());
}

/// Takes the elements that are at hand, beginning with `reply`, and gives the first
/// reply that is not an element.
fn items_from(stream: &mut B2Stream, reply: StreamReply, out: &mut Vec<Vec<u8>>) -> StreamReply {
    let mut reply = reply;
    loop {
        match reply {
            StreamReply::Item(item) => out.push(item),
            other => return other,
        }
        reply = stream.poll();
    }
}

fn items(stream: &mut B2Stream, out: &mut Vec<Vec<u8>>) -> StreamReply {
    let reply = stream.poll();
    items_from(stream, reply, out)
}

/// Hands a chunk of the body to the stream and takes the elements that it completes.
fn feed(stream: &mut B2Stream, bytes: &'static [u8], out: &mut Vec<Vec<u8>>) -> StreamReply {
    let reply = stream.on_body(chunk(bytes));
    items_from(stream, reply, out)
}

#[test]
fn stream_hands_out_elements_as_soon_as_they_are_whole() {
    let mut stream = B2Stream::new(100);
    assert!(matches!(stream.poll(), StreamReply::AskExchange));
    let head = ExchangeEvent::Response { status: 200, content_length: 0 };
    assert!(matches!(stream.on_exchange(head), StreamReply::AskBody));
    let mut out = Vec::new();
    assert!(matches!(items(&mut stream, &mut out), StreamReply::AskBody));
    // the first element is handed out by the chunk that completes it
    match stream.on_body(chunk(b"{\"files\": [{\"n\":1}, {\"n\"")) {
        StreamReply::Item(item) => out.push(item),
        _ => panic!("the element was not handed out at once"),
    }
    assert!(matches!(items(&mut stream, &mut out), StreamReply::AskBody));
    assert_eq!(out, vec![b"{\"n\":1}".to_vec()]);
    assert!(matches!(stream.on_body(BodyEvent::Pending), StreamReply::Pending));
    assert!(matches!(
        feed(&mut stream, b":2},{\"n\":3}], \"next\": null}", &mut out),
        StreamReply::AskBody
    ));
    assert_eq!(
        out,
        vec![b"{\"n\":1}".to_vec(), b" {\"n\":2}".to_vec(), b"{\"n\":3}".to_vec()]
    );
    assert!(matches!(stream.on_body(BodyEvent::End), StreamReply::End));
    assert!(!stream.is_terminated());
}

#[test]
fn stream_with_level_one_reads_a_bare_list() {
    let mut stream = B2Stream::with_level(0, 1);
    let head = ExchangeEvent::Response { status: 200, content_length: 0 };
    assert!(matches!(stream.on_exchange(head), StreamReply::AskBody));
    let mut out = Vec::new();
    assert!(matches!(feed(&mut stream, b"[1,2,3,4,5]", &mut out), StreamReply::AskBody));
    let numbers: Vec<u32> = out.iter().map(|b| serde_json::from_slice(b).unwrap()).collect();
    assert_eq!(numbers, [1, 2, 3, 4, 5]);
}

#[test]
fn stream_collects_the_error_of_a_bad_response() {
    let mut stream = B2Stream::new(100);
    let head = ExchangeEvent::Response { status: 400, content_length: 20 };
    assert!(matches!(stream.on_exchange(head), StreamReply::AskBody));
    assert!(matches!(stream.poll(), StreamReply::AskBody));
    assert!(matches!(stream.on_body(chunk(b"{\"code\":\"x\",")), StreamReply::AskBody));
    assert!(matches!(stream.poll(), StreamReply::AskBody));
    assert!(matches!(stream.on_body(chunk(b"\"status\":400}")), StreamReply::AskBody));
    match stream.on_body(BodyEvent::End) {
        StreamReply::ApiError { status, body } => {
            assert_eq!(status, 400);
            assert_eq!(body, b"{\"code\":\"x\",\"status\":400}".to_vec());
        }
        _ => panic!("the error body was not handed out"),
    }
    assert!(stream.is_terminated());
    assert!(matches!(stream.poll(), StreamReply::End));
}

#[test]
fn stream_fails_on_a_body_that_is_no_list() {
    let mut stream = B2Stream::new(0);
    let head = ExchangeEvent::Response { status: 200, content_length: 0 };
    assert!(matches!(stream.on_exchange(head), StreamReply::AskBody));
    let mut out = Vec::new();
    match feed(&mut stream, b"{\"a\":[1,2]}} ", &mut out) {
        StreamReply::Failed(B2Error::ApiInconsistency(text)) => assert_eq!(text, "Invalid json"),
        _ => panic!("no error"),
    }
    assert_eq!(out, vec![b"1".to_vec(), b"2".to_vec()]);
    assert!(stream.is_terminated());
    assert!(matches!(stream.poll(), StreamReply::End));
}

#[test]
fn stream_fails_when_the_connection_fails() {
    let mut stream = B2Stream::new(0);
    match stream.on_exchange(ExchangeEvent::Failed(transport_error())) {
        StreamReply::Failed(B2Error::HyperError(_)) => {}
        _ => panic!("no transport error"),
    }
    assert!(stream.is_terminated());

    let mut stream = B2Stream::new(0);
    let head = ExchangeEvent::Response { status: 200, content_length: 0 };
    assert!(matches!(stream.on_exchange(head), StreamReply::AskBody));
    match stream.on_body(BodyEvent::Failed(transport_error())) {
        StreamReply::Failed(B2Error::HyperError(_)) => {}
        _ => panic!("no transport error"),
    }
    assert!(stream.is_terminated());
}

#[test]
fn stream_made_with_an_error_fails_once_and_ends() {
    let mut stream = B2Stream::err(B2Error::api("bad request"));
    match stream.poll() {
        StreamReply::Failed(B2Error::ApiInconsistency(text)) => assert_eq!(text, "bad request"),
        _ => panic!("the error was not handed out"),
    }
    assert!(stream.is_terminated());
    assert!(matches!(stream.poll(), StreamReply::End));
}

#[test]
fn stream_goes_on_where_a_future_stands() {
    // a future that has collected the beginning of a list
    let mut fut = B2Future::new();
    let head = ExchangeEvent::Response { status: 200, content_length: 0 };
    assert!(matches!(fut.on_exchange(head), Reply::AskBody));
    assert!(matches!(fut.on_body(chunk(b"{\"keys\":[\"a\",\"b")), Reply::AskBody));
    let mut stream = B2Stream::from_b2_future(fut, 10);
    let mut out = Vec::new();
    assert!(matches!(items(&mut stream, &mut out), StreamReply::AskBody));
    assert_eq!(out, vec![b"\"a\"".to_vec()]);
    assert!(matches!(feed(&mut stream, b"\"]}", &mut out), StreamReply::AskBody));
    assert_eq!(out, vec![b"\"a\"".to_vec(), b"\"b\"".to_vec()]);

    // a future that collects an error
    let mut fut = B2Future::new();
    let head = ExchangeEvent::Response { status: 503, content_length: 0 };
    assert!(matches!(fut.on_exchange(head), Reply::AskBody));
    assert!(matches!(fut.on_body(chunk(b"{\"code\":")), Reply::AskBody));
    let mut stream = B2Stream::from_b2_future(fut, 10);
    assert!(matches!(stream.on_body(chunk(b"\"busy\"}")), StreamReply::AskBody));
    match stream.on_body(BodyEvent::End) {
        StreamReply::ApiError { status, body } => {
            assert_eq!(status, 503);
            assert_eq!(body, b"{\"code\":\"busy\"}".to_vec());
        }
        _ => panic!("the error body was not handed out"),
    }

    // a future that has not connected, one that failed, one that is done
    let mut stream = B2Stream::from_b2_future(B2Future::new(), 10);
    assert!(matches!(stream.poll(), StreamReply::AskExchange));
    let mut stream = B2Stream::from_b2_future(B2Future::err(B2Error::api("x")), 10);
    assert!(matches!(stream.poll(), StreamReply::Failed(_)));
    let mut fut = B2Future::err(B2Error::api("x"));
    let _ = fut.poll();
    let mut stream = B2Stream::from_b2_future(fut, 10);
    assert!(stream.is_terminated());
    assert!(matches!(stream.poll(), StreamReply::End));
}
