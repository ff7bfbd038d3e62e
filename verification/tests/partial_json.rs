use backblaze_b2::partial_json::PartialJson;
use bytes::Bytes;

fn decode_u32(span: &[u8]) -> u32 {
    serde_json::from_slice(span).unwrap()
}

fn decode_list(span: &[u8]) -> Vec<u32> {
    serde_json::from_slice(span).unwrap()
}

#[derive(Eq, PartialEq, Debug)]
struct Item {
    a: String,
    b: Vec<u32>,
}

fn decode_item(span: &[u8]) -> Item {
    let value: serde_json::Value = serde_json::from_slice(span).unwrap();
    let a = value.get("a").unwrap().as_str().unwrap().to_string();
    let b = value
        .get("b")
        .unwrap()
        .as_array()
        .unwrap()
        .iter()
        .map(|n| n.as_u64().unwrap() as u32)
        .collect();
    Item { a, b }
}

#[test]
fn partial_json_test() {
    const JSON: &'static str = "[1, 2, 3, 4, 5]";
    let mut json = PartialJson::new(100, 1);
    json.push(&Bytes::from_static(JSON.as_bytes()));
    let mut res = Vec::new();
    while let Some(next) = json.next().unwrap() {
        res.push(decode_u32(&next));
    }
    assert_eq!(res, [1, 2, 3, 4, 5]);
}

#[test]
fn partial_json_test_object() {
    const JSON: &'static str = "{list: [1, 2, 3, 4, 5]}";
    let mut json = PartialJson::new(100, 2);
    json.push(&Bytes::from_static(JSON.as_bytes()));
    let mut res = Vec::new();
    while let Some(next) = json.next().unwrap() {
        res.push(decode_u32(&next));
    }
    assert_eq!(res, [1, 2, 3, 4, 5]);
}

#[test]
fn partial_json_test_big_item() {
    const JSON: &'static str = r#"{list: [
                { "a": "test", "b": [1, 2]},
                { "a": "test2", "b": [3, 4]}
            ]}"#;
    let mut json = PartialJson::new(100, 2);
    json.push(&Bytes::from_static(JSON.as_bytes()));
    let mut res = Vec::new();
    while let Some(next) = json.next().unwrap() {
        res.push(decode_item(&next));
    }
    assert_eq!(
        res,
        [
            Item {
                a: "test".into(),
                b: vec![1, 2],
            },
            Item {
                a: "test2".into(),
                b: vec![3, 4],
            }
        ]
    );
}

#[test]
fn partial_json_test_list() {
    const JSON: &'static str = "[[1,2,3],[1,2,3],[3,2,1]]";
    for i in 1..JSON.len() {
        let mut json = PartialJson::new(0, 1);
        let mut res = Vec::new();

        json.push(&Bytes::from_static(&JSON.as_bytes()[..i]));
        while let Some(next) = json.next().unwrap() {
            res.push(decode_list(&next));
        }
        json.push(&Bytes::from_static(&JSON.as_bytes()[i..]));
        while let Some(next) = json.next().unwrap() {
            res.push(decode_list(&next));
        }
        assert_eq!(res, [vec![1, 2, 3], vec![1, 2, 3], vec![3, 2, 1]]);
    }
}

#[test]
fn empty_json() {
    const JSON: &'static str = "{[ \n]}";
    for i in 1..JSON.len() {
        let mut json = PartialJson::new(0, 2);
        let mut res: Vec<Vec<u8>> = Vec::new();

        json.push(&Bytes::from_static(&JSON.as_bytes()[..i]));
        while let Some(next) = json.next().unwrap() {
            res.push(next);
        }
        json.push(&Bytes::from_static(&JSON.as_bytes()[i..]));
        while let Some(next) = json.next().unwrap() {
            res.push(next);
        }
        assert_eq!(res.len(), 0);
    }
}

fn drain(json: &mut PartialJson, out: &mut Vec<Vec<u8>>) -> bool {
    loop {
        match json.next() {
            Ok(Some(span)) => out.push(span),
            Ok(None) => return true,
            Err(_) => return false,
        }
    }
}

fn spans_at_once(body: &'static [u8], level: u32) -> (Vec<Vec<u8>>, bool) {
    let mut json = PartialJson::new(0, level);
    let mut out = Vec::new();
    json.push(&Bytes::from_static(body));
    let ok = drain(&mut json, &mut out);
    (out, ok)
}

#[test]
fn every_split_in_three_gives_the_same_elements() {
    const BODY: &'static [u8] = b"{\"files\": [{\"a\": \"x]\\\"}\"}, [1, [2]], 3 , \"q,\"], \"n\": null}";
    let (whole, ok) = spans_at_once(BODY, 2);
    assert!(ok);
    assert_eq!(
        whole,
        vec![
            b"{\"a\": \"x]\\\"}\"}".to_vec(),
            b" [1, [2]]".to_vec(),
            b" 3 ".to_vec(),
            b" \"q,\"".to_vec()
        ]
    );
    for i in 0..=BODY.len() {
        for j in i..=BODY.len() {
            let mut json = PartialJson::new(0, 2);
            let mut out = Vec::new();
            json.push(&Bytes::from_static(&BODY[..i]));
            assert!(drain(&mut json, &mut out));
            json.push(&Bytes::from_static(&BODY[i..j]));
            assert!(drain(&mut json, &mut out));
            json.push(&Bytes::from_static(&BODY[j..]));
            assert!(drain(&mut json, &mut out));
            assert_eq!(out, whole);
        }
    }
}

#[test]
fn lone_closing_bracket_is_an_error() {
    let mut json = PartialJson::new(0, 1);
    json.push(&Bytes::from_static(b"]"));
    match json.next() {
        Err(backblaze_b2::B2Error::ApiInconsistency(text)) => assert_eq!(text, "Invalid json"),
        other => panic!("unexpected: {:?}", other),
    }
    // the byte is gone: the decoder waits for more
    assert!(matches!(json.next(), Ok(None)));
}

#[test]
fn lone_closing_brace_is_an_error() {
    let mut json = PartialJson::new(0, 2);
    json.push(&Bytes::from_static(b"  }"));
    assert!(json.next().is_err());
}

#[test]
fn invalid_byte_after_elements_in_any_split() {
    const BODY: &'static [u8] = b"[1,2]]3";
    let (whole, ok) = spans_at_once(BODY, 1);
    assert!(!ok);
    assert_eq!(whole, vec![b"1".to_vec(), b"2".to_vec()]);
    for i in 0..=BODY.len() {
        let mut json = PartialJson::new(0, 1);
        let mut out = Vec::new();
        json.push(&Bytes::from_static(&BODY[..i]));
        let mut ok = drain(&mut json, &mut out);
        if ok {
            json.push(&Bytes::from_static(&BODY[i..]));
            ok = drain(&mut json, &mut out);
        }
        assert!(!ok);
        assert_eq!(out, whole);
    }
}

#[test]
fn nothing_comes_out_before_the_element_ends() {
    let mut json = PartialJson::new(0, 1);
    json.push(&Bytes::from_static(b"[ 12"));
    assert!(matches!(json.next(), Ok(None)));
    json.push(&Bytes::from_static(b"3"));
    assert!(matches!(json.next(), Ok(None)));
    json.push(&Bytes::from_static(b","));
    assert_eq!(json.next().unwrap(), Some(b" 123".to_vec()));
    assert!(matches!(json.next(), Ok(None)));
}

#[test]
fn empty_list_then_list_of_two() {
    let (spans, ok) = spans_at_once(b"{\"a\":[],\"b\":[1,2]}", 2);
    assert!(ok);
    assert_eq!(spans, vec![b"1".to_vec(), b"2".to_vec()]);
}

#[test]
fn empty_object_at_level_one_has_no_element() {
    let (spans, ok) = spans_at_once(b"{}", 1);
    assert!(ok);
    assert_eq!(spans.len(), 0);
    let (spans, ok) = spans_at_once(b"[]", 1);
    assert!(ok);
    assert_eq!(spans.len(), 0);
}

#[test]
fn brackets_inside_strings_do_not_count() {
    let (spans, ok) = spans_at_once(b"[\"]\",\"\\\\\",\"[\"]", 1);
    assert!(ok);
    assert_eq!(
        spans,
        vec![b"\"]\"".to_vec(), b"\"\\\\\"".to_vec(), b"\"[\"".to_vec()]
    );
}

#[test]
fn whitespace_bytes_are_those_of_char() {
    for b in 0u8..=255 {
        assert_eq!(
            backblaze_b2::partial_json::is_whitespace_byte(b),
            (b as char).is_whitespace()
        );
    }
}

#[test]
fn white_space_keeps_a_list_fresh_and_other_bytes_do_not() {
    // a list that holds only white space is empty
    let (spans, ok) = spans_at_once(b"[ \t\r\n]", 1);
    assert!(ok);
    assert_eq!(spans.len(), 0);
    // one that holds a value is not
    let (spans, ok) = spans_at_once(b"[ 7 ]", 1);
    assert!(ok);
    assert_eq!(spans, vec![b" 7 ".to_vec()]);
}
