use std::borrow::Cow;

use safejaq::engine::{refusal, Refused};
use safejaq::wire::{decode_result, encode_result};
use safejaq::EvaluationRequest;
use serde_json::Value;

fn encode_request(filter: &str, payload: &Value) -> String {
    let borrowed = safejaq::wire::encode_request(&EvaluationRequest {
        filter: Cow::Borrowed(filter),
        payload: Cow::Borrowed(payload),
    });
    let owned = safejaq::wire::encode_request(&EvaluationRequest {
        filter: Cow::Owned(filter.to_owned()),
        payload: Cow::Owned(payload.clone()),
    });
    assert_eq!(borrowed, owned);
    borrowed
}

fn parse(text: &str) -> Value {
    serde_json::from_str(text).unwrap()
}

#[test]
fn request_is_one_object_with_two_fields() {
    let payload = parse("{\"user_id\": \"liron\"}");
    assert_eq!(
        encode_request(".user_id", &payload),
        "{\"filter\":\".user_id\",\"payload\":{\"user_id\":\"liron\"}}"
    );
    assert_eq!(encode_request("", &Value::Null), "{\"filter\":\"\",\"payload\":null}");
}

#[test]
fn request_escapes_the_filter() {
    let text = encode_request("test(\"^a\\\\d+$\")\n", &parse("[1, true, \"x\"]"));
    assert_eq!(
        text,
        "{\"filter\":\"test(\\\"^a\\\\\\\\d+$\\\")\\n\",\"payload\":[1,true,\"x\"]}"
    );
    let back = parse(&text);
    assert_eq!(back["filter"], Value::String("test(\"^a\\\\d+$\")\n".to_owned()));
    assert_eq!(back["payload"], parse("[1, true, \"x\"]"));
}

#[test]
fn request_reads_back_as_it_was_written() {
    let payload = parse("{\"a\": [1, 2.5, null], \"b\": {\"c\": \"d\\u00e9\"}}");
    let text = encode_request("(.a // \"\") | test(\"x\")", &payload);
    let back = parse(&text);
    let fields = back.as_object().unwrap();
    assert_eq!(fields.len(), 2);
    assert_eq!(fields["filter"], Value::String("(.a // \"\") | test(\"x\")".to_owned()));
    assert_eq!(fields["payload"], payload);
}

#[test]
fn result_text_is_exact() {
    assert_eq!(encode_result(&Ok(true)), "{\"Ok\":true}");
    assert_eq!(encode_result(&Ok(false)), "{\"Ok\":false}");
    assert_eq!(encode_result(&Err("bad".to_owned())), "{\"Err\":\"bad\"}");
    assert_eq!(
        encode_result(&Err("a \"b\"\n\\".to_owned())),
        "{\"Err\":\"a \\\"b\\\"\\n\\\\\"}"
    );
}

#[test]
fn result_text_is_what_serde_json_writes() {
    for result in [
        Ok(true),
        Ok(false),
        Err(String::new()),
        Err("failed to parse the filter: [(File { code: \"x\" })]".to_owned()),
        Err("tab\there, \u{1} and \u{e9}\u{1f600}".to_owned()),
    ] {
        assert_eq!(encode_result(&result), serde_json::to_string(&result).unwrap());
    }
}

#[test]
fn result_reads_back_as_it_was_written() {
    for result in [
        Ok(true),
        Ok(false),
        Err(String::new()),
        Err("quote \" backslash \\ newline \n".to_owned()),
    ] {
        let text = encode_result(&result);
        assert_eq!(decode_result(text.as_bytes()), Ok(result));
    }
}

#[test]
fn result_is_read_with_blanks() {
    assert_eq!(decode_result(b" { \"Ok\" : true } \n"), Ok(Ok(true)));
    assert_eq!(decode_result(b"{\"Err\":\"x\"}"), Ok(Err("x".to_owned())));
}

#[test]
fn malformed_result_is_an_error() {
    for bytes in [
        &b""[..],
        b"true",
        b"{\"Ok\":1}",
        b"{\"Ok\":true",
        b"{\"Maybe\":true}",
        b"{\"Err\":false}",
        b"{\"Ok\":true}{\"Ok\":true}",
        b"\xff\xfe",
    ] {
        let fault = decode_result(bytes).unwrap_err();
        assert!(!fault.is_empty());
    }
}

#[test]
fn refusal_travels_inside_a_result() {
    let result = Err(refusal(Refused::Loading, "[(File { code: \"x\", path: () }, Lex([]))]"));
    let text = encode_result(&result);
    assert!(text.starts_with("{\"Err\":\"failed to parse the filter: "), "{text}");
    assert_eq!(decode_result(text.as_bytes()), Ok(result));
}
