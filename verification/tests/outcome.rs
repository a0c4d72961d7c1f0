use request_pipeline::codec::Codec;
use request_pipeline::error::Error;
use request_pipeline::outcome::{
    simplify, Document, Entry, ExecutionResult, QueryKind, Statement, Success,
};
use request_pipeline::response::{render, EncodedResponse, Rendering, SUCCESS};
use surrealdb::sql::Value;

fn ok(time: &str, value: Value) -> Statement {
    Statement { time: String::from(time), kind: QueryKind::Other, result: Ok(value) }
}

fn err(time: &str, detail: &str) -> Statement {
    Statement { time: String::from(time), kind: QueryKind::Other, result: Err(String::from(detail)) }
}

#[test]
fn success_carries_the_token() {
    let s = Success::new(Some(String::from("abc")));
    assert_eq!(s.code, 200);
    assert_eq!(s.details, "Authentication succeeded");
    assert_eq!(s.token, Some(String::from("abc")));
}

#[test]
fn success_without_a_token() {
    assert_eq!(
        Success::new(None),
        Success { code: 200, details: String::from("Authentication succeeded"), token: None }
    );
}

#[test]
fn a_statement_keeps_its_value_when_simplified() {
    let s = Statement {
        time: String::from("12.5µs"),
        kind: QueryKind::Live,
        result: Ok(Value::from(1)),
    };
    let e = s.simplify();
    assert_eq!(e, Entry::Success { time: String::from("12.5µs"), result: Value::from(1) });
    assert_eq!(e.status(), "OK");
}

#[test]
fn a_failed_statement_keeps_its_words_when_simplified() {
    let s = err("3ms", "Parse error on line 1");
    let e = s.simplify();
    assert_eq!(
        e,
        Entry::Failure { time: String::from("3ms"), detail: String::from("Parse error on line 1") }
    );
    assert_eq!(e.status(), "ERR");
}

#[test]
fn simplify_keeps_every_statement_in_order() {
    let entries = simplify(vec![
        ok("1ms", Value::from("a")),
        err("2ms", "no such table"),
        ok("3ms", Value::from(3)),
    ]);
    assert_eq!(
        entries,
        vec![
            Entry::Success { time: String::from("1ms"), result: Value::from("a") },
            Entry::Failure { time: String::from("2ms"), detail: String::from("no such table") },
            Entry::Success { time: String::from("3ms"), result: Value::from(3) },
        ]
    );
}

#[test]
fn simplify_of_nothing_is_nothing() {
    assert_eq!(simplify(Vec::new()), Vec::new());
}

#[test]
fn statements_are_simplified_for_client_codecs() {
    for codec in [Codec::Json, Codec::BinaryCompact, Codec::BinaryPack] {
        let r = render(
            ExecutionResult::Statements(vec![ok("1ms", Value::from(1)), err("2ms", "bad")]),
            codec,
        );
        assert_eq!(
            r,
            Ok(Rendering::Encode(Document::Entries(vec![
                Entry::Success { time: String::from("1ms"), result: Value::from(1) },
                Entry::Failure { time: String::from("2ms"), detail: String::from("bad") },
            ])))
        );
    }
}

#[test]
fn statements_stay_whole_for_the_internal_codec() {
    let r = render(
        ExecutionResult::Statements(vec![ok("1ms", Value::from(1)), err("2ms", "bad")]),
        Codec::Internal,
    );
    assert_eq!(
        r,
        Ok(Rendering::Encode(Document::Statements(vec![
            ok("1ms", Value::from(1)),
            err("2ms", "bad"),
        ])))
    );
}

#[test]
fn statements_have_no_plain_text() {
    let r = render(ExecutionResult::Statements(vec![ok("1ms", Value::from(1))]), Codec::Text);
    assert_eq!(r, Err(Error::InternalEncodingFailed));
}

#[test]
fn the_sentinel_writes_nothing() {
    let r = render(ExecutionResult::Statements(vec![ok("1ms", Value::from(1))]), Codec::NoBody);
    assert_eq!(r, Ok(Rendering::Body(Vec::new())));
    let r = render(ExecutionResult::Auth { token: Some(String::from("t")) }, Codec::NoBody);
    assert_eq!(r, Ok(Rendering::Body(Vec::new())));
}

#[test]
fn a_sign_in_is_reported_in_structured_codecs() {
    for codec in [Codec::Json, Codec::BinaryCompact, Codec::BinaryPack, Codec::Internal] {
        let r = render(ExecutionResult::Auth { token: Some(String::from("tok")) }, codec);
        assert_eq!(
            r,
            Ok(Rendering::Encode(Document::Success(Success {
                code: 200,
                details: String::from("Authentication succeeded"),
                token: Some(String::from("tok")),
            })))
        );
    }
}

#[test]
fn a_sign_in_in_plain_text_is_the_token() {
    let r = render(ExecutionResult::Auth { token: Some(String::from("t\u{00f8}k")) }, Codec::Text);
    assert_eq!(r, Ok(Rendering::Body(vec![0x74, 0xc3, 0xb8, 0x6b])));
    let r = render(ExecutionResult::Auth { token: None }, Codec::Text);
    assert_eq!(r, Ok(Rendering::Body(Vec::new())));
}

#[test]
fn an_empty_result_has_an_empty_body() {
    for codec in [
        Codec::Json,
        Codec::BinaryCompact,
        Codec::BinaryPack,
        Codec::Internal,
        Codec::Text,
        Codec::NoBody,
    ] {
        assert_eq!(render(ExecutionResult::Empty, codec), Ok(Rendering::Body(Vec::new())));
    }
}

#[test]
fn a_response_is_labelled_by_its_codec() {
    let r = EncodedResponse { status: SUCCESS, codec: Codec::BinaryPack, body: vec![0x90] };
    assert_eq!(r.content_type(), Some("application/pack"));
    let r = EncodedResponse { status: SUCCESS, codec: Codec::NoBody, body: Vec::new() };
    assert_eq!(r.content_type(), None);
    assert_eq!(SUCCESS, 200);
}
