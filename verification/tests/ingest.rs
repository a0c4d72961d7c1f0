use bytes::Bytes;
use request_pipeline::body::{announce, decode_text, take_in};
use request_pipeline::credentials::{flatten, Credentials};
use request_pipeline::error::Error;

#[test]
fn a_declared_length_is_held_to_the_limit() {
    assert_eq!(announce(None, 0), Ok(()));
    assert_eq!(announce(Some(0), 0), Ok(()));
    assert_eq!(announce(Some(1024), 1024), Ok(()));
    assert_eq!(announce(Some(1025), 1024), Err(Error::PayloadTooLarge));
    assert_eq!(announce(Some(4294967296), 4294967296), Ok(()));
    assert_eq!(announce(Some(4294967297), 4294967296), Err(Error::PayloadTooLarge));
    assert_eq!(announce(Some(u64::MAX), 4294967296), Err(Error::PayloadTooLarge));
}

#[test]
fn pieces_are_taken_in_up_to_the_limit() {
    let mut buffer = Vec::new();
    assert_eq!(take_in(&mut buffer, &Bytes::from_static(b"abc"), 5), Ok(()));
    assert_eq!(buffer, b"abc");
    assert_eq!(take_in(&mut buffer, &Bytes::new(), 5), Ok(()));
    assert_eq!(buffer, b"abc");
    assert_eq!(take_in(&mut buffer, &Bytes::from_static(b"de"), 5), Ok(()));
    assert_eq!(buffer, b"abcde");
    assert_eq!(take_in(&mut buffer, &Bytes::new(), 5), Ok(()));
    assert_eq!(buffer, b"abcde");
}

#[test]
fn a_piece_over_the_limit_is_left_out() {
    let mut buffer = b"abc".to_vec();
    assert_eq!(take_in(&mut buffer, &Bytes::from_static(b"def"), 5), Err(Error::PayloadTooLarge));
    assert_eq!(buffer, b"abc");
    let mut buffer = Vec::new();
    assert_eq!(take_in(&mut buffer, &Bytes::from_static(b"a"), 0), Err(Error::PayloadTooLarge));
    assert!(buffer.is_empty());
    let mut buffer = Vec::new();
    assert_eq!(take_in(&mut buffer, &Bytes::from(vec![7u8; 1025]), 1024), Err(Error::PayloadTooLarge));
    assert!(buffer.is_empty());
    assert_eq!(take_in(&mut buffer, &Bytes::from(vec![7u8; 1024]), 1024), Ok(()));
    assert_eq!(buffer.len(), 1024);
}

#[test]
fn an_oversize_piece_is_refused_even_if_it_is_not_text() {
    let mut buffer = Vec::new();
    assert_eq!(take_in(&mut buffer, &Bytes::from(vec![0xffu8; 2000]), 1024), Err(Error::PayloadTooLarge));
}

#[test]
fn a_buffer_that_is_already_over_the_limit_takes_nothing() {
    let mut buffer = b"abcdef".to_vec();
    assert_eq!(take_in(&mut buffer, &Bytes::new(), 5), Err(Error::PayloadTooLarge));
    assert_eq!(buffer, b"abcdef");
}

#[test]
fn valid_utf8_is_read_as_it_is() {
    assert_eq!(decode_text(b"SELECT 1;"), Ok("SELECT 1;"));
    assert_eq!(decode_text(b""), Ok(""));
    assert_eq!(decode_text(&[0x68, 0xc3, 0xa9, 0xe2, 0x82, 0xac, 0xf0, 0x9f, 0x98, 0x80]), Ok("h\u{00e9}\u{20ac}\u{1f600}"));
}

#[test]
fn invalid_utf8_is_malformed() {
    assert_eq!(decode_text(&[0xff]), Err(Error::MalformedRequest));
    assert_eq!(decode_text(&[0x61, 0x80]), Err(Error::MalformedRequest));
    assert_eq!(decode_text(&[0xc3]), Err(Error::MalformedRequest));
    assert_eq!(decode_text(&[0xc0, 0x80]), Err(Error::MalformedRequest));
    assert_eq!(decode_text(&[0xed, 0xa0, 0x80]), Err(Error::MalformedRequest));
    assert_eq!(decode_text(&[0xf4, 0x90, 0x80, 0x80]), Err(Error::MalformedRequest));
}

#[test]
fn an_object_is_read_as_credentials() {
    let c = Credentials::read("{\"user\":\"root\",\"pass\":\"wrong\"}").unwrap();
    let vars = c.into_vars();
    assert_eq!(vars.len(), 2);
    assert_eq!(vars.get("user"), Some(&surrealdb::sql::Value::from("root")));
    assert_eq!(vars.get("pass"), Some(&surrealdb::sql::Value::from("wrong")));
}

#[test]
fn an_empty_object_is_read_as_credentials() {
    let c = Credentials::read(" {} ").unwrap();
    assert_eq!(c.into_vars().len(), 0);
}

#[test]
fn anything_but_an_object_is_malformed() {
    assert_eq!(Credentials::read("\"hello\""), Err(Error::MalformedRequest));
    assert_eq!(Credentials::read("[1, 2]"), Err(Error::MalformedRequest));
    assert_eq!(Credentials::read("42"), Err(Error::MalformedRequest));
    assert_eq!(Credentials::read("null"), Err(Error::MalformedRequest));
    assert_eq!(Credentials::read(""), Err(Error::MalformedRequest));
    assert_eq!(Credentials::read("{\"user\":"), Err(Error::MalformedRequest));
    assert_eq!(Credentials::read("{} trailing"), Err(Error::MalformedRequest));
}

#[test]
fn what_the_parser_found_decides() {
    let mut vars = surrealdb::sql::Object::default();
    vars.insert(String::from("user"), surrealdb::sql::Value::from("root"));
    assert_eq!(
        Credentials::from_parsed(Some(vars.clone())),
        Ok(Credentials { vars })
    );
    assert_eq!(Credentials::from_parsed(None), Err(Error::MalformedRequest));
}

#[test]
fn line_feeds_become_spaces() {
    assert_eq!(flatten(b""), b"");
    assert_eq!(flatten(b"{}"), b"{}");
    assert_eq!(flatten(b"\n"), b" ");
    assert_eq!(flatten(b"{\n  \"a\": 1\r\n}\n"), b"{   \"a\": 1\r } ");
    assert_eq!(flatten(&[0x0a, 0xc3, 0xa9, 0x0a, 0xe2, 0x82, 0xac]), [0x20, 0xc3, 0xa9, 0x20, 0xe2, 0x82, 0xac]);
}

#[test]
fn credentials_may_span_lines() {
    let c = Credentials::read("{\n            \"user\": \"root\",\n            \"pass\": \"root\"\n}\n").unwrap();
    let vars = c.into_vars();
    assert_eq!(vars.len(), 2);
    assert_eq!(vars.get("user"), Some(&surrealdb::sql::Value::from("root")));
    assert_eq!(vars.get("pass"), Some(&surrealdb::sql::Value::from("root")));
}

#[test]
fn a_failure_far_along_an_indented_line_is_malformed() {
    let mut text = String::from("{\n            \"a\":\"");
    text.push_str(&"x".repeat(50));
    text.push_str("\\u0000\"}");
    assert_eq!(Credentials::read(&text), Err(Error::MalformedRequest));
    let mut text = String::from("{\n   ");
    text.push_str(&" ".repeat(60));
    text.push_str("?}");
    assert_eq!(Credentials::read(&text), Err(Error::MalformedRequest));
    assert_eq!(Credentials::read("{\n      \n"), Err(Error::MalformedRequest));
}

#[test]
fn an_object_with_made_up_values_is_still_an_object() {
    let text = "{\"a\":t:[(DEFINE USER u ON ROOT PASSWORD 'p')]}";
    assert!(Credentials::read(text).is_ok());
    assert!(Credentials::read(text).is_ok());
}
