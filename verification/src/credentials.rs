//! Sign-in credentials: a JSON object, read by the datastore's own parser.

use vstd::prelude::*;
use vstd::string::StringSliceAdditionalSpecFns;
use vstd::utf8::{
    decode_utf8, encode_utf8_valid_utf8, is_leading_byte_width_1, length_of_first_scalar,
    pop_first_scalar, valid_first_scalar, valid_utf8,
};
use surrealdb::sql::Object;
use crate::body::decode_text;
use crate::error::Error;

verus! {

/// `surrealdb::sql::Object`, the datastore's map from field names to values.
/// Verus sees nothing inside it; the pipeline only carries it.
#[verifier::external_type_specification]
#[verifier::external_body]
pub struct ExObject(surrealdb::sql::Object);

/// `surrealdb::sql::Value`, the datastore's value. It is declared because an
/// `Object` holds values; the pipeline never looks at one.
#[verifier::external_type_specification]
#[verifier::external_body]
pub struct ExValue(surrealdb::sql::Value);

/// The byte of a line feed.
pub const LINE_FEED: u8 = 0x0A;

/// The byte of a space.
pub const SPACE: u8 = 0x20;

/// Whether the bytes hold no line feed.
pub open spec fn is_one_line(bytes: Seq<u8>) -> bool {
    forall|i: int| 0 <= i < bytes.len() ==> bytes[i] != LINE_FEED
}

/// The bytes with a space in the place of every line feed. Between the
/// tokens of JSON the two mean the same, and inside a string JSON allows no
/// line feed, so a JSON text says on one line what it said on many.
pub open spec fn on_one_line(bytes: Seq<u8>) -> Seq<u8> {
    bytes.map_values(
        |b: u8|
            if b == LINE_FEED {
                SPACE
            } else {
                b
            },
    )
}

/// Whether the datastore's JSON parser reads `text` as one object and
/// nothing else. Which object it reads is not said: an object can hold
/// values that the parser makes up afresh at every reading.
pub uninterp spec fn reads_object(text: Seq<char>) -> bool;

/// Whether a body of valid UTF-8 holds the fields of a sign-in: put on one
/// line, the parser reads it as one object.
pub open spec fn holds_object(body: Seq<u8>) -> bool {
    reads_object(decode_utf8(on_one_line(body)))
}

/// `surrealdb::sql::json`: parses the text as one JSON value. The object is
/// handed on if the value is one; a value of another kind and a text that
/// does not parse both give nothing.
///
/// Whether a text reads as an object depends on the text and on the build
/// of the datastore's crate: the parser's one piece of state, a count of how
/// deep it has gone, is reset at every call, and the depth at which it
/// gives up is fixed when that crate is built.
///
/// A text of several lines is left out. When the parser fails it renders the
/// line of the failure, and on a line that begins with white space that
/// rendering can subtract below zero, which a build that checks its
/// arithmetic answers with a panic. Of a text on one line the parser trims
/// the white space at the start before it begins, so there it cannot.
#[verifier::external_body]
fn parse_object(text: &str) -> (parsed: Option<Object>)
    requires
        is_one_line(text.spec_bytes()),
    ensures
        parsed is Some <==> reads_object(text@),
{
    match surrealdb::sql::json(text) {
        Ok(surrealdb::sql::Value::Object(vars)) => Some(vars),
        Ok(_) => None,
        Err(_) => None,
    }
}

/// Putting valid UTF-8 on one line leaves it valid: a line feed is a
/// character of one byte, and so is the space that takes its place.
pub proof fn lemma_one_line_stays_utf8(bytes: Seq<u8>)
    requires
        valid_utf8(bytes),
    ensures
        valid_utf8(on_one_line(bytes)),
    decreases bytes.len(),
{
    let line = on_one_line(bytes);
    if bytes.len() != 0 {
        assert(valid_first_scalar(bytes));
        let n = length_of_first_scalar(bytes);
        assert(1 <= n <= bytes.len());
        assert((0x20u8 & 0x7F) == 0x20u8) by (bit_vector);
        assert(forall|k: int| 0 <= k < n ==> #[trigger] line[k] == if bytes[k] == LINE_FEED {
            SPACE
        } else {
            bytes[k]
        });
        if !is_leading_byte_width_1(bytes[0]) {
            assert(forall|k: int| 0 <= k < n ==> #[trigger] line[k] == bytes[k]);
        }
        assert(valid_first_scalar(line));
        assert(length_of_first_scalar(line) == n);
        assert(pop_first_scalar(line) =~= on_one_line(pop_first_scalar(bytes)));
        lemma_one_line_stays_utf8(pop_first_scalar(bytes));
    }
}

/// Puts bytes on one line.
pub fn flatten(bytes: &[u8]) -> (line: Vec<u8>)
    ensures
        line@ == on_one_line(bytes@),
        is_one_line(line@),
{
    let mut line: Vec<u8> = Vec::new();
    let mut i: usize = 0;
    while i < bytes.len()
        invariant
            i <= bytes.len(),
            line@.len() == i,
            forall|k: int| 0 <= k < i ==> line@[k] == on_one_line(bytes@)[k],
        decreases bytes.len() - i,
    {
        let b: u8 = bytes[i];
        if b == LINE_FEED {
            line.push(SPACE);
        } else {
            line.push(b);
        }
        i += 1;
    }
    assert(line@ =~= on_one_line(bytes@));
    line
}

/// The fields that a caller signs in with.
#[derive(Debug, PartialEq)]
pub struct Credentials {
    pub vars: Object,
}

impl Credentials {
    /// Accepts what the parser found: an object becomes the credentials, and
    /// anything else is a malformed request. Nothing is coerced.
    pub fn from_parsed(parsed: Option<Object>) -> (r: Result<Credentials, Error>)
        ensures
            match parsed {
                Some(vars) => r == Ok::<Credentials, Error>(Credentials { vars }),
                None => r == Err::<Credentials, Error>(Error::MalformedRequest),
            },
    {
        match parsed {
            Some(vars) => Ok(Credentials { vars }),
            None => Err(Error::MalformedRequest),
        }
    }

    /// Reads credentials from the text of a body. The text is put on one
    /// line and handed to the parser; the credentials are the object that
    /// the parser reads there, and a text in which it reads none is a
    /// malformed request.
    pub fn read(text: &str) -> (r: Result<Credentials, Error>)
        ensures
            r is Ok <==> holds_object(text.spec_bytes()),
            r matches Err(e) ==> e is MalformedRequest,
    {
        let line = flatten(text.as_bytes());
        proof {
            encode_utf8_valid_utf8(text@);
            lemma_one_line_stays_utf8(text.spec_bytes());
        }
        match decode_text(line.as_slice()) {
            Ok(flat) => Credentials::from_parsed(parse_object(flat)),
            Err(e) => Err(e),
        }
    }

    /// Gives the fields up, to be handed to the authentication service.
    pub fn into_vars(self) -> (vars: Object)
        ensures
            vars == self.vars,
    {
        self.vars
    }
}

} // verus!
