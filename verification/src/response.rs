//! The response encoder: which body, or which document for which codec,
//! answers a result.

use vstd::prelude::*;
use vstd::string::StrSliceExecFns;
use vstd::utf8::encode_utf8;
use crate::codec::{depth_of, is_structured, label_of, Codec, Depth};
use crate::error::Error;
use crate::outcome::{simplified_all, simplify, Document, ExecutionResult, Success};

verus! {

/// A response as it goes out: a status, the one codec it was written in, and
/// the bytes.
#[derive(Debug, PartialEq, Eq)]
pub struct EncodedResponse {
    pub status: u16,
    pub codec: Codec,
    pub body: Vec<u8>,
}

/// How a result is to be written.
#[derive(Debug, PartialEq)]
pub enum Rendering {
    /// The body is already known: these bytes.
    Body(Vec<u8>),
    /// The body is this document, written in the codec.
    Encode(Document),
}

/// The status of every response that reports no failure.
pub const SUCCESS: u16 = 200;

/// Whether `s` is the report of a sign-in that issued `token`.
pub open spec fn reports_success(s: Success, token: Option<String>) -> bool {
    &&& s.code == SUCCESS
    &&& s.details@ == "Authentication succeeded"@
    &&& s.token == token
}

/// The text of a token; no token gives the empty text.
pub open spec fn token_text(token: Option<String>) -> Seq<char> {
    match token {
        Some(t) => t@,
        None => Seq::empty(),
    }
}

/// Whether `r` is how `result` is written in `codec`.
///
/// Statements go out simplified in the three client codecs and untouched in
/// the internal one; plain text cannot hold them. A sign-in goes out as its
/// report in a structured codec and as the bare token in plain text. The
/// sentinel codec, and a result with nothing to report, give an empty body.
pub open spec fn renders(result: ExecutionResult, codec: Codec, r: Result<Rendering, Error>) -> bool {
    match result {
        ExecutionResult::Statements(statements) => match depth_of(codec) {
            None => r matches Ok(Rendering::Body(b)) && b@.len() == 0,
            Some(Depth::Full) => r matches Ok(Rendering::Encode(Document::Statements(kept)))
                && kept == statements,
            Some(Depth::Simplified) => if is_structured(codec) {
                r matches Ok(Rendering::Encode(Document::Entries(entries))) && entries@
                    == simplified_all(statements@)
            } else {
                r matches Err(e) && e is InternalEncodingFailed
            },
        },
        ExecutionResult::Auth { token } => if is_structured(codec) {
            r matches Ok(Rendering::Encode(Document::Success(s))) && reports_success(s, token)
        } else if codec is Text {
            r matches Ok(Rendering::Body(b)) && b@ == encode_utf8(token_text(token))
        } else {
            r matches Ok(Rendering::Body(b)) && b@.len() == 0
        },
        ExecutionResult::Empty => r matches Ok(Rendering::Body(b)) && b@.len() == 0,
    }
}

/// Decides how a result is written in a codec. Every pair of result and
/// codec has an answer; a pair that cannot be written is an error, never a
/// body made up in its place.
pub fn render(result: ExecutionResult, codec: Codec) -> (r: Result<Rendering, Error>)
    ensures
        renders(result, codec, r),
{
    match result {
        ExecutionResult::Statements(statements) => match codec.depth() {
            None => Ok(Rendering::Body(Vec::new())),
            Some(Depth::Full) => Ok(Rendering::Encode(Document::Statements(statements))),
            Some(Depth::Simplified) => {
                if codec.structured() {
                    Ok(Rendering::Encode(Document::Entries(simplify(statements))))
                } else {
                    Err(Error::InternalEncodingFailed)
                }
            },
        },
        ExecutionResult::Auth { token } => {
            if codec.structured() {
                Ok(Rendering::Encode(Document::Success(Success::new(token))))
            } else {
                match codec {
                    Codec::Text => {
                        let body = match token {
                            Some(t) => t.as_str().as_bytes_vec(),
                            None => {
                                proof {
                                    reveal_with_fuel(encode_utf8, 1);
                                }
                                Vec::new()
                            },
                        };
                        Ok(Rendering::Body(body))
                    },
                    _ => Ok(Rendering::Body(Vec::new())),
                }
            }
        },
        ExecutionResult::Empty => Ok(Rendering::Body(Vec::new())),
    }
}

impl EncodedResponse {
    /// The content type that labels the body; a response without a body has
    /// none.
    pub fn content_type(&self) -> (label: Option<&'static str>)
        ensures
            match label {
                Some(text) => label_of(self.codec) == Some(text@),
                None => label_of(self.codec) is None,
            },
    {
        self.codec.content_type()
    }
}

} // verus!
