//! The error mapper: the failure classes of the pipeline, the transport
//! status of each, and what is reported to the client.

use vstd::prelude::*;
use vstd::string::{StrSliceExecFns, StringSliceAdditionalSpecFns};

verus! {

/// Why a request was not served. Each request ends in at most one of these;
/// nothing is retried.
#[derive(Debug, PartialEq, Eq)]
pub enum Error {
    /// The body is not valid UTF-8, or the credentials are not a JSON object.
    MalformedRequest,
    /// The body is longer than the route allows.
    PayloadTooLarge,
    /// The session does not reach the level that the route requires.
    Unauthorized,
    /// The requested output format is not one that the route offers.
    UnsupportedMediaType,
    /// The datastore or the authentication service failed; its own words
    /// are kept unchanged.
    ExecutionFailed(String),
    /// The encoder could not produce the response body.
    InternalEncodingFailed,
}

/// The class of a failure: what is left of it without the words of a
/// collaborator.
#[derive(Clone, Copy, Debug, PartialEq, Eq, Structural)]
pub enum Class {
    MalformedRequest,
    PayloadTooLarge,
    Unauthorized,
    UnsupportedMediaType,
    ExecutionFailed,
    InternalEncodingFailed,
}

/// What is reported to the client about a failure.
#[derive(Debug, PartialEq, Eq)]
pub struct Message {
    /// The transport status, repeated in the body for machines to read.
    pub code: u16,
    /// A sentence for people to read.
    pub details: String,
    /// The words of the collaborator that failed, if one did.
    pub information: Option<String>,
}

/// The class of each failure.
pub open spec fn class_of(e: Error) -> Class {
    match e {
        Error::MalformedRequest => Class::MalformedRequest,
        Error::PayloadTooLarge => Class::PayloadTooLarge,
        Error::Unauthorized => Class::Unauthorized,
        Error::UnsupportedMediaType => Class::UnsupportedMediaType,
        Error::ExecutionFailed(_) => Class::ExecutionFailed,
        Error::InternalEncodingFailed => Class::InternalEncodingFailed,
    }
}

/// The transport status of each failure class.
pub open spec fn status_of(class: Class) -> u16 {
    match class {
        Class::MalformedRequest => 400,
        Class::PayloadTooLarge => 413,
        Class::Unauthorized => 401,
        Class::UnsupportedMediaType => 415,
        Class::ExecutionFailed => 400,
        Class::InternalEncodingFailed => 500,
    }
}

/// The sentence that describes each failure class.
pub open spec fn details_of(class: Class) -> Seq<char> {
    match class {
        Class::MalformedRequest => "The request body could not be read"@,
        Class::PayloadTooLarge => "The request body is too large"@,
        Class::Unauthorized => "Authentication failed"@,
        Class::UnsupportedMediaType => "Unsupported media type"@,
        Class::ExecutionFailed => "The request could not be carried out"@,
        Class::InternalEncodingFailed => "The response could not be encoded"@,
    }
}

/// The collaborator's own words: present for `ExecutionFailed` alone.
pub open spec fn information_of(e: Error) -> Option<Seq<char>> {
    match e {
        Error::ExecutionFailed(cause) => Some(cause@),
        _ => None,
    }
}

/// Whether `m` is the report of `e`.
pub open spec fn reports(m: Message, e: Error) -> bool {
    &&& m.code == status_of(class_of(e))
    &&& m.details@ == details_of(class_of(e))
    &&& match m.information {
        Some(text) => information_of(e) == Some(text@),
        None => information_of(e) is None,
    }
}

/// The report of a failure class written out in JSON once and for all, for
/// the case that no encoder can be had: its code and its sentence.
pub open spec fn last_resort_of(class: Class) -> Seq<u8> {
    match class {
        Class::MalformedRequest =>
            "{\"code\":400,\"details\":\"The request body could not be read\"}".spec_bytes(),
        Class::PayloadTooLarge =>
            "{\"code\":413,\"details\":\"The request body is too large\"}".spec_bytes(),
        Class::Unauthorized => "{\"code\":401,\"details\":\"Authentication failed\"}".spec_bytes(),
        Class::UnsupportedMediaType =>
            "{\"code\":415,\"details\":\"Unsupported media type\"}".spec_bytes(),
        Class::ExecutionFailed =>
            "{\"code\":400,\"details\":\"The request could not be carried out\"}".spec_bytes(),
        Class::InternalEncodingFailed =>
            "{\"code\":500,\"details\":\"The response could not be encoded\"}".spec_bytes(),
    }
}

impl Class {
    /// The transport status of this class.
    pub fn status(&self) -> (code: u16)
        ensures
            code == status_of(*self),
    {
        match self {
            Class::MalformedRequest => 400,
            Class::PayloadTooLarge => 413,
            Class::Unauthorized => 401,
            Class::UnsupportedMediaType => 415,
            Class::ExecutionFailed => 400,
            Class::InternalEncodingFailed => 500,
        }
    }

    /// The sentence that describes this class.
    pub fn details(&self) -> (text: &'static str)
        ensures
            text@ == details_of(*self),
    {
        match self {
            Class::MalformedRequest => "The request body could not be read",
            Class::PayloadTooLarge => "The request body is too large",
            Class::Unauthorized => "Authentication failed",
            Class::UnsupportedMediaType => "Unsupported media type",
            Class::ExecutionFailed => "The request could not be carried out",
            Class::InternalEncodingFailed => "The response could not be encoded",
        }
    }

    /// The report of this class as JSON bytes that need no encoder.
    pub fn last_resort(&self) -> (body: Vec<u8>)
        ensures
            body@ == last_resort_of(*self),
    {
        let text = match self {
            Class::MalformedRequest =>
                "{\"code\":400,\"details\":\"The request body could not be read\"}",
            Class::PayloadTooLarge => "{\"code\":413,\"details\":\"The request body is too large\"}",
            Class::Unauthorized => "{\"code\":401,\"details\":\"Authentication failed\"}",
            Class::UnsupportedMediaType => "{\"code\":415,\"details\":\"Unsupported media type\"}",
            Class::ExecutionFailed =>
                "{\"code\":400,\"details\":\"The request could not be carried out\"}",
            Class::InternalEncodingFailed =>
                "{\"code\":500,\"details\":\"The response could not be encoded\"}",
        };
        text.as_bytes_vec()
    }
}

impl Error {
    /// The class of this failure.
    pub fn class(&self) -> (class: Class)
        ensures
            class == class_of(*self),
    {
        match self {
            Error::MalformedRequest => Class::MalformedRequest,
            Error::PayloadTooLarge => Class::PayloadTooLarge,
            Error::Unauthorized => Class::Unauthorized,
            Error::UnsupportedMediaType => Class::UnsupportedMediaType,
            Error::ExecutionFailed(_) => Class::ExecutionFailed,
            Error::InternalEncodingFailed => Class::InternalEncodingFailed,
        }
    }

    /// The transport status of this failure.
    pub fn status(&self) -> (code: u16)
        ensures
            code == status_of(class_of(*self)),
    {
        self.class().status()
    }

    /// The report of this failure: its status, its sentence, and for a
    /// failed collaborator the collaborator's words as they came.
    pub fn into_message(self) -> (m: Message)
        ensures
            reports(m, self),
    {
        let class = self.class();
        let information = match self {
            Error::ExecutionFailed(cause) => Some(cause),
            _ => None,
        };
        Message { code: class.status(), details: class.details().to_owned(), information }
    }
}

} // verus!
