//! The body ingestor: a request body is taken in piece by piece and held to
//! the route's limit before anything reads it, and it is read as text only
//! if it is valid UTF-8.

use vstd::prelude::*;
use vstd::string::StringSliceAdditionalSpecFns;
use vstd::utf8::{decode_utf8, encode_utf8_decode_utf8, valid_utf8};
use bytes::Bytes;
use crate::error::Error;

verus! {

/// `bytes::Bytes`, the buffer in which a piece of a request body arrives.
/// Verus sees nothing inside it; what it holds goes by the name `contents`.
#[verifier::external_type_specification]
#[verifier::external_body]
pub struct ExBytes(bytes::Bytes);

/// The bytes that a buffer holds, in order.
pub uninterp spec fn contents(chunk: Bytes) -> Seq<u8>;

/// `Bytes::as_ref`: the buffer's bytes as a slice, none added, none left out.
#[verifier::external_body]
fn bytes_of(chunk: &Bytes) -> (slice: &[u8])
    ensures
        slice@ == contents(*chunk),
{
    chunk.as_ref()
}

/// `core::str::from_utf8`: the bytes as a string slice if they are valid
/// UTF-8, and nothing if they are not. The slice is made of the same bytes.
#[verifier::external_body]
fn utf8_text(bytes: &[u8]) -> (text: Option<&str>)
    ensures
        text is Some <==> valid_utf8(bytes@),
        text matches Some(s) ==> s.spec_bytes() == bytes@,
{
    match core::str::from_utf8(bytes) {
        Ok(text) => Some(text),
        Err(_) => None,
    }
}

/// Whether a body of `len` bytes is within a limit of `max` bytes.
pub open spec fn fits(len: nat, max: u64) -> bool {
    len <= max
}

/// Whether a body may be taken in, going by the length that its sender
/// declares. A sender that declares none is given the benefit of the doubt:
/// its body is measured as it arrives.
pub open spec fn declared_fits(declared: Option<u64>, max: u64) -> bool {
    match declared {
        Some(len) => len <= max,
        None => true,
    }
}

/// Judges a body by its declared length, before any of it is taken in.
pub fn announce(declared: Option<u64>, max: u64) -> (r: Result<(), Error>)
    ensures
        r is Ok <==> declared_fits(declared, max),
        r matches Err(e) ==> e is PayloadTooLarge,
{
    match declared {
        Some(len) => if len <= max {
            Ok(())
        } else {
            Err(Error::PayloadTooLarge)
        },
        None => Ok(()),
    }
}

/// Takes in one more piece of a body. The piece is added to what was
/// buffered if the whole stays within the limit; if not, nothing is added.
/// No byte is read for its meaning.
pub fn take_in(buffer: &mut Vec<u8>, chunk: &Bytes, max: u64) -> (r: Result<(), Error>)
    ensures
        r is Ok <==> fits(old(buffer)@.len() + contents(*chunk).len(), max),
        r is Ok ==> final(buffer)@ == old(buffer)@ + contents(*chunk),
        r matches Err(e) ==> e is PayloadTooLarge && final(buffer)@ == old(buffer)@,
{
    let held: u64 = buffer.len() as u64;
    let piece = bytes_of(chunk);
    if held > max || piece.len() as u64 > max - held {
        return Err(Error::PayloadTooLarge);
    }
    buffer.extend_from_slice(piece);
    assert(buffer@ =~= old(buffer)@ + contents(*chunk));
    Ok(())
}

/// Reads bytes as text. Bytes that are not valid UTF-8 are refused as they
/// are: nothing is replaced or skipped.
pub fn decode_text(bytes: &[u8]) -> (r: Result<&str, Error>)
    ensures
        r is Ok <==> valid_utf8(bytes@),
        r matches Ok(text) ==> text@ == decode_utf8(bytes@) && text.spec_bytes() == bytes@,
        r matches Err(e) ==> e is MalformedRequest,
{
    match utf8_text(bytes) {
        Some(text) => {
            proof {
                encode_utf8_decode_utf8(text@);
            }
            Ok(text)
        },
        None => Err(Error::MalformedRequest),
    }
}

} // verus!
