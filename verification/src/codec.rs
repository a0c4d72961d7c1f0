//! The codec registry: the output formats a client may ask for, the wire
//! formats the service can produce, and the names both go by on the wire.

use vstd::prelude::*;
use crate::text::same_text;

verus! {

/// An output format that a client declares in its request.
#[derive(Clone, Copy, Debug, PartialEq, Eq, Structural)]
pub enum Accept {
    Json,
    BinaryCompact,
    BinaryPack,
    Internal,
    Text,
    OctetStream,
    NoBody,
}

/// A wire format for response bodies.
#[derive(Clone, Copy, Debug, PartialEq, Eq, Structural)]
pub enum Codec {
    Json,
    BinaryCompact,
    BinaryPack,
    Internal,
    Text,
    /// The sentinel for a response without a body.
    NoBody,
}

/// How much of a result a codec writes out.
#[derive(Clone, Copy, Debug, PartialEq, Eq, Structural)]
pub enum Depth {
    /// A flattened shape for clients: engine metadata is left out.
    Simplified,
    /// Everything, so that a client library gets the engine's values back.
    Full,
}

/// The format that a media type names, if it names one.
pub open spec fn accept_named(media_type: Seq<char>) -> Option<Accept> {
    if media_type == "application/json"@ {
        Some(Accept::Json)
    } else if media_type == "application/cbor"@ {
        Some(Accept::BinaryCompact)
    } else if media_type == "application/pack"@ {
        Some(Accept::BinaryPack)
    } else if media_type == "application/surrealdb"@ {
        Some(Accept::Internal)
    } else if media_type == "text/plain"@ {
        Some(Accept::Text)
    } else if media_type == "application/octet-stream"@ {
        Some(Accept::OctetStream)
    } else {
        None
    }
}

/// The media type by which a declared format goes on the wire. The bare
/// wish for no body has none.
pub open spec fn media_type_of(accept: Accept) -> Option<Seq<char>> {
    match accept {
        Accept::Json => Some("application/json"@),
        Accept::BinaryCompact => Some("application/cbor"@),
        Accept::BinaryPack => Some("application/pack"@),
        Accept::Internal => Some("application/surrealdb"@),
        Accept::Text => Some("text/plain"@),
        Accept::OctetStream => Some("application/octet-stream"@),
        Accept::NoBody => None,
    }
}

/// The depth at which a codec writes; the sentinel writes nothing.
pub open spec fn depth_of(codec: Codec) -> Option<Depth> {
    match codec {
        Codec::Json | Codec::BinaryCompact | Codec::BinaryPack | Codec::Text => Some(
            Depth::Simplified,
        ),
        Codec::Internal => Some(Depth::Full),
        Codec::NoBody => None,
    }
}

/// Whether a codec can hold a value with named fields. Text holds one
/// string; the sentinel holds nothing.
pub open spec fn is_structured(codec: Codec) -> bool {
    codec is Json || codec is BinaryCompact || codec is BinaryPack || codec is Internal
}

/// The codec in which a failure is reported: the negotiated one where it
/// can hold the report's fields, and JSON in every other case, also where
/// nothing was negotiated.
pub open spec fn report_codec(negotiated: Option<Codec>) -> Codec {
    match negotiated {
        Some(codec) => if is_structured(codec) {
            codec
        } else {
            Codec::Json
        },
        None => Codec::Json,
    }
}

/// The content type that labels a body written by `codec`.
pub open spec fn label_of(codec: Codec) -> Option<Seq<char>> {
    match codec {
        Codec::Json => Some("application/json"@),
        Codec::BinaryCompact => Some("application/cbor"@),
        Codec::BinaryPack => Some("application/pack"@),
        Codec::Internal => Some("application/surrealdb"@),
        Codec::Text => Some("text/plain"@),
        Codec::NoBody => None,
    }
}

impl Accept {
    /// Reads a media type as a declared format. Any other text names no
    /// format.
    pub fn from_media_type(media_type: &str) -> (accept: Option<Accept>)
        ensures
            accept == accept_named(media_type@),
    {
        if same_text(media_type, "application/json") {
            Some(Accept::Json)
        } else if same_text(media_type, "application/cbor") {
            Some(Accept::BinaryCompact)
        } else if same_text(media_type, "application/pack") {
            Some(Accept::BinaryPack)
        } else if same_text(media_type, "application/surrealdb") {
            Some(Accept::Internal)
        } else if same_text(media_type, "text/plain") {
            Some(Accept::Text)
        } else if same_text(media_type, "application/octet-stream") {
            Some(Accept::OctetStream)
        } else {
            None
        }
    }
}

impl Accept {
    /// The media type by which this format goes on the wire: the one that
    /// `from_media_type` reads back as this format.
    pub fn media_type(&self) -> (name: Option<&'static str>)
        ensures
            match name {
                Some(text) => media_type_of(*self) == Some(text@) && accept_named(text@) == Some(
                    *self,
                ),
                None => media_type_of(*self) is None,
            },
    {
        proof {
            lemma_media_types_differ();
        }
        match self {
            Accept::Json => Some("application/json"),
            Accept::BinaryCompact => Some("application/cbor"),
            Accept::BinaryPack => Some("application/pack"),
            Accept::Internal => Some("application/surrealdb"),
            Accept::Text => Some("text/plain"),
            Accept::OctetStream => Some("application/octet-stream"),
            Accept::NoBody => None,
        }
    }
}

/// No two formats go by the same media type.
proof fn lemma_media_types_differ()
    ensures
        accept_named("application/json"@) == Some(Accept::Json),
        accept_named("application/cbor"@) == Some(Accept::BinaryCompact),
        accept_named("application/pack"@) == Some(Accept::BinaryPack),
        accept_named("application/surrealdb"@) == Some(Accept::Internal),
        accept_named("text/plain"@) == Some(Accept::Text),
        accept_named("application/octet-stream"@) == Some(Accept::OctetStream),
{
    reveal_strlit("application/json");
    reveal_strlit("application/cbor");
    reveal_strlit("application/pack");
    reveal_strlit("application/surrealdb");
    reveal_strlit("text/plain");
    reveal_strlit("application/octet-stream");
    assert("application/json"@[12] == 'j');
    assert("application/cbor"@[12] == 'c');
    assert("application/pack"@[12] == 'p');
    assert("application/json"@.len() == 16);
    assert("application/cbor"@.len() == 16);
    assert("application/pack"@.len() == 16);
    assert("application/surrealdb"@.len() == 21);
    assert("text/plain"@.len() == 10);
    assert("application/octet-stream"@.len() == 24);
}

impl Codec {
    /// The depth at which this codec writes.
    pub fn depth(&self) -> (depth: Option<Depth>)
        ensures
            depth == depth_of(*self),
    {
        match self {
            Codec::Json | Codec::BinaryCompact | Codec::BinaryPack | Codec::Text => Some(
                Depth::Simplified,
            ),
            Codec::Internal => Some(Depth::Full),
            Codec::NoBody => None,
        }
    }

    /// Whether this codec can hold a value with named fields.
    pub fn structured(&self) -> (yes: bool)
        ensures
            yes == is_structured(*self),
    {
        match self {
            Codec::Json | Codec::BinaryCompact | Codec::BinaryPack | Codec::Internal => true,
            Codec::Text | Codec::NoBody => false,
        }
    }

    /// The codec in which a failure is reported, given what the negotiation
    /// resolved to, if it got that far.
    pub fn for_report(negotiated: Option<Codec>) -> (codec: Codec)
        ensures
            codec == report_codec(negotiated),
    {
        match negotiated {
            Some(codec) => if codec.structured() {
                codec
            } else {
                Codec::Json
            },
            None => Codec::Json,
        }
    }

    /// The content type that labels a body in this format.
    pub fn content_type(&self) -> (label: Option<&'static str>)
        ensures
            match label {
                Some(text) => label_of(*self) == Some(text@),
                None => label_of(*self) is None,
            },
    {
        match self {
            Codec::Json => Some("application/json"),
            Codec::BinaryCompact => Some("application/cbor"),
            Codec::BinaryPack => Some("application/pack"),
            Codec::Internal => Some("application/surrealdb"),
            Codec::Text => Some("text/plain"),
            Codec::NoBody => None,
        }
    }
}

} // verus!
