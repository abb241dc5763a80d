//! A Twirp-style RPC core: content negotiation, a structured error taxonomy
//! with its HTTP status mapping, request timing instrumentation, per-request
//! context, wire-correct response construction, and a code generator that
//! derives server and client scaffolding from a service description.
//!
//! All decision logic lives here, verified. The host HTTP framework and the
//! message codecs (binary and JSON projection) are external collaborators:
//! an unverified shell reads the transport, runs the codecs, and hands this
//! library plain values (header text, body bytes, decode outcomes).

pub mod demo;
pub mod error;
pub mod generator;
pub mod json;
pub mod server;
pub mod strmap;

use vstd::prelude::*;

verus! {

/// The negotiated wire encoding for one request/response pair.
#[derive(Debug, Clone, Copy, PartialEq, Eq, Structural)]
pub enum BodyFormat {
    /// The JSON projection of the message codec.
    JsonPb,
    /// The binary message codec.
    Pb,
}

/// Media type selecting the binary codec.
pub fn content_type_protobuf() -> (r: String)
    ensures
        r@ == "application/protobuf"@,
{
    String::from_str("application/protobuf")
}

/// Media type of the JSON projection, and of every error body.
pub fn content_type_json() -> (r: String)
    ensures
        r@ == "application/json"@,
{
    String::from_str("application/json")
}

impl BodyFormat {
    /// Picks the wire format from the request's `Content-Type` header value.
    /// Exactly the binary codec's media type selects `Pb`; any other value,
    /// or an absent header, selects the JSON projection.
    pub fn from_content_type(content_type: &Option<String>) -> (r: BodyFormat)
        ensures
            r == BodyFormat::spec_from_content_type(match content_type {
                Some(s) => Some(s@),
                None => None,
            }),
    {
        match content_type {
            Some(s) => {
                if *s == content_type_protobuf() {
                    BodyFormat::Pb
                } else {
                    BodyFormat::JsonPb
                }
            },
            None => BodyFormat::JsonPb,
        }
    }

    /// What `from_content_type` returns for a given header value.
    pub open spec fn spec_from_content_type(content_type: Option<Seq<char>>) -> BodyFormat {
        match content_type {
            Some(s) => if s == "application/protobuf"@ {
                BodyFormat::Pb
            } else {
                BodyFormat::JsonPb
            },
            None => BodyFormat::JsonPb,
        }
    }

    /// The media type a success response carries in this format.
    pub fn media_type(&self) -> (r: String)
        ensures
            r@ == self.spec_media_type(),
    {
        match self {
            BodyFormat::JsonPb => content_type_json(),
            BodyFormat::Pb => content_type_protobuf(),
        }
    }

    /// The media type as a sequence of characters.
    pub open spec fn spec_media_type(&self) -> Seq<char> {
        match self {
            BodyFormat::JsonPb => "application/json"@,
            BodyFormat::Pb => "application/protobuf"@,
        }
    }
}

/// Law: negotiation selects the binary codec exactly when the header is
/// byte-for-byte its media type; every other value, and an absent header,
/// selects the JSON projection. A success response then mirrors the
/// negotiated format: see the contract of `server::write_response`.
pub proof fn lemma_negotiation(ct: Option<Seq<char>>)
    ensures
        (BodyFormat::spec_from_content_type(ct) == BodyFormat::Pb) <==> (ct == Some(
            "application/protobuf"@,
        )),
        (BodyFormat::spec_from_content_type(ct) == BodyFormat::JsonPb) <==> (ct != Some(
            "application/protobuf"@,
        )),
{
    match ct {
        Some(s) => {
            if s == "application/protobuf"@ {
                assert(ct == Some("application/protobuf"@));
            }
        },
        None => {
        },
    }
}

} // verus!
