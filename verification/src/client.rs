//! The wire side of emission: batch shapes, newline-delimited JSON
//! framing, the intake endpoint path, and the authorization header.
//!
//! Serialization of the records themselves is the caller's business;
//! the framing here works on the already-serialized JSON text of each
//! part.

use vstd::prelude::*;
use base64::Engine;
use vstd::utf8::encode_utf8;

use crate::config::Authorization;
use crate::model::{Error, Labels, Span, Transaction};

verus! {

/// The single record a batch carries beside its metadata.
#[derive(Debug)]
pub enum Payload {
    Transaction(Transaction),
    Span(Span),
    Error(Error),
}

/// One outbound batch: the labels to stamp onto the process-wide
/// metadata, and the record to ship.
#[derive(Debug)]
pub struct Batch {
    pub labels: Option<Labels>,
    pub payload: Payload,
}

impl Batch {
    /// Pair batch labels with a payload record.
    pub fn new(labels: Option<Labels>, payload: Payload) -> (r: Self)
        ensures
            r.labels == labels,
            r.payload == payload,
    {
        Batch { labels, payload }
    }
}

/// The envelope kinds of the intake protocol.
#[derive(Clone, Copy, Debug, PartialEq, Eq, Structural)]
pub enum EnvelopeKind {
    Metadata,
    Transaction,
    Span,
    Error,
    Metricset,
}

/// The JSON key under which an envelope kind ships.
pub open spec fn kind_key_spec(kind: EnvelopeKind) -> Seq<char> {
    match kind {
        EnvelopeKind::Metadata => "metadata"@,
        EnvelopeKind::Transaction => "transaction"@,
        EnvelopeKind::Span => "span"@,
        EnvelopeKind::Error => "error"@,
        EnvelopeKind::Metricset => "metricset"@,
    }
}

impl EnvelopeKind {
    /// The JSON key under which this envelope kind ships.
    pub fn key(&self) -> (r: &'static str)
        ensures
            r@ == kind_key_spec(*self),
    {
        match self {
            EnvelopeKind::Metadata => "metadata",
            EnvelopeKind::Transaction => "transaction",
            EnvelopeKind::Span => "span",
            EnvelopeKind::Error => "error",
            EnvelopeKind::Metricset => "metricset",
        }
    }
}

/// One envelope line: the JSON object `{"<kind>":<json>}` and a
/// trailing newline.
pub open spec fn envelope_line_spec(kind: Seq<char>, json: Seq<char>) -> Seq<char> {
    "{\""@ + kind + "\":"@ + json + "}\n"@
}

/// Frame one serialized record as an envelope line.
pub fn envelope_line(kind: &EnvelopeKind, json: &str) -> (r: String)
    ensures
        r@ == envelope_line_spec(kind_key_spec(*kind), json@),
{
    let mut s = String::from_str("{\"");
    s.append(kind.key());
    s.append("\":");
    s.append(json);
    s.append("}\n");
    proof {
        assert(s@ =~= envelope_line_spec(kind_key_spec(*kind), json@));
    }
    s
}

/// The full newline-delimited document of one batch: a metadata
/// envelope line followed by the payload's envelope line.
pub fn batch_document(metadata_json: &str, kind: &EnvelopeKind, payload_json: &str) -> (r: String)
    ensures
        r@ == envelope_line_spec("metadata"@, metadata_json@) + envelope_line_spec(
            kind_key_spec(*kind),
            payload_json@,
        ),
{
    let mut s = envelope_line(&EnvelopeKind::Metadata, metadata_json);
    let second = envelope_line(kind, payload_json);
    s.append(second.as_str());
    s
}

/// The intake endpoint under a collector base address.
pub fn intake_url(apm_address: &str) -> (r: String)
    ensures
        r@ == apm_address@ + "/intake/v2/events"@,
{
    let mut s = String::from_str(apm_address);
    s.append("/intake/v2/events");
    s
}

/// The standard base64 alphabet without padding, applied to a byte
/// sequence. Named for the `base64` crate's no-padding standard
/// engine.
pub uninterp spec fn base64_nopad(bytes: Seq<u8>) -> Seq<char>;

/// Relies on `base64`'s `STANDARD_NO_PAD` engine: encodes bytes with
/// the standard alphabet and no padding; the result depends on the
/// bytes alone.
#[verifier::external_body]
fn b64_encode_nopad(bytes: &[u8]) -> (r: String)
    ensures
        r@ == base64_nopad(bytes@),
{
    base64::engine::general_purpose::STANDARD_NO_PAD.encode(bytes)
}

/// The value of the `Authorization` header for the configured
/// credential: `Bearer` with the secret token, or `ApiKey` with the
/// base64 encoding of `id:key`.
pub fn auth_header_value(auth: &Authorization) -> (r: String)
    ensures
        (match *auth {
            Authorization::SecretToken(ref t) => r@ == "Bearer "@ + t@,
            Authorization::ApiKey(ref k) => r@ == "ApiKey "@ + base64_nopad(
                encode_utf8(k.id@) + seq![58u8] + encode_utf8(k.key@),
            ),
        }),
{
    match auth {
        Authorization::SecretToken(t) => {
            let mut s = String::from_str("Bearer ");
            s.append(t.as_str());
            s
        },
        Authorization::ApiKey(k) => {
            let mut bytes = k.id.as_str().as_bytes_vec();
            bytes.push(58);
            let key_bytes = k.key.as_str().as_bytes_vec();
            crate::strutil::push_bytes(&mut bytes, key_bytes.as_slice());
            proof {
                assert(bytes@ =~= encode_utf8(k.id@) + seq![58u8] + encode_utf8(k.key@));
            }
            let encoded = b64_encode_nopad(bytes.as_slice());
            let mut s = String::from_str("ApiKey ");
            s.append(encoded.as_str());
            s
        },
    }
}

} // verus!
