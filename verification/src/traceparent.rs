//! The W3C `traceparent` codec.
//!
//! A traceparent header value has the exact shape
//! `{version:02x}-{trace_id:032x}-{parent_id:016x}-{flags:02x}`, with
//! the version fixed at `00`. Parsing accepts that shape and tolerates
//! a trailing `-...` suffix for future versions. The round-trip law
//! [`lemma_traceparent_round_trip`] states that parsing a formatted
//! header recovers the identifiers.

use vstd::prelude::*;

use crate::ids::{hex_bytes, hex_render, lemma_hex_render_len, parse_hex_spec, HexError};
use crate::span_context::{lemma_span_id_round_trip, parse_hex_u64_spec, SpanId};
use crate::strutil::{ascii_to_string, push_bytes};
use crate::trace_context::{lemma_trace_id_round_trip, TraceFlags, TraceId, SUPPORTED_VERSION};

verus! {

/// The characters of a formatted traceparent header.
pub open spec fn traceparent_render(t: TraceId, s: SpanId, f: TraceFlags) -> Seq<char> {
    hex_render(SUPPORTED_VERSION as u128, 2) + seq!['-'] + hex_render(t.0, 32) + seq!['-']
        + hex_render(s.0 as u128, 16) + seq!['-'] + hex_render(f.0 as u128, 2)
}

/// What parsing a traceparent header yields: the trace id and parent
/// span id, when the string has the fixed shape; `None` otherwise.
pub open spec fn parse_traceparent_spec(s: Seq<char>) -> Option<(TraceId, SpanId)> {
    if s.len() >= 55 && s[2] == '-' && s[35] == '-' && s[52] == '-' && (s.len() == 55 || s[55]
        == '-') {
        match (parse_hex_spec(s.subrange(3, 35)), parse_hex_u64_spec(s.subrange(36, 52))) {
            (Ok(t), Ok(p)) => Some((TraceId(t), SpanId(p))),
            _ => None,
        }
    } else {
        None
    }
}

/// Mapping bytes to characters distributes over concatenation.
proof fn lemma_map_chars_concat(a: Seq<u8>, b: Seq<u8>)
    ensures
        (a + b).map_values(|x: u8| x as char) =~= a.map_values(|x: u8| x as char) + b.map_values(
            |x: u8| x as char,
        ),
{
}

/// Format a traceparent header for the given identifiers and flags.
pub fn format_traceparent(t: &TraceId, s: &SpanId, flags: &TraceFlags) -> (r: String)
    ensures
        r@ == traceparent_render(*t, *s, *flags),
{
    let mut bytes: Vec<u8> = Vec::new();
    let vb = hex_bytes(SUPPORTED_VERSION as u128, 2);
    let tb = hex_bytes(t.0, 32);
    let sb = hex_bytes(s.0 as u128, 16);
    let fb = hex_bytes(flags.0 as u128, 2);
    push_bytes(&mut bytes, vb.as_slice());
    bytes.push(45);
    push_bytes(&mut bytes, tb.as_slice());
    bytes.push(45);
    push_bytes(&mut bytes, sb.as_slice());
    bytes.push(45);
    push_bytes(&mut bytes, fb.as_slice());
    proof {
        let dash = seq![45u8];
        assert(bytes@ =~= vb@ + dash + tb@ + dash + sb@ + dash + fb@);
        lemma_map_chars_concat(vb@ + dash + tb@ + dash + sb@ + dash, fb@);
        lemma_map_chars_concat(vb@ + dash + tb@ + dash + sb@, dash);
        lemma_map_chars_concat(vb@ + dash + tb@ + dash, sb@);
        lemma_map_chars_concat(vb@ + dash + tb@, dash);
        lemma_map_chars_concat(vb@ + dash, tb@);
        lemma_map_chars_concat(vb@, dash);
        assert(dash.map_values(|x: u8| x as char) =~= seq!['-']);
        assert(bytes@.map_values(|x: u8| x as char) =~= traceparent_render(*t, *s, *flags));
    }
    ascii_to_string(bytes)
}

/// Parse a traceparent header, per [`parse_traceparent_spec`].
pub fn parse_traceparent(s: &str) -> (r: Option<(TraceId, SpanId)>)
    ensures
        r == parse_traceparent_spec(s@),
{
    let len = s.unicode_len();
    if len < 55 {
        return None;
    }
    if s.get_char(2) != '-' || s.get_char(35) != '-' || s.get_char(52) != '-' {
        return None;
    }
    if len > 55 && s.get_char(55) != '-' {
        return None;
    }
    let tpart = s.substring_char(3, 35);
    let ppart = s.substring_char(36, 52);
    match TraceId::from_hex(tpart) {
        Ok(t) => match SpanId::from_hex(ppart) {
            Ok(p) => Some((t, p)),
            Err(_) => None,
        },
        Err(_) => None,
    }
}

/// Traceparent round trip: parsing a formatted header yields the trace
/// id and span id that were formatted, whatever the flags.
pub proof fn lemma_traceparent_round_trip(t: TraceId, s: SpanId, f: TraceFlags)
    ensures
        parse_traceparent_spec(traceparent_render(t, s, f)) == Some((t, s)),
{
    let whole = traceparent_render(t, s, f);
    let v2 = hex_render(SUPPORTED_VERSION as u128, 2);
    let h32 = hex_render(t.0, 32);
    let h16 = hex_render(s.0 as u128, 16);
    let f2 = hex_render(f.0 as u128, 2);
    lemma_hex_render_len(SUPPORTED_VERSION as u128, 2);
    lemma_hex_render_len(t.0, 32);
    lemma_hex_render_len(s.0 as u128, 16);
    lemma_hex_render_len(f.0 as u128, 2);
    assert(whole.len() == 55);
    assert(whole[2] == '-');
    assert(whole[35] == '-');
    assert(whole[52] == '-');
    assert(whole.subrange(3, 35) =~= h32);
    assert(whole.subrange(36, 52) =~= h16);
    lemma_trace_id_round_trip(t);
    lemma_span_id_round_trip(s);
}

} // verus!
