//! Building and closing Span records: the outbound shape of a
//! non-root span.

use vstd::prelude::*;

use crate::attrs::{bag_i64, bag_remove, bag_str, lemma_bag_remove_other, AttrBag, AttrValue};
use crate::fields::{
    db, db_consumed, dest_consumed, destination, http, http_consumed, http_response_headers,
    http_status_code, lemma_db_consumed_other, lemma_dest_consumed_other,
    lemma_http_consumed_other, opt_headers_v, opt_str_v, proj_headers, proj_str_or, span_name,
    span_outcome, span_subtype, span_type,
};
use crate::ids::hex_render;
use crate::model::{outcome_of, outcome_of_spec, Span, SpanContext};
use crate::trace_context::TraceContext;

verus! {

broadcast use vstd::string::group_string_axioms;

/// Keys consumed when a span is created.
pub open spec fn span_consumed(b: Seq<(String, AttrValue)>) -> Seq<(String, AttrValue)> {
    let b1 = bag_remove(b, "span.span_type"@);
    let b2 = bag_remove(b1, "span.sub_type"@);
    let b3 = dest_consumed(b2);
    let b4 = db_consumed(b3);
    let b5 = http_consumed(b4);
    bag_remove(b5, "span.name"@)
}

/// What the in-flight Span record of a freshly opened non-root span
/// holds, given the span's name, the attribute bag at open, the trace
/// context and the open timestamp.
pub open spec fn span_rec_matches(
    r: Span,
    name: Seq<char>,
    b: Seq<(String, AttrValue)>,
    trace: TraceContext,
    timestamp: u64,
) -> bool {
    &&& r.id@ == hex_render(trace.span_id.0 as u128, 16)
    &&& r.trace_id@ == hex_render(trace.trace_id.0, 32)
    &&& (match trace.parent_id {
        Some(p) => r.parent_id@ == hex_render(p.0 as u128, 16),
        None => false,
    })
    &&& r.timestamp == Some(timestamp)
    &&& r.name@ == proj_str_or(b, "span.name"@, name)
    &&& r.span_type@ == proj_str_or(b, "span.span_type"@, "request"@)
    &&& opt_str_v(r.subtype) == bag_str(b, "span.sub_type"@)
    &&& r.transaction_id is None
    &&& r.child_ids is None
    &&& r.action is None
    &&& r.outcome is None
    &&& r.sync is None
    &&& r.duration_us == 0
    &&& (match r.context {
        Some(c) => {
            &&& c.message is None
            &&& (c.destination is Some <==> bag_str(b, "destination.service.name"@) is Some)
            &&& (match c.destination {
                Some(d) => {
                    &&& opt_str_v(d.address) == bag_str(b, "destination.address"@)
                    &&& d.port == bag_i64(b, "destination.port"@)
                    &&& match d.service {
                        Some(ds) => {
                            &&& Some(ds.name@) == bag_str(b, "destination.service.name"@)
                            &&& ds.service_type@ == proj_str_or(
                                b,
                                "destination.service_type"@,
                                "external"@,
                            )
                            &&& ds.resource@ == ""@
                        },
                        None => false,
                    }
                },
                None => true,
            })
            &&& (c.db is Some <==> bag_str(b, "db.db_type"@) is Some)
            &&& (match c.db {
                Some(d) => {
                    &&& opt_str_v(d.db_type) == bag_str(b, "db.db_type"@)
                    &&& opt_str_v(d.instance) == bag_str(b, "db.instance"@)
                    &&& opt_str_v(d.link) == bag_str(b, "db.link"@)
                    &&& opt_str_v(d.statement) == bag_str(b, "db.statement"@)
                    &&& opt_str_v(d.user) == bag_str(b, "db.user"@)
                    &&& d.rows_affected == bag_i64(b, "db.rows_affected"@)
                },
                None => true,
            })
            &&& (c.http is Some <==> bag_str(b, "http.url"@) is Some)
            &&& (match c.http {
                Some(h) => {
                    &&& opt_str_v(h.url) == bag_str(b, "http.url"@)
                    &&& h.status_code == bag_i64(b, "http.status_code"@)
                    &&& opt_str_v(h.method) == bag_str(b, "http.method"@)
                    &&& match h.response {
                        Some(resp) => {
                            &&& resp.status_code == bag_i64(b, "http.status_code"@)
                            &&& opt_headers_v(resp.headers) == proj_headers(
                                b,
                                "http.response.headers"@,
                            )
                        },
                        None => false,
                    }
                },
                None => true,
            })
        },
        None => false,
    })
}

/// Build the in-flight Span record for a freshly opened non-root span:
/// identifiers from the trace context, conventional destination,
/// database and HTTP fields from the attribute bag, duration zero
/// until close.
pub fn create_span(timestamp: u64, name: String, bag: &mut AttrBag, trace: &TraceContext) -> (r:
    Span)
    requires
        old(bag).wf(),
        trace.parent_id is Some,
    ensures
        final(bag)@ =~= span_consumed(old(bag)@),
        final(bag).wf(),
        span_rec_matches(r, name@, old(bag)@, *trace, timestamp),
{
    proof {
        reveal_strlit("span.span_type");
        reveal_strlit("span.sub_type");
        reveal_strlit("span.name");
        reveal_strlit("destination.service.name");
        reveal_strlit("destination.address");
        reveal_strlit("destination.port");
        reveal_strlit("destination.service_type");
        reveal_strlit("db.db_type");
        reveal_strlit("db.instance");
        reveal_strlit("db.link");
        reveal_strlit("db.statement");
        reveal_strlit("db.user");
        reveal_strlit("db.rows_affected");
        reveal_strlit("http.url");
        reveal_strlit("http.status_code");
        reveal_strlit("http.method");
        reveal_strlit("http.response.headers");
    }
    let ghost k_st = "span.span_type"@;
    let ghost k_sub = "span.sub_type"@;
    let ghost k_nm = "span.name"@;
    let ghost kd_name = "destination.service.name"@;
    let ghost kd_addr = "destination.address"@;
    let ghost kd_port = "destination.port"@;
    let ghost kd_type = "destination.service_type"@;
    let ghost kb_t = "db.db_type"@;
    let ghost kb_i = "db.instance"@;
    let ghost kb_l = "db.link"@;
    let ghost kb_s = "db.statement"@;
    let ghost kb_u = "db.user"@;
    let ghost kb_r = "db.rows_affected"@;
    let ghost kh_url = "http.url"@;
    let ghost kh_sc = "http.status_code"@;
    let ghost kh_m = "http.method"@;
    let ghost kh_rh = "http.response.headers"@;
    proof {
        assert(k_st.len() == 14);
        assert(k_sub.len() == 13);
        assert(k_nm.len() == 9);
        assert(kd_name.len() == 24);
        assert(kd_addr.len() == 19);
        assert(kd_port.len() == 16);
        assert(kd_type.len() == 24);
        assert(kb_t.len() == 10);
        assert(kb_i.len() == 11);
        assert(kb_l.len() == 7);
        assert(kb_s.len() == 12);
        assert(kb_u.len() == 7);
        assert(kb_r.len() == 16);
        assert(kh_url.len() == 8);
        assert(kh_sc.len() == 16);
        assert(kh_m.len() == 11);
        assert(kh_rh.len() == 21);
        assert(kd_port[0] == 'd');
        assert(kd_port[1] == 'e');
        assert(kb_r[0] == 'd');
        assert(kb_r[1] == 'b');
        assert(kh_sc[0] == 'h');
        assert(kh_m[0] == 'h');
        assert(kb_i[0] == 'd');
    }
    let ghost b0 = bag@;
    let span_type_v = span_type(bag);
    let ghost b1 = bag@;
    let subtype = span_subtype(bag);
    let ghost b2 = bag@;
    let destination_v = destination(bag);
    let ghost b3 = bag@;
    let db_v = db(bag);
    let ghost b4 = bag@;
    let http_v = http(bag);
    let ghost b5 = bag@;
    let explicit_name = span_name(bag);
    proof {
        lemma_bag_remove_other(b0, k_st, k_sub);
        lemma_bag_remove_other(b0, k_st, kd_name);
        lemma_bag_remove_other(b1, k_sub, kd_name);
        lemma_bag_remove_other(b0, k_st, kd_addr);
        lemma_bag_remove_other(b1, k_sub, kd_addr);
        lemma_bag_remove_other(b0, k_st, kd_port);
        lemma_bag_remove_other(b1, k_sub, kd_port);
        lemma_bag_remove_other(b0, k_st, kd_type);
        lemma_bag_remove_other(b1, k_sub, kd_type);
        lemma_bag_remove_other(b0, k_st, kb_t);
        lemma_bag_remove_other(b1, k_sub, kb_t);
        lemma_dest_consumed_other(b2, kb_t);
        lemma_bag_remove_other(b0, k_st, kb_i);
        lemma_bag_remove_other(b1, k_sub, kb_i);
        lemma_dest_consumed_other(b2, kb_i);
        lemma_bag_remove_other(b0, k_st, kb_l);
        lemma_bag_remove_other(b1, k_sub, kb_l);
        lemma_dest_consumed_other(b2, kb_l);
        lemma_bag_remove_other(b0, k_st, kb_s);
        lemma_bag_remove_other(b1, k_sub, kb_s);
        lemma_dest_consumed_other(b2, kb_s);
        lemma_bag_remove_other(b0, k_st, kb_u);
        lemma_bag_remove_other(b1, k_sub, kb_u);
        lemma_dest_consumed_other(b2, kb_u);
        lemma_bag_remove_other(b0, k_st, kb_r);
        lemma_bag_remove_other(b1, k_sub, kb_r);
        lemma_dest_consumed_other(b2, kb_r);
        lemma_bag_remove_other(b0, k_st, kh_url);
        lemma_bag_remove_other(b1, k_sub, kh_url);
        lemma_dest_consumed_other(b2, kh_url);
        lemma_db_consumed_other(b3, kh_url);
        lemma_bag_remove_other(b0, k_st, kh_sc);
        lemma_bag_remove_other(b1, k_sub, kh_sc);
        lemma_dest_consumed_other(b2, kh_sc);
        lemma_db_consumed_other(b3, kh_sc);
        lemma_bag_remove_other(b0, k_st, kh_m);
        lemma_bag_remove_other(b1, k_sub, kh_m);
        lemma_dest_consumed_other(b2, kh_m);
        lemma_db_consumed_other(b3, kh_m);
        lemma_bag_remove_other(b0, k_st, kh_rh);
        lemma_bag_remove_other(b1, k_sub, kh_rh);
        lemma_dest_consumed_other(b2, kh_rh);
        lemma_db_consumed_other(b3, kh_rh);
        lemma_bag_remove_other(b0, k_st, k_nm);
        lemma_bag_remove_other(b1, k_sub, k_nm);
        lemma_dest_consumed_other(b2, k_nm);
        lemma_db_consumed_other(b3, k_nm);
        lemma_http_consumed_other(b4, k_nm);
    }
    let record_name = match explicit_name {
        Some(n) => n,
        None => name,
    };
    let parent = match trace.parent_id {
        Some(p) => p,
        None => {
            proof {
                assert(false);
            }
            crate::span_context::SpanId(0)
        },
    };
    Span {
        timestamp: Some(timestamp),
        span_type: span_type_v,
        subtype,
        id: trace.span_id.to_hex(),
        transaction_id: None,
        trace_id: trace.trace_id.to_hex(),
        parent_id: parent.to_hex(),
        child_ids: None,
        action: None,
        outcome: None,
        context: Some(
            SpanContext { destination: destination_v, db: db_v, http: http_v, message: None },
        ),
        duration_us: 0,
        name: record_name,
        sync: None,
    }
}

/// Keys consumed when a span is closed.
pub open spec fn span_close_consumed(b: Seq<(String, AttrValue)>) -> Seq<(String, AttrValue)> {
    let b1 = bag_remove(b, "http.status_code"@);
    let b2 = bag_remove(b1, "http.response.headers"@);
    bag_remove(b2, "span.outcome"@)
}

/// How a closed Span record relates to its in-flight form and the
/// attribute bag at close.
pub open spec fn closed_span_matches(s1: Span, s0: Span, b: Seq<(String, AttrValue)>) -> bool {
    &&& s1.timestamp == s0.timestamp
    &&& s1.span_type == s0.span_type
    &&& s1.subtype == s0.subtype
    &&& s1.id == s0.id
    &&& s1.transaction_id == s0.transaction_id
    &&& s1.trace_id == s0.trace_id
    &&& s1.parent_id == s0.parent_id
    &&& s1.child_ids == s0.child_ids
    &&& s1.action == s0.action
    &&& s1.duration_us == s0.duration_us
    &&& s1.name == s0.name
    &&& s1.sync == s0.sync
    &&& s1.outcome == Some(
        outcome_of_spec(bag_str(b, "span.outcome"@), bag_i64(b, "http.status_code"@)),
    )
    &&& (s1.context is Some <==> s0.context is Some)
    &&& (match (s1.context, s0.context) {
        (Some(c1), Some(c0)) => {
            &&& c1.destination == c0.destination
            &&& c1.db == c0.db
            &&& c1.message == c0.message
            &&& (c1.http is Some <==> c0.http is Some)
            &&& match (c1.http, c0.http) {
                (Some(h1), Some(h0)) => {
                    &&& h1.url == h0.url
                    &&& h1.method == h0.method
                    &&& h1.status_code == bag_i64(b, "http.status_code"@)
                    &&& (h1.response is Some <==> h0.response is Some)
                    &&& match h1.response {
                        Some(resp) => {
                            &&& resp.status_code == bag_i64(b, "http.status_code"@)
                            &&& opt_headers_v(resp.headers) == proj_headers(
                                b,
                                "http.response.headers"@,
                            )
                        },
                        None => true,
                    }
                },
                (None, None) => true,
                _ => false,
            }
        },
        (None, None) => true,
        _ => false,
    })
}

/// Close-time projection for a span: re-read the response status,
/// response headers and outcome hint from the final attribute bag,
/// stamp the HTTP context, and classify the outcome.
pub fn close_span(span: &mut Span, bag: &mut AttrBag)
    requires
        old(bag).wf(),
    ensures
        final(bag)@ =~= span_close_consumed(old(bag)@),
        final(bag).wf(),
        closed_span_matches(*final(span), *old(span), old(bag)@),
{
    proof {
        reveal_strlit("http.status_code");
        reveal_strlit("http.response.headers");
        reveal_strlit("span.outcome");
    }
    let ghost k_sc = "http.status_code"@;
    let ghost k_rh = "http.response.headers"@;
    let ghost k_out = "span.outcome"@;
    proof {
        assert(k_sc.len() == 16);
        assert(k_rh.len() == 21);
        assert(k_out.len() == 12);
    }
    let ghost b0 = bag@;
    let status = http_status_code(bag);
    let ghost b1 = bag@;
    let headers = http_response_headers(bag);
    let ghost b2 = bag@;
    let explicit = span_outcome(bag);
    proof {
        lemma_bag_remove_other(b0, k_sc, k_rh);
        lemma_bag_remove_other(b0, k_sc, k_out);
        lemma_bag_remove_other(b1, k_rh, k_out);
    }
    let oc = outcome_of(&explicit, &status);
    span.outcome = Some(oc);
    match &mut span.context {
        Some(c) => {
            match &mut c.http {
                Some(h) => {
                    h.status_code = status;
                    match &mut h.response {
                        Some(resp) => {
                            resp.status_code = status;
                            resp.headers = headers;
                        },
                        None => {},
                    }
                },
                None => {},
            }
        },
        None => {},
    }
}

} // verus!
