//! Building and closing Transaction records: the outbound shape of a
//! root span.

use vstd::prelude::*;

use crate::attrs::{bag_i64, bag_remove, bag_str, lemma_bag_remove_other, AttrBag, AttrValue};
use crate::fields::{
    http_host, http_method, http_pathname, http_request_headers, http_response_headers,
    http_schema, http_status_code, http_url, http_version, opt_headers_v, opt_str_v, proj_headers,
    proj_str_or, span_name, span_outcome, span_result, span_subtype, span_type,
};
use crate::ids::hex_render;
use crate::model::{
    outcome_of, outcome_of_spec, Request, Response, SpanCount, Transaction, TransactionContext,
    Url,
};
use crate::trace_context::TraceContext;

verus! {

broadcast use vstd::string::group_string_axioms;

/// Keys consumed when a transaction is created.
pub open spec fn tx_consumed(b: Seq<(String, AttrValue)>) -> Seq<(String, AttrValue)> {
    let b1 = bag_remove(b, "span.span_type"@);
    let b2 = bag_remove(b1, "span.sub_type"@);
    let b3 = bag_remove(b2, "span.name"@);
    let b4 = bag_remove(b3, "http.request.headers"@);
    let b5 = bag_remove(b4, "http.version"@);
    let b6 = bag_remove(b5, "http.method"@);
    let b7 = bag_remove(b6, "http.url"@);
    let b8 = bag_remove(b7, "http.schema"@);
    let b9 = bag_remove(b8, "http.host"@);
    bag_remove(b9, "http.pathname"@)
}

/// What the in-flight Transaction record of a freshly opened root span
/// holds, given the span's name, the attribute bag at open, the trace
/// context and the open timestamp.
pub open spec fn tx_rec_matches(
    r: Transaction,
    name: Seq<char>,
    b: Seq<(String, AttrValue)>,
    trace: TraceContext,
    timestamp: u64,
) -> bool {
    &&& r.id@ == hex_render(trace.span_id.0 as u128, 16)
    &&& r.trace_id@ == hex_render(trace.trace_id.0, 32)
    &&& (match (r.parent_id, trace.parent_id) {
        (Some(p), Some(t)) => p@ == hex_render(t.0 as u128, 16),
        (None, None) => true,
        _ => false,
    })
    &&& r.timestamp == Some(timestamp)
    &&& (match r.name {
        Some(n) => n@ == proj_str_or(b, "span.name"@, name),
        None => false,
    })
    &&& r.transaction_type@ == proj_str_or(b, "span.span_type"@, "request"@)
    &&& opt_str_v(r.subtype) == bag_str(b, "span.sub_type"@)
    &&& r.span_count == (SpanCount { started: 0, dropped: None })
    &&& r.duration_us == 0
    &&& r.result is None
    &&& r.outcome is None
    &&& r.sampled is None
    &&& (match r.context {
        Some(c) => {
            &&& c.response == Some(Response { status_code: None, headers: None })
            &&& c.user is None
            &&& c.page is None
            &&& c.message is None
            &&& match c.request {
                Some(req) => {
                    &&& req.body is None
                    &&& opt_headers_v(req.headers) == proj_headers(b, "http.request.headers"@)
                    &&& opt_str_v(req.http_version) == bag_str(b, "http.version"@)
                    &&& req.method@ == proj_str_or(b, "http.method"@, "unknown"@)
                    &&& req.socket is None
                    &&& opt_str_v(req.url.full) == bag_str(b, "http.url"@)
                    &&& opt_str_v(req.url.protocol) == bag_str(b, "http.schema"@)
                    &&& opt_str_v(req.url.hostname) == bag_str(b, "http.host"@)
                    &&& opt_str_v(req.url.pathname) == bag_str(b, "http.pathname"@)
                    &&& req.url.raw is None
                    &&& req.url.port is None
                    &&& req.url.search is None
                    &&& req.url.hash is None
                },
                None => false,
            }
        },
        None => false,
    })
}

/// Build the in-flight Transaction record for a freshly opened root
/// span: identifiers from the trace context, conventional HTTP request
/// fields from the attribute bag, duration zero until close.
pub fn create_transaction(
    timestamp: u64,
    name: String,
    bag: &mut AttrBag,
    trace: &TraceContext,
) -> (r: Transaction)
    requires
        old(bag).wf(),
    ensures
        final(bag)@ =~= tx_consumed(old(bag)@),
        final(bag).wf(),
        tx_rec_matches(r, name@, old(bag)@, *trace, timestamp),
{
    proof {
        reveal_strlit("span.span_type");
        reveal_strlit("span.sub_type");
        reveal_strlit("span.name");
        reveal_strlit("http.request.headers");
        reveal_strlit("http.version");
        reveal_strlit("http.method");
        reveal_strlit("http.url");
        reveal_strlit("http.schema");
        reveal_strlit("http.host");
        reveal_strlit("http.pathname");
    }
    let ghost k_st = "span.span_type"@;
    let ghost k_sub = "span.sub_type"@;
    let ghost k_nm = "span.name"@;
    let ghost k_rh = "http.request.headers"@;
    let ghost k_ver = "http.version"@;
    let ghost k_m = "http.method"@;
    let ghost k_url = "http.url"@;
    let ghost k_sch = "http.schema"@;
    let ghost k_h = "http.host"@;
    let ghost k_p = "http.pathname"@;
    proof {
        assert(k_st.len() == 14);
        assert(k_sub.len() == 13);
        assert(k_nm.len() == 9);
        assert(k_rh.len() == 20);
        assert(k_ver.len() == 12);
        assert(k_m.len() == 11);
        assert(k_url.len() == 8);
        assert(k_sch.len() == 11);
        assert(k_h.len() == 9);
        assert(k_p.len() == 13);
        assert(k_sub[0] == 's');
        assert(k_p[0] == 'h');
        assert(k_nm[0] == 's');
        assert(k_h[0] == 'h');
        assert(k_m[5] == 'm');
        assert(k_sch[5] == 's');
    }
    let ghost b0 = bag@;
    let transaction_type = span_type(bag);
    let ghost b1 = bag@;
    let subtype = span_subtype(bag);
    let ghost b2 = bag@;
    let explicit_name = span_name(bag);
    let ghost b3 = bag@;
    let headers = http_request_headers(bag);
    let ghost b4 = bag@;
    let http_version = http_version(bag);
    let ghost b5 = bag@;
    let method_opt = http_method(bag);
    let ghost b6 = bag@;
    let full = http_url(bag);
    let ghost b7 = bag@;
    let protocol = http_schema(bag);
    let ghost b8 = bag@;
    let hostname = http_host(bag);
    let ghost b9 = bag@;
    let pathname = http_pathname(bag);
    proof {
        lemma_bag_remove_other(b0, k_st, k_sub);
        lemma_bag_remove_other(b0, k_st, k_nm);
        lemma_bag_remove_other(b1, k_sub, k_nm);
        lemma_bag_remove_other(b0, k_st, k_rh);
        lemma_bag_remove_other(b1, k_sub, k_rh);
        lemma_bag_remove_other(b2, k_nm, k_rh);
        lemma_bag_remove_other(b0, k_st, k_ver);
        lemma_bag_remove_other(b1, k_sub, k_ver);
        lemma_bag_remove_other(b2, k_nm, k_ver);
        lemma_bag_remove_other(b3, k_rh, k_ver);
        lemma_bag_remove_other(b0, k_st, k_m);
        lemma_bag_remove_other(b1, k_sub, k_m);
        lemma_bag_remove_other(b2, k_nm, k_m);
        lemma_bag_remove_other(b3, k_rh, k_m);
        lemma_bag_remove_other(b4, k_ver, k_m);
        lemma_bag_remove_other(b0, k_st, k_url);
        lemma_bag_remove_other(b1, k_sub, k_url);
        lemma_bag_remove_other(b2, k_nm, k_url);
        lemma_bag_remove_other(b3, k_rh, k_url);
        lemma_bag_remove_other(b4, k_ver, k_url);
        lemma_bag_remove_other(b5, k_m, k_url);
        lemma_bag_remove_other(b0, k_st, k_sch);
        lemma_bag_remove_other(b1, k_sub, k_sch);
        lemma_bag_remove_other(b2, k_nm, k_sch);
        lemma_bag_remove_other(b3, k_rh, k_sch);
        lemma_bag_remove_other(b4, k_ver, k_sch);
        lemma_bag_remove_other(b5, k_m, k_sch);
        lemma_bag_remove_other(b6, k_url, k_sch);
        lemma_bag_remove_other(b0, k_st, k_h);
        lemma_bag_remove_other(b1, k_sub, k_h);
        lemma_bag_remove_other(b2, k_nm, k_h);
        lemma_bag_remove_other(b3, k_rh, k_h);
        lemma_bag_remove_other(b4, k_ver, k_h);
        lemma_bag_remove_other(b5, k_m, k_h);
        lemma_bag_remove_other(b6, k_url, k_h);
        lemma_bag_remove_other(b7, k_sch, k_h);
        lemma_bag_remove_other(b0, k_st, k_p);
        lemma_bag_remove_other(b1, k_sub, k_p);
        lemma_bag_remove_other(b2, k_nm, k_p);
        lemma_bag_remove_other(b3, k_rh, k_p);
        lemma_bag_remove_other(b4, k_ver, k_p);
        lemma_bag_remove_other(b5, k_m, k_p);
        lemma_bag_remove_other(b6, k_url, k_p);
        lemma_bag_remove_other(b7, k_sch, k_p);
        lemma_bag_remove_other(b8, k_h, k_p);
    }
    let method = match method_opt {
        Some(m) => m,
        None => String::from_str("unknown"),
    };
    let record_name = match explicit_name {
        Some(n) => n,
        None => name,
    };
    let parent_id = match trace.parent_id {
        Some(p) => Some(p.to_hex()),
        None => None,
    };
    Transaction {
        timestamp: Some(timestamp),
        name: Some(record_name),
        transaction_type,
        subtype,
        id: trace.span_id.to_hex(),
        trace_id: trace.trace_id.to_hex(),
        parent_id,
        span_count: SpanCount { started: 0, dropped: None },
        context: Some(
            TransactionContext {
                response: Some(Response { status_code: None, headers: None }),
                request: Some(
                    Request {
                        body: None,
                        headers,
                        http_version,
                        method,
                        socket: None,
                        url: Url {
                            raw: None,
                            protocol,
                            full,
                            hostname,
                            port: None,
                            pathname,
                            search: None,
                            hash: None,
                        },
                    },
                ),
                user: None,
                page: None,
                message: None,
            },
        ),
        duration_us: 0,
        result: None,
        outcome: None,
        sampled: None,
    }
}

/// Keys consumed when a transaction is closed.
pub open spec fn tx_close_consumed(b: Seq<(String, AttrValue)>) -> Seq<(String, AttrValue)> {
    let b1 = bag_remove(b, "http.status_code"@);
    let b2 = bag_remove(b1, "http.response.headers"@);
    let b3 = bag_remove(b2, "span.result"@);
    bag_remove(b3, "span.outcome"@)
}

/// How a closed Transaction record relates to its in-flight form and
/// the attribute bag at close.
pub open spec fn closed_tx_matches(t1: Transaction, t0: Transaction, b: Seq<(String, AttrValue)>) -> bool {
    &&& t1.timestamp == t0.timestamp
    &&& t1.name == t0.name
    &&& t1.transaction_type == t0.transaction_type
    &&& t1.subtype == t0.subtype
    &&& t1.id == t0.id
    &&& t1.trace_id == t0.trace_id
    &&& t1.parent_id == t0.parent_id
    &&& t1.span_count == t0.span_count
    &&& t1.duration_us == t0.duration_us
    &&& t1.sampled == t0.sampled
    &&& opt_str_v(t1.result) == bag_str(b, "span.result"@)
    &&& t1.outcome == Some(
        outcome_of_spec(bag_str(b, "span.outcome"@), bag_i64(b, "http.status_code"@)),
    )
    &&& (t1.context is Some <==> t0.context is Some)
    &&& (match (t1.context, t0.context) {
        (Some(c1), Some(c0)) => {
            &&& c1.request == c0.request
            &&& c1.user == c0.user
            &&& c1.page == c0.page
            &&& c1.message == c0.message
            &&& (c1.response is Some <==> c0.response is Some)
            &&& match c1.response {
                Some(resp) => {
                    &&& resp.status_code == bag_i64(b, "http.status_code"@)
                    &&& opt_headers_v(resp.headers) == proj_headers(b, "http.response.headers"@)
                },
                None => true,
            }
        },
        (None, None) => true,
        _ => false,
    })
}

/// Close-time projection for a transaction: re-read the response
/// status, response headers, result and outcome hint from the final
/// attribute bag, stamp the record, and classify the outcome.
pub fn close_transaction(transaction: &mut Transaction, bag: &mut AttrBag)
    requires
        old(bag).wf(),
    ensures
        final(bag)@ =~= tx_close_consumed(old(bag)@),
        final(bag).wf(),
        closed_tx_matches(*final(transaction), *old(transaction), old(bag)@),
{
    proof {
        reveal_strlit("http.status_code");
        reveal_strlit("http.response.headers");
        reveal_strlit("span.result");
        reveal_strlit("span.outcome");
    }
    let ghost k_sc = "http.status_code"@;
    let ghost k_rh = "http.response.headers"@;
    let ghost k_res = "span.result"@;
    let ghost k_out = "span.outcome"@;
    proof {
        assert(k_sc.len() == 16);
        assert(k_rh.len() == 21);
        assert(k_res.len() == 11);
        assert(k_out.len() == 12);
    }
    let ghost b0 = bag@;
    let status = http_status_code(bag);
    let ghost b1 = bag@;
    let headers = http_response_headers(bag);
    let ghost b2 = bag@;
    let result = span_result(bag);
    let ghost b3 = bag@;
    let explicit = span_outcome(bag);
    proof {
        lemma_bag_remove_other(b0, k_sc, k_rh);
        lemma_bag_remove_other(b0, k_sc, k_res);
        lemma_bag_remove_other(b1, k_rh, k_res);
        lemma_bag_remove_other(b0, k_sc, k_out);
        lemma_bag_remove_other(b1, k_rh, k_out);
        lemma_bag_remove_other(b2, k_res, k_out);
    }
    let oc = outcome_of(&explicit, &status);
    transaction.result = result;
    transaction.outcome = Some(oc);
    match &mut transaction.context {
        Some(c) => {
            match &mut c.response {
                Some(resp) => {
                    resp.status_code = status;
                    resp.headers = headers;
                },
                None => {},
            }
        },
        None => {},
    }
}

} // verus!
