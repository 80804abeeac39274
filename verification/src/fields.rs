//! Projections of reserved attribute names out of the attribute bag.
//!
//! Reserved names are consumed (removed) when a record is built; what
//! is left in the bag afterwards survives as batch labels. A value of
//! the wrong type counts as absent: the projection falls back to its
//! default and never fails.

use vstd::prelude::*;

use crate::attrs::{bag_i64, bag_lookup, bag_remove, bag_str, lemma_bag_remove_other, AttrBag, AttrValue};
use crate::model::{Db, Destination, DestinationService, Http, Response};
use crate::span_context::SpanId;
use crate::strutil::str_eq;
use crate::trace_context::TraceId;
use crate::traceparent::{parse_traceparent, parse_traceparent_spec};

verus! {

broadcast use vstd::string::group_string_axioms;

/// View of an optional owned string.
pub open spec fn opt_str_v(o: Option<String>) -> Option<Seq<char>> {
    match o {
        Some(s) => Some(s@),
        None => None,
    }
}

/// View of an optional header list.
pub open spec fn opt_headers_v(o: Option<Vec<(String, String)>>) -> Option<
    Seq<(Seq<char>, Seq<char>)>,
> {
    match o {
        Some(h) => Some(h@.map_values(|p: (String, String)| (p.0@, p.1@))),
        None => None,
    }
}

/// The string projected for key `k`, with default `d`.
pub open spec fn proj_str_or(b: Seq<(String, AttrValue)>, k: Seq<char>, d: Seq<char>) -> Seq<
    char,
> {
    match bag_str(b, k) {
        Some(s) => s,
        None => d,
    }
}

/// The key/value pairs of the JSON object a string holds, when the
/// string is a JSON object whose values are all strings; the pairs are
/// ordered by key. Named for `serde_json::from_str`.
pub uninterp spec fn json_header_pairs(s: Seq<char>) -> Option<Seq<(Seq<char>, Seq<char>)>>;

/// Relies on `serde_json::from_str`: decodes a JSON object with string
/// values into key-ordered pairs; the result depends on the input
/// string alone. Any other JSON shape is rejected.
#[verifier::external_body]
fn parse_json_string_map(s: &str) -> (r: Option<Vec<(String, String)>>)
    ensures
        r is Some <==> json_header_pairs(s@) is Some,
        r matches Some(v) ==> json_header_pairs(s@) matches Some(p) && v@.map_values(
            |q: (String, String)| (q.0@, q.1@),
        ) == p,
{
    let m: std::collections::BTreeMap<String, String> = serde_json::from_str(s).ok()?;
    Some(m.into_iter().collect())
}

/// What the header-map projection of key `k` yields.
pub open spec fn proj_headers(b: Seq<(String, AttrValue)>, k: Seq<char>) -> Option<
    Seq<(Seq<char>, Seq<char>)>,
> {
    match bag_str(b, k) {
        Some(s) => json_header_pairs(s),
        None => None,
    }
}

/// First value under key `k` in a pair list.
pub open spec fn find_pair(p: Seq<(Seq<char>, Seq<char>)>, k: Seq<char>) -> Option<Seq<char>>
    decreases p.len(),
{
    if p.len() == 0 {
        None
    } else if p[0].0 == k {
        Some(p[0].1)
    } else {
        find_pair(p.drop_first(), k)
    }
}

proof fn lemma_find_pair_at(p: Seq<(Seq<char>, Seq<char>)>, k: Seq<char>, i: int)
    requires
        0 <= i < p.len(),
        forall|j: int| 0 <= j < i ==> p[j].0 != k,
        p[i].0 == k,
    ensures
        find_pair(p, k) == Some(p[i].1),
    decreases i,
{
    if i > 0 {
        lemma_find_pair_at(p.drop_first(), k, i - 1);
    }
}

proof fn lemma_find_pair_none(p: Seq<(Seq<char>, Seq<char>)>, k: Seq<char>)
    requires
        forall|j: int| 0 <= j < p.len() ==> p[j].0 != k,
    ensures
        find_pair(p, k) is None,
    decreases p.len(),
{
    if p.len() > 0 {
        lemma_find_pair_none(p.drop_first(), k);
    }
}

/// The event or log message; empty when absent.
pub fn message(bag: &mut AttrBag) -> (r: String)
    requires
        old(bag).wf(),
    ensures
        final(bag)@ =~= bag_remove(old(bag)@, "message"@),
        final(bag).wf(),
        r@ == proj_str_or(old(bag)@, "message"@, ""@),
{
    match bag.remove_str("message") {
        Some(s) => s,
        None => String::from_str(""),
    }
}

/// Explicit span name, when one was recorded.
pub fn span_name(bag: &mut AttrBag) -> (r: Option<String>)
    requires
        old(bag).wf(),
    ensures
        final(bag)@ =~= bag_remove(old(bag)@, "span.name"@),
        final(bag).wf(),
        opt_str_v(r) == bag_str(old(bag)@, "span.name"@),
{
    bag.remove_str("span.name")
}

/// Span type; `request` when absent.
pub fn span_type(bag: &mut AttrBag) -> (r: String)
    requires
        old(bag).wf(),
    ensures
        final(bag)@ =~= bag_remove(old(bag)@, "span.span_type"@),
        final(bag).wf(),
        r@ == proj_str_or(old(bag)@, "span.span_type"@, "request"@),
{
    match bag.remove_str("span.span_type") {
        Some(s) => s,
        None => String::from_str("request"),
    }
}

/// Span subtype, when one was recorded.
pub fn span_subtype(bag: &mut AttrBag) -> (r: Option<String>)
    requires
        old(bag).wf(),
    ensures
        final(bag)@ =~= bag_remove(old(bag)@, "span.sub_type"@),
        final(bag).wf(),
        opt_str_v(r) == bag_str(old(bag)@, "span.sub_type"@),
{
    bag.remove_str("span.sub_type")
}

/// Explicit outcome hint, when one was recorded.
pub fn span_outcome(bag: &mut AttrBag) -> (r: Option<String>)
    requires
        old(bag).wf(),
    ensures
        final(bag)@ =~= bag_remove(old(bag)@, "span.outcome"@),
        final(bag).wf(),
        opt_str_v(r) == bag_str(old(bag)@, "span.outcome"@),
{
    bag.remove_str("span.outcome")
}

/// Transaction result, when one was recorded.
pub fn span_result(bag: &mut AttrBag) -> (r: Option<String>)
    requires
        old(bag).wf(),
    ensures
        final(bag)@ =~= bag_remove(old(bag)@, "span.result"@),
        final(bag).wf(),
        opt_str_v(r) == bag_str(old(bag)@, "span.result"@),
{
    bag.remove_str("span.result")
}

/// Destination service type; `external` when absent.
pub fn destination_service_type(bag: &mut AttrBag) -> (r: String)
    requires
        old(bag).wf(),
    ensures
        final(bag)@ =~= bag_remove(old(bag)@, "destination.service_type"@),
        final(bag).wf(),
        r@ == proj_str_or(old(bag)@, "destination.service_type"@, "external"@),
{
    match bag.remove_str("destination.service_type") {
        Some(s) => s,
        None => String::from_str("external"),
    }
}

/// Database instance name.
pub fn db_instance(bag: &mut AttrBag) -> (r: Option<String>)
    requires
        old(bag).wf(),
    ensures
        final(bag)@ =~= bag_remove(old(bag)@, "db.instance"@),
        final(bag).wf(),
        opt_str_v(r) == bag_str(old(bag)@, "db.instance"@),
{
    bag.remove_str("db.instance")
}

/// Database link.
pub fn db_link(bag: &mut AttrBag) -> (r: Option<String>)
    requires
        old(bag).wf(),
    ensures
        final(bag)@ =~= bag_remove(old(bag)@, "db.link"@),
        final(bag).wf(),
        opt_str_v(r) == bag_str(old(bag)@, "db.link"@),
{
    bag.remove_str("db.link")
}

/// Database statement.
pub fn db_statement(bag: &mut AttrBag) -> (r: Option<String>)
    requires
        old(bag).wf(),
    ensures
        final(bag)@ =~= bag_remove(old(bag)@, "db.statement"@),
        final(bag).wf(),
        opt_str_v(r) == bag_str(old(bag)@, "db.statement"@),
{
    bag.remove_str("db.statement")
}

/// Database user.
pub fn db_user(bag: &mut AttrBag) -> (r: Option<String>)
    requires
        old(bag).wf(),
    ensures
        final(bag)@ =~= bag_remove(old(bag)@, "db.user"@),
        final(bag).wf(),
        opt_str_v(r) == bag_str(old(bag)@, "db.user"@),
{
    bag.remove_str("db.user")
}

/// Rows affected by a database statement.
pub fn db_row_affected(bag: &mut AttrBag) -> (r: Option<i64>)
    requires
        old(bag).wf(),
    ensures
        final(bag)@ =~= bag_remove(old(bag)@, "db.rows_affected"@),
        final(bag).wf(),
        r == bag_i64(old(bag)@, "db.rows_affected"@),
{
    bag.remove_i64("db.rows_affected")
}

/// Full request URL.
pub fn http_url(bag: &mut AttrBag) -> (r: Option<String>)
    requires
        old(bag).wf(),
    ensures
        final(bag)@ =~= bag_remove(old(bag)@, "http.url"@),
        final(bag).wf(),
        opt_str_v(r) == bag_str(old(bag)@, "http.url"@),
{
    bag.remove_str("http.url")
}

/// URL scheme.
pub fn http_schema(bag: &mut AttrBag) -> (r: Option<String>)
    requires
        old(bag).wf(),
    ensures
        final(bag)@ =~= bag_remove(old(bag)@, "http.schema"@),
        final(bag).wf(),
        opt_str_v(r) == bag_str(old(bag)@, "http.schema"@),
{
    bag.remove_str("http.schema")
}

/// Request host.
pub fn http_host(bag: &mut AttrBag) -> (r: Option<String>)
    requires
        old(bag).wf(),
    ensures
        final(bag)@ =~= bag_remove(old(bag)@, "http.host"@),
        final(bag).wf(),
        opt_str_v(r) == bag_str(old(bag)@, "http.host"@),
{
    bag.remove_str("http.host")
}

/// Request path.
pub fn http_pathname(bag: &mut AttrBag) -> (r: Option<String>)
    requires
        old(bag).wf(),
    ensures
        final(bag)@ =~= bag_remove(old(bag)@, "http.pathname"@),
        final(bag).wf(),
        opt_str_v(r) == bag_str(old(bag)@, "http.pathname"@),
{
    bag.remove_str("http.pathname")
}

/// Request path, read without consuming it; the ignore-URL filter
/// looks at it while the bag must stay intact for the record build.
pub fn extract_http_pathname(bag: &AttrBag) -> (r: Option<String>)
    ensures
        opt_str_v(r) == bag_str(bag@, "http.pathname"@),
{
    bag.get_str("http.pathname")
}

/// HTTP version.
pub fn http_version(bag: &mut AttrBag) -> (r: Option<String>)
    requires
        old(bag).wf(),
    ensures
        final(bag)@ =~= bag_remove(old(bag)@, "http.version"@),
        final(bag).wf(),
        opt_str_v(r) == bag_str(old(bag)@, "http.version"@),
{
    bag.remove_str("http.version")
}

/// HTTP method.
pub fn http_method(bag: &mut AttrBag) -> (r: Option<String>)
    requires
        old(bag).wf(),
    ensures
        final(bag)@ =~= bag_remove(old(bag)@, "http.method"@),
        final(bag).wf(),
        opt_str_v(r) == bag_str(old(bag)@, "http.method"@),
{
    bag.remove_str("http.method")
}

/// HTTP response status code.
pub fn http_status_code(bag: &mut AttrBag) -> (r: Option<i64>)
    requires
        old(bag).wf(),
    ensures
        final(bag)@ =~= bag_remove(old(bag)@, "http.status_code"@),
        final(bag).wf(),
        r == bag_i64(old(bag)@, "http.status_code"@),
{
    bag.remove_i64("http.status_code")
}

/// Request headers, decoded from their JSON-encoded capture.
pub fn http_request_headers(bag: &mut AttrBag) -> (r: Option<Vec<(String, String)>>)
    requires
        old(bag).wf(),
    ensures
        final(bag)@ =~= bag_remove(old(bag)@, "http.request.headers"@),
        final(bag).wf(),
        opt_headers_v(r) == proj_headers(old(bag)@, "http.request.headers"@),
{
    match bag.remove_str("http.request.headers") {
        Some(s) => parse_json_string_map(s.as_str()),
        None => None,
    }
}

/// Response headers, decoded from their JSON-encoded capture.
pub fn http_response_headers(bag: &mut AttrBag) -> (r: Option<Vec<(String, String)>>)
    requires
        old(bag).wf(),
    ensures
        final(bag)@ =~= bag_remove(old(bag)@, "http.response.headers"@),
        final(bag).wf(),
        opt_headers_v(r) == proj_headers(old(bag)@, "http.response.headers"@),
{
    match bag.remove_str("http.response.headers") {
        Some(s) => parse_json_string_map(s.as_str()),
        None => None,
    }
}

/// Keys consumed by the destination projection: the service name
/// always; the other destination keys only when a destination is
/// actually built.
pub open spec fn dest_consumed(b: Seq<(String, AttrValue)>) -> Seq<(String, AttrValue)> {
    let b1 = bag_remove(b, "destination.service.name"@);
    if bag_str(b, "destination.service.name"@) is Some {
        bag_remove(
            bag_remove(bag_remove(b1, "destination.address"@), "destination.port"@),
            "destination.service_type"@,
        )
    } else {
        b1
    }
}

/// Destination context of a span; present when a destination service
/// name was recorded.
pub fn destination(bag: &mut AttrBag) -> (r: Option<Destination>)
    requires
        old(bag).wf(),
    ensures
        final(bag)@ =~= dest_consumed(old(bag)@),
        final(bag).wf(),
        r is Some <==> bag_str(old(bag)@, "destination.service.name"@) is Some,
        r matches Some(d) ==> {
            &&& opt_str_v(d.address) == bag_str(old(bag)@, "destination.address"@)
            &&& d.port == bag_i64(old(bag)@, "destination.port"@)
            &&& match d.service {
                Some(ds) => {
                    &&& Some(ds.name@) == bag_str(old(bag)@, "destination.service.name"@)
                    &&& ds.service_type@ == proj_str_or(
                        old(bag)@,
                        "destination.service_type"@,
                        "external"@,
                    )
                    &&& ds.resource@ == ""@
                },
                None => false,
            }
        },
{
    proof {
        reveal_strlit("destination.service.name");
        reveal_strlit("destination.address");
        reveal_strlit("destination.port");
        reveal_strlit("destination.service_type");
    }
    let ghost k_name = "destination.service.name"@;
    let ghost k_addr = "destination.address"@;
    let ghost k_port = "destination.port"@;
    let ghost k_type = "destination.service_type"@;
    proof {
        assert(k_name.len() == 24);
        assert(k_addr.len() == 19);
        assert(k_port.len() == 16);
        assert(k_type.len() == 24);
        assert(k_name[19] == '.');
        assert(k_type[19] == '_');
    }
    let ghost b0 = bag@;
    match bag.remove_str("destination.service.name") {
        Some(name) => {
            let ghost b1 = bag@;
            let address = bag.remove_str("destination.address");
            let ghost b2 = bag@;
            let port = bag.remove_i64("destination.port");
            let ghost b3 = bag@;
            let service_type = destination_service_type(bag);
            proof {
                lemma_bag_remove_other(b0, k_name, k_addr);
                lemma_bag_remove_other(b0, k_name, k_port);
                lemma_bag_remove_other(b1, k_addr, k_port);
                lemma_bag_remove_other(b0, k_name, k_type);
                lemma_bag_remove_other(b1, k_addr, k_type);
                lemma_bag_remove_other(b2, k_port, k_type);
            }
            Some(
                Destination {
                    address,
                    port,
                    service: Some(
                        DestinationService { service_type, name, resource: String::from_str("") },
                    ),
                },
            )
        },
        None => None,
    }
}

/// Keys consumed by the database projection: the database type always;
/// the other database keys only when a database context is built.
pub open spec fn db_consumed(b: Seq<(String, AttrValue)>) -> Seq<(String, AttrValue)> {
    let b1 = bag_remove(b, "db.db_type"@);
    if bag_str(b, "db.db_type"@) is Some {
        bag_remove(
            bag_remove(
                bag_remove(
                    bag_remove(bag_remove(b1, "db.instance"@), "db.link"@),
                    "db.statement"@,
                ),
                "db.user"@,
            ),
            "db.rows_affected"@,
        )
    } else {
        b1
    }
}

/// Database context of a span; present when a database type was
/// recorded.
pub fn db(bag: &mut AttrBag) -> (r: Option<Db>)
    requires
        old(bag).wf(),
    ensures
        final(bag)@ =~= db_consumed(old(bag)@),
        final(bag).wf(),
        r is Some <==> bag_str(old(bag)@, "db.db_type"@) is Some,
        r matches Some(d) ==> {
            &&& opt_str_v(d.db_type) == bag_str(old(bag)@, "db.db_type"@)
            &&& opt_str_v(d.instance) == bag_str(old(bag)@, "db.instance"@)
            &&& opt_str_v(d.link) == bag_str(old(bag)@, "db.link"@)
            &&& opt_str_v(d.statement) == bag_str(old(bag)@, "db.statement"@)
            &&& opt_str_v(d.user) == bag_str(old(bag)@, "db.user"@)
            &&& d.rows_affected == bag_i64(old(bag)@, "db.rows_affected"@)
        },
{
    proof {
        reveal_strlit("db.db_type");
        reveal_strlit("db.instance");
        reveal_strlit("db.link");
        reveal_strlit("db.statement");
        reveal_strlit("db.user");
        reveal_strlit("db.rows_affected");
    }
    let ghost k_t = "db.db_type"@;
    let ghost k_i = "db.instance"@;
    let ghost k_l = "db.link"@;
    let ghost k_s = "db.statement"@;
    let ghost k_u = "db.user"@;
    let ghost k_r = "db.rows_affected"@;
    proof {
        assert(k_t.len() == 10);
        assert(k_i.len() == 11);
        assert(k_l.len() == 7);
        assert(k_s.len() == 12);
        assert(k_u.len() == 7);
        assert(k_r.len() == 16);
        assert(k_l[3] == 'l');
        assert(k_u[3] == 'u');
    }
    let ghost b0 = bag@;
    match bag.remove_str("db.db_type") {
        Some(db_type) => {
            let ghost b1 = bag@;
            let instance = db_instance(bag);
            let ghost b2 = bag@;
            let link = db_link(bag);
            let ghost b3 = bag@;
            let statement = db_statement(bag);
            let ghost b4 = bag@;
            let user = db_user(bag);
            let ghost b5 = bag@;
            let rows_affected = db_row_affected(bag);
            proof {
                lemma_bag_remove_other(b0, k_t, k_i);
                lemma_bag_remove_other(b0, k_t, k_l);
                lemma_bag_remove_other(b1, k_i, k_l);
                lemma_bag_remove_other(b0, k_t, k_s);
                lemma_bag_remove_other(b1, k_i, k_s);
                lemma_bag_remove_other(b2, k_l, k_s);
                lemma_bag_remove_other(b0, k_t, k_u);
                lemma_bag_remove_other(b1, k_i, k_u);
                lemma_bag_remove_other(b2, k_l, k_u);
                lemma_bag_remove_other(b3, k_s, k_u);
                lemma_bag_remove_other(b0, k_t, k_r);
                lemma_bag_remove_other(b1, k_i, k_r);
                lemma_bag_remove_other(b2, k_l, k_r);
                lemma_bag_remove_other(b3, k_s, k_r);
                lemma_bag_remove_other(b4, k_u, k_r);
            }
            Some(Db { instance, link, statement, db_type: Some(db_type), user, rows_affected })
        },
        None => None,
    }
}

/// Keys consumed by the HTTP projection: the URL always; the status
/// code, method and response headers only when an HTTP context is
/// built.
pub open spec fn http_consumed(b: Seq<(String, AttrValue)>) -> Seq<(String, AttrValue)> {
    let b1 = bag_remove(b, "http.url"@);
    if bag_str(b, "http.url"@) is Some {
        bag_remove(
            bag_remove(bag_remove(b1, "http.status_code"@), "http.method"@),
            "http.response.headers"@,
        )
    } else {
        b1
    }
}

/// HTTP context of a span; present when a request URL was recorded.
pub fn http(bag: &mut AttrBag) -> (r: Option<Http>)
    requires
        old(bag).wf(),
    ensures
        final(bag)@ =~= http_consumed(old(bag)@),
        final(bag).wf(),
        r is Some <==> bag_str(old(bag)@, "http.url"@) is Some,
        r matches Some(h) ==> {
            &&& opt_str_v(h.url) == bag_str(old(bag)@, "http.url"@)
            &&& h.status_code == bag_i64(old(bag)@, "http.status_code"@)
            &&& opt_str_v(h.method) == bag_str(old(bag)@, "http.method"@)
            &&& match h.response {
                Some(resp) => {
                    &&& resp.status_code == bag_i64(old(bag)@, "http.status_code"@)
                    &&& opt_headers_v(resp.headers) == proj_headers(
                        old(bag)@,
                        "http.response.headers"@,
                    )
                },
                None => false,
            }
        },
{
    proof {
        reveal_strlit("http.url");
        reveal_strlit("http.status_code");
        reveal_strlit("http.method");
        reveal_strlit("http.response.headers");
    }
    let ghost k_url = "http.url"@;
    let ghost k_sc = "http.status_code"@;
    let ghost k_m = "http.method"@;
    let ghost k_rh = "http.response.headers"@;
    proof {
        assert(k_url.len() == 8);
        assert(k_sc.len() == 16);
        assert(k_m.len() == 11);
        assert(k_rh.len() == 21);
    }
    let ghost b0 = bag@;
    match bag.remove_str("http.url") {
        Some(url) => {
            let ghost b1 = bag@;
            let status_code = http_status_code(bag);
            let ghost b2 = bag@;
            let method = http_method(bag);
            let ghost b3 = bag@;
            let headers = http_response_headers(bag);
            proof {
                lemma_bag_remove_other(b0, k_url, k_sc);
                lemma_bag_remove_other(b0, k_url, k_m);
                lemma_bag_remove_other(b1, k_sc, k_m);
                lemma_bag_remove_other(b0, k_url, k_rh);
                lemma_bag_remove_other(b1, k_sc, k_rh);
                lemma_bag_remove_other(b2, k_m, k_rh);
            }
            Some(
                Http {
                    url: Some(url),
                    status_code,
                    method,
                    response: Some(Response { status_code, headers }),
                },
            )
        },
        None => None,
    }
}

/// The destination projection leaves every other key's value in place.
pub proof fn lemma_dest_consumed_other(b: Seq<(String, AttrValue)>, k: Seq<char>)
    requires
        k != "destination.service.name"@,
        k != "destination.address"@,
        k != "destination.port"@,
        k != "destination.service_type"@,
    ensures
        bag_lookup(dest_consumed(b), k) == bag_lookup(b, k),
{
    let b1 = bag_remove(b, "destination.service.name"@);
    lemma_bag_remove_other(b, "destination.service.name"@, k);
    if bag_str(b, "destination.service.name"@) is Some {
        let b2 = bag_remove(b1, "destination.address"@);
        let b3 = bag_remove(b2, "destination.port"@);
        lemma_bag_remove_other(b1, "destination.address"@, k);
        lemma_bag_remove_other(b2, "destination.port"@, k);
        lemma_bag_remove_other(b3, "destination.service_type"@, k);
    }
}

/// The database projection leaves every other key's value in place.
pub proof fn lemma_db_consumed_other(b: Seq<(String, AttrValue)>, k: Seq<char>)
    requires
        k != "db.db_type"@,
        k != "db.instance"@,
        k != "db.link"@,
        k != "db.statement"@,
        k != "db.user"@,
        k != "db.rows_affected"@,
    ensures
        bag_lookup(db_consumed(b), k) == bag_lookup(b, k),
{
    let b1 = bag_remove(b, "db.db_type"@);
    lemma_bag_remove_other(b, "db.db_type"@, k);
    if bag_str(b, "db.db_type"@) is Some {
        let b2 = bag_remove(b1, "db.instance"@);
        let b3 = bag_remove(b2, "db.link"@);
        let b4 = bag_remove(b3, "db.statement"@);
        let b5 = bag_remove(b4, "db.user"@);
        lemma_bag_remove_other(b1, "db.instance"@, k);
        lemma_bag_remove_other(b2, "db.link"@, k);
        lemma_bag_remove_other(b3, "db.statement"@, k);
        lemma_bag_remove_other(b4, "db.user"@, k);
        lemma_bag_remove_other(b5, "db.rows_affected"@, k);
    }
}

/// The HTTP projection leaves every other key's value in place.
pub proof fn lemma_http_consumed_other(b: Seq<(String, AttrValue)>, k: Seq<char>)
    requires
        k != "http.url"@,
        k != "http.status_code"@,
        k != "http.method"@,
        k != "http.response.headers"@,
    ensures
        bag_lookup(http_consumed(b), k) == bag_lookup(b, k),
{
    let b1 = bag_remove(b, "http.url"@);
    lemma_bag_remove_other(b, "http.url"@, k);
    if bag_str(b, "http.url"@) is Some {
        let b2 = bag_remove(b1, "http.status_code"@);
        let b3 = bag_remove(b2, "http.method"@);
        lemma_bag_remove_other(b1, "http.status_code"@, k);
        lemma_bag_remove_other(b2, "http.method"@, k);
        lemma_bag_remove_other(b3, "http.response.headers"@, k);
    }
}

/// What remote-context extraction yields: the trace and parent span id
/// of a `traceparent` entry inside the JSON-captured request headers.
pub open spec fn remote_context_spec(b: Seq<(String, AttrValue)>) -> Option<(TraceId, SpanId)> {
    match bag_str(b, "http.request.headers"@) {
        Some(h) => match json_header_pairs(h) {
            Some(pairs) => match find_pair(pairs, "traceparent"@) {
                Some(v) => parse_traceparent_spec(v),
                None => None,
            },
            None => None,
        },
        None => None,
    }
}

/// Remote trace context carried by a captured `traceparent` header, if
/// any. The bag is read, not consumed.
pub fn extract_traceparent(bag: &AttrBag) -> (r: Option<(TraceId, SpanId)>)
    ensures
        r == remote_context_spec(bag@),
{
    let h = match bag.get_str("http.request.headers") {
        Some(h) => h,
        None => {
            return None;
        },
    };
    let pairs = match parse_json_string_map(h.as_str()) {
        Some(p) => p,
        None => {
            return None;
        },
    };
    let ghost pv = pairs@.map_values(|q: (String, String)| (q.0@, q.1@));
    let n = pairs.len();
    let mut i: usize = 0;
    while i < n
        invariant
            i <= n,
            n == pairs@.len(),
            pv == pairs@.map_values(|q: (String, String)| (q.0@, q.1@)),
            json_header_pairs(h@) == Some(pv),
            bag_str(bag@, "http.request.headers"@) == Some(h@),
            forall|j: int| 0 <= j < i ==> pv[j].0 != "traceparent"@,
        decreases n - i,
    {
        let hit = str_eq(pairs[i].0.as_str(), "traceparent");
        if hit {
            proof {
                lemma_find_pair_at(pv, "traceparent"@, i as int);
            }
            return parse_traceparent(pairs[i].1.as_str());
        }
        i = i + 1;
    }
    proof {
        lemma_find_pair_none(pv, "traceparent"@);
    }
    None
}

} // verus!
