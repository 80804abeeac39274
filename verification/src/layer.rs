//! The span-lifecycle engine: per-span state from open to close, and
//! the records emitted along the way.
//!
//! The host tracing substrate drives this engine with one call per
//! lifecycle event (open, record, enter, exit, close) plus one per log
//! event, each identified by the host's numeric span key. Clock
//! readings and freshly minted identifiers come in as plain values, so
//! every decision in here is verified; the callers supply wall-clock
//! microseconds, monotonic microseconds, and random identifiers.

use vstd::prelude::*;

use std::collections::HashMap;

use crate::attrs::{bag_merge, bag_remove, AttrBag, AttrValue};
use crate::client::{Batch, Payload};
use crate::error_log::{create_error_log, error_rec_matches};
use crate::fields::{extract_http_pathname, extract_traceparent, remote_context_spec};
use crate::metadata::{batch_labels, labels_match};
use crate::model::{Span, Transaction};
use crate::span::{close_span, closed_span_matches, create_span, span_consumed,
    span_close_consumed, span_rec_matches};
use crate::span_context::{SpanContext, SpanId};
use crate::trace_context::{TraceContext, TraceId};
use crate::transaction::{close_transaction, closed_tx_matches, create_transaction, tx_consumed,
    tx_close_consumed, tx_rec_matches};

verus! {

broadcast use vstd::std_specs::hash::group_hash_axioms, vstd::string::group_string_axioms;

/// Whether a pattern is a valid regular expression. Named for
/// `regex::Regex::new`.
pub uninterp spec fn regex_compiles(pattern: Seq<char>) -> bool;

/// Whether a valid pattern matches somewhere in a text. Named for
/// `regex::Regex::is_match`.
pub uninterp spec fn regex_match(pattern: Seq<char>, text: Seq<char>) -> bool;

/// Relies on `regex::Regex::new`: whether the pattern compiles; the
/// result depends on the pattern alone.
#[verifier::external_body]
fn regex_pattern_ok(pattern: &str) -> (r: bool)
    ensures
        r == regex_compiles(pattern@),
{
    regex::Regex::new(pattern).is_ok()
}

/// Relies on `regex::Regex::new` and `regex::Regex::is_match`: whether
/// the compiled pattern matches somewhere in the text; present exactly
/// when the pattern compiles, and a function of the two strings alone.
#[verifier::external_body]
fn regex_try_match(pattern: &str, text: &str) -> (r: Option<bool>)
    ensures
        r is Some <==> regex_compiles(pattern@),
        r matches Some(b) ==> b == regex_match(pattern@, text@),
{
    match regex::Regex::new(pattern) {
        Ok(re) => Some(re.is_match(text)),
        Err(_) => None,
    }
}

/// Why the layer could not be built.
#[derive(Clone, Copy, Debug, PartialEq, Eq, Structural)]
pub enum LayerError {
    /// The configured ignore-URL pattern is not a valid regex.
    InvalidIgnoreRegex,
}

/// The record a span will emit when it closes, or the mark that it
/// will emit nothing.
#[derive(Debug)]
pub enum Inflight {
    Transaction(Transaction),
    Span(Span),
    Suppressed,
}

/// Everything the engine keeps for one open span.
#[derive(Debug)]
pub struct SpanState {
    /// The span's attribute bag, as left by the record build and later
    /// `on_record` merges.
    pub attrs: AttrBag,
    /// Trace linkage of this span.
    pub trace: TraceContext,
    /// Accumulated entered time and last-entered instant.
    pub timing: SpanContext,
    /// The record to emit at close, or the suppression mark.
    pub inflight: Inflight,
}

impl SpanState {
    /// Per-span invariant: the bag keys are distinct, the span id is
    /// valid, and a Span record implies a parent.
    pub open spec fn wf(&self) -> bool {
        &&& self.attrs.wf()
        &&& self.trace.span_id.0 != 0
        &&& (self.inflight is Span ==> self.trace.parent_id is Some)
    }
}

/// Whether a span with this attribute bag is suppressed under this
/// ignore pattern: the pattern exists and matches the recorded request
/// path.
pub open spec fn suppressed_spec(ignore: Option<Seq<char>>, b: Seq<(String, AttrValue)>) -> bool {
    match ignore {
        Some(p) => match crate::attrs::bag_str(b, "http.pathname"@) {
            Some(path) => regex_match(p, path),
            None => false,
        },
        None => false,
    }
}

/// The trace context a root span gets: minted trace and span ids, the
/// span as its own transaction, and - when the captured request
/// headers carry a traceparent - the remote trace id and parent.
pub open spec fn root_trace_of(
    minted_trace: TraceId,
    minted_span: SpanId,
    b: Seq<(String, AttrValue)>,
) -> TraceContext {
    let base = TraceContext {
        trace_id: minted_trace,
        transaction_id: minted_span,
        span_id: minted_span,
        parent_id: None,
    };
    match remote_context_spec(b) {
        Some((rt, rp)) => TraceContext { trace_id: rt, parent_id: Some(rp), ..base },
        None => base,
    }
}

/// The trace context a child span gets: the parent's trace and
/// transaction, a minted span id, and the parent's span id as parent.
pub open spec fn child_trace_of(parent: TraceContext, minted_span: SpanId) -> TraceContext {
    TraceContext {
        trace_id: parent.trace_id,
        transaction_id: parent.transaction_id,
        span_id: minted_span,
        parent_id: Some(parent.span_id),
    }
}

/// What the state of a freshly opened span holds: the derived trace
/// context, zeroed timing, and - unless the span is suppressed - the
/// in-flight record built from the attribute bag, which consumed the
/// reserved names.
pub open spec fn opened_state_matches(
    st: SpanState,
    name: Seq<char>,
    b: Seq<(String, AttrValue)>,
    parent: Option<TraceContext>,
    wall_us: u64,
    mono_us: u64,
    minted_trace: TraceId,
    minted_span: SpanId,
    ignore: Option<Seq<char>>,
) -> bool {
    let trace = match parent {
        Some(pt) => child_trace_of(pt, minted_span),
        None => root_trace_of(minted_trace, minted_span, b),
    };
    let suppressed = suppressed_spec(ignore, b);
    &&& st.trace == trace
    &&& st.timing == (SpanContext { duration_us: 0, last_timestamp_us: mono_us })
    &&& (suppressed ==> st.inflight is Suppressed && st.attrs@ == b)
    &&& (!suppressed ==> (match parent {
        Some(_) => (match st.inflight {
            Inflight::Span(rec) => span_rec_matches(rec, name, b, trace, wall_us) && st.attrs@
                == span_consumed(b),
            _ => false,
        }),
        None => (match st.inflight {
            Inflight::Transaction(rec) => tx_rec_matches(rec, name, b, trace, wall_us)
                && st.attrs@ == tx_consumed(b),
            _ => false,
        }),
    }))
}

/// Timing after an enter: the last-entered instant moves to now.
pub open spec fn enter_timing(t: SpanContext, now: u64) -> SpanContext {
    SpanContext { duration_us: t.duration_us, last_timestamp_us: now }
}

/// Timing after an exit: the time since the last enter is added to the
/// accumulated duration; a clock reading behind the last enter counts
/// as zero, and the accumulator saturates.
pub open spec fn exit_timing(t: SpanContext, now: u64) -> SpanContext {
    let delta = if now >= t.last_timestamp_us {
        now - t.last_timestamp_us
    } else {
        0
    };
    let acc = if t.duration_us + delta <= u64::MAX {
        (t.duration_us + delta) as u64
    } else {
        u64::MAX
    };
    SpanContext { duration_us: acc, last_timestamp_us: t.last_timestamp_us }
}

/// What closing a span with the given state emits: nothing when it was
/// suppressed; otherwise one batch whose payload is the closed
/// in-flight record stamped with the accumulated duration, and whose
/// labels are the leftover attributes under the span's level and
/// target.
pub open spec fn close_result_matches(
    st: SpanState,
    r: Option<Batch>,
    level: String,
    target: String,
) -> bool {
    match st.inflight {
        Inflight::Suppressed => r is None,
        Inflight::Transaction(tx0) => match r {
            Some(b) => {
                &&& (match b.payload {
                    Payload::Transaction(t1) => closed_tx_matches(
                        t1,
                        (Transaction { duration_us: st.timing.duration_us, ..tx0 }),
                        st.attrs@,
                    ),
                    _ => false,
                })
                &&& labels_match(b.labels, tx_close_consumed(st.attrs@), level, target)
            },
            None => false,
        },
        Inflight::Span(sp0) => match r {
            Some(b) => {
                &&& (match b.payload {
                    Payload::Span(s1) => closed_span_matches(
                        s1,
                        (Span { duration_us: st.timing.duration_us, ..sp0 }),
                        st.attrs@,
                    ),
                    _ => false,
                })
                &&& labels_match(b.labels, span_close_consumed(st.attrs@), level, target)
            },
            None => false,
        },
    }
}

/// What an error-level event with a parent span emits: one batch whose
/// payload is the Error record linked to the parent's trace, and whose
/// labels are the leftover event attributes under the event's level
/// and target.
pub open spec fn event_result_matches(
    r: Option<Batch>,
    trace: TraceContext,
    b: Seq<(String, AttrValue)>,
    level: String,
    target: String,
    error_id: u128,
) -> bool {
    match r {
        Some(batch) => {
            &&& (match batch.payload {
                Payload::Error(e) => error_rec_matches(e, error_id, b, level, target, trace),
                _ => false,
            })
            &&& labels_match(batch.labels, bag_remove(b, "message"@), level, target)
        },
        None => false,
    }
}

/// The span-lifecycle engine: per-span state keyed by the host's span
/// id, and the compiled ignore-URL pattern.
pub struct ApmLayer {
    spans: HashMap<u64, SpanState>,
    ignore_urls: Option<String>,
}

impl ApmLayer {
    /// The per-span states, by host span key.
    pub closed spec fn states(&self) -> Map<u64, SpanState> {
        self.spans@
    }

    /// The ignore-URL pattern, if one is configured.
    pub closed spec fn ignore_pattern(&self) -> Option<Seq<char>> {
        match self.ignore_urls {
            Some(p) => Some(p@),
            None => None,
        }
    }

    /// Engine invariant: the ignore pattern compiles, and every stored
    /// span state is well formed.
    pub open spec fn wf(&self) -> bool {
        &&& (match self.ignore_pattern() {
            Some(p) => regex_compiles(p),
            None => true,
        })
        &&& forall|k: u64|
            self.states().contains_key(k) ==> (#[trigger] self.states()[k]).wf()
    }

    /// Build the engine, validating the ignore-URL pattern.
    pub fn new(ignore_urls: Option<String>) -> (r: Result<ApmLayer, LayerError>)
        ensures
            (r is Ok <==> (match ignore_urls {
                Some(p) => regex_compiles(p@),
                None => true,
            })),
            (match r {
                Ok(layer) => {
                    &&& layer.wf()
                    &&& layer.states() =~= Map::<u64, SpanState>::empty()
                    &&& layer.ignore_pattern() == (match ignore_urls {
                        Some(p) => Some(p@),
                        None => None,
                    })
                },
                Err(e) => e == LayerError::InvalidIgnoreRegex,
            }),
    {
        match ignore_urls {
            Some(p) => {
                if regex_pattern_ok(p.as_str()) {
                    Ok(ApmLayer { spans: HashMap::new(), ignore_urls: Some(p) })
                } else {
                    Err(LayerError::InvalidIgnoreRegex)
                }
            },
            None => Ok(ApmLayer { spans: HashMap::new(), ignore_urls: None }),
        }
    }

    /// Whether a span with this attribute bag falls under the
    /// ignore-URL filter.
    pub fn is_filter_urls(&self, bag: &AttrBag) -> (r: bool)
        requires
            self.wf(),
        ensures
            r == suppressed_spec(self.ignore_pattern(), bag@),
    {
        match &self.ignore_urls {
            Some(p) => {
                match extract_http_pathname(bag) {
                    Some(path) => {
                        match regex_try_match(p.as_str(), path.as_str()) {
                            Some(b) => b,
                            None => false,
                        }
                    },
                    None => false,
                }
            },
            None => false,
        }
    }

    /// Open a span with caller-supplied identifiers: derive its trace
    /// context (inheriting from the parent, or minting a root that a
    /// captured traceparent may override), build the in-flight record
    /// unless the ignore filter suppresses it, and store the state
    /// under the host key.
    pub fn on_new_span_with_ids(
        &mut self,
        key: u64,
        name: String,
        attrs: AttrBag,
        parent_key: Option<u64>,
        wall_us: u64,
        mono_us: u64,
        minted_trace: TraceId,
        minted_span: SpanId,
    )
        requires
            old(self).wf(),
            attrs.wf(),
            !old(self).states().contains_key(key),
            minted_span.0 != 0,
            (match parent_key {
                Some(pk) => old(self).states().contains_key(pk),
                None => true,
            }),
        ensures
            final(self).wf(),
            final(self).ignore_pattern() == old(self).ignore_pattern(),
            final(self).states().dom() =~= old(self).states().dom().insert(key),
            forall|k: u64|
                #[trigger] old(self).states().contains_key(k) && k != key ==> final(self).states()[k] == old(self).states()[k],
            opened_state_matches(
                final(self).states()[key],
                name@,
                attrs@,
                (match parent_key {
                    Some(pk) => Some(old(self).states()[pk].trace),
                    None => None,
                }),
                wall_us,
                mono_us,
                minted_trace,
                minted_span,
                old(self).ignore_pattern(),
            ),
    {
        let mut bag = attrs;
        let trace = match parent_key {
            Some(pk) => {
                match self.spans.get(&pk) {
                    Some(p) => TraceContext {
                        trace_id: p.trace.trace_id,
                        transaction_id: p.trace.transaction_id,
                        span_id: minted_span,
                        parent_id: Some(p.trace.span_id),
                    },
                    None => {
                        proof {
                            assert(false);
                        }
                        TraceContext {
                            trace_id: minted_trace,
                            transaction_id: minted_span,
                            span_id: minted_span,
                            parent_id: None,
                        }
                    },
                }
            },
            None => {
                let base = TraceContext {
                    trace_id: minted_trace,
                    transaction_id: minted_span,
                    span_id: minted_span,
                    parent_id: None,
                };
                match extract_traceparent(&bag) {
                    Some((rt, rp)) => TraceContext {
                        trace_id: rt,
                        transaction_id: base.transaction_id,
                        span_id: base.span_id,
                        parent_id: Some(rp),
                    },
                    None => base,
                }
            },
        };
        let suppressed = self.is_filter_urls(&bag);
        let inflight = if suppressed {
            Inflight::Suppressed
        } else {
            match parent_key {
                Some(_) => Inflight::Span(create_span(wall_us, name, &mut bag, &trace)),
                None => Inflight::Transaction(create_transaction(wall_us, name, &mut bag, &trace)),
            }
        };
        let st = SpanState {
            attrs: bag,
            trace,
            timing: SpanContext { duration_us: 0, last_timestamp_us: mono_us },
            inflight,
        };
        self.spans.insert(key, st);
    }

    /// Open a span, minting fresh random identifiers. A zero draw for
    /// the span id is replaced by one, so the stored span id is always
    /// valid.
    pub fn on_new_span(
        &mut self,
        key: u64,
        name: String,
        attrs: AttrBag,
        parent_key: Option<u64>,
        wall_us: u64,
        mono_us: u64,
    )
        requires
            old(self).wf(),
            attrs.wf(),
            !old(self).states().contains_key(key),
            (match parent_key {
                Some(pk) => old(self).states().contains_key(pk),
                None => true,
            }),
        ensures
            final(self).wf(),
            final(self).ignore_pattern() == old(self).ignore_pattern(),
            final(self).states().dom() =~= old(self).states().dom().insert(key),
            forall|k: u64|
                #[trigger] old(self).states().contains_key(k) && k != key ==> final(self).states()[k] == old(self).states()[k],
            (match parent_key {
                Some(pk) => exists|t: TraceId, s: SpanId|
                    s.0 != 0 && #[trigger] opened_state_matches(
                        final(self).states()[key],
                        name@,
                        attrs@,
                        Some(old(self).states()[pk].trace),
                        wall_us,
                        mono_us,
                        t,
                        s,
                        old(self).ignore_pattern(),
                    ),
                None => exists|t: TraceId, s: SpanId|
                    s.0 != 0 && #[trigger] opened_state_matches(
                        final(self).states()[key],
                        name@,
                        attrs@,
                        None,
                        wall_us,
                        mono_us,
                        t,
                        s,
                        old(self).ignore_pattern(),
                    ),
            }),
    {
        let minted_trace = TraceId::rand();
        let drawn = SpanId::rand();
        let minted_span = if drawn.0 == 0 {
            SpanId(1)
        } else {
            drawn
        };
        self.on_new_span_with_ids(
            key,
            name,
            attrs,
            parent_key,
            wall_us,
            mono_us,
            minted_trace,
            minted_span,
        );
    }

    /// Merge late-recorded attributes into a span's bag.
    pub fn on_record(&mut self, key: u64, updates: AttrBag)
        requires
            old(self).wf(),
            old(self).states().contains_key(key),
        ensures
            final(self).wf(),
            final(self).ignore_pattern() == old(self).ignore_pattern(),
            final(self).states().dom() =~= old(self).states().dom(),
            forall|k: u64|
                #[trigger] old(self).states().contains_key(k) && k != key ==> final(self).states()[k] == old(self).states()[k],
            final(self).states()[key].attrs@ =~= bag_merge(
                old(self).states()[key].attrs@,
                updates@,
            ),
            final(self).states()[key].trace == old(self).states()[key].trace,
            final(self).states()[key].timing == old(self).states()[key].timing,
            final(self).states()[key].inflight == old(self).states()[key].inflight,
    {
        proof {
            assert(old(self).states()[key].wf());
        }
        match self.spans.remove(&key) {
            Some(st) => {
                let SpanState { attrs: mut bag, trace, timing, inflight } = st;
                bag.merge(updates);
                self.spans.insert(key, SpanState { attrs: bag, trace, timing, inflight });
            },
            None => {
                proof {
                    assert(false);
                }
            },
        }
    }

    /// Note that the span was entered now.
    pub fn on_enter(&mut self, key: u64, mono_us: u64)
        requires
            old(self).wf(),
            old(self).states().contains_key(key),
        ensures
            final(self).wf(),
            final(self).ignore_pattern() == old(self).ignore_pattern(),
            final(self).states().dom() =~= old(self).states().dom(),
            forall|k: u64|
                #[trigger] old(self).states().contains_key(k) && k != key ==> final(self).states()[k] == old(self).states()[k],
            final(self).states()[key].timing == enter_timing(
                old(self).states()[key].timing,
                mono_us,
            ),
            final(self).states()[key].attrs == old(self).states()[key].attrs,
            final(self).states()[key].trace == old(self).states()[key].trace,
            final(self).states()[key].inflight == old(self).states()[key].inflight,
    {
        proof {
            assert(old(self).states()[key].wf());
        }
        match self.spans.remove(&key) {
            Some(st) => {
                let SpanState { attrs, trace, timing, inflight } = st;
                let timing = SpanContext {
                    duration_us: timing.duration_us,
                    last_timestamp_us: mono_us,
                };
                self.spans.insert(key, SpanState { attrs, trace, timing, inflight });
            },
            None => {
                proof {
                    assert(false);
                }
            },
        }
    }

    /// Note that the span was exited now: add the entered time to the
    /// accumulated duration.
    pub fn on_exit(&mut self, key: u64, mono_us: u64)
        requires
            old(self).wf(),
            old(self).states().contains_key(key),
        ensures
            final(self).wf(),
            final(self).ignore_pattern() == old(self).ignore_pattern(),
            final(self).states().dom() =~= old(self).states().dom(),
            forall|k: u64|
                #[trigger] old(self).states().contains_key(k) && k != key ==> final(self).states()[k] == old(self).states()[k],
            final(self).states()[key].timing == exit_timing(
                old(self).states()[key].timing,
                mono_us,
            ),
            final(self).states()[key].attrs == old(self).states()[key].attrs,
            final(self).states()[key].trace == old(self).states()[key].trace,
            final(self).states()[key].inflight == old(self).states()[key].inflight,
    {
        proof {
            assert(old(self).states()[key].wf());
        }
        match self.spans.remove(&key) {
            Some(st) => {
                let SpanState { attrs, trace, timing, inflight } = st;
                let delta = if mono_us >= timing.last_timestamp_us {
                    mono_us - timing.last_timestamp_us
                } else {
                    0
                };
                let acc = if timing.duration_us <= u64::MAX - delta {
                    timing.duration_us + delta
                } else {
                    u64::MAX
                };
                let timing = SpanContext {
                    duration_us: acc,
                    last_timestamp_us: timing.last_timestamp_us,
                };
                self.spans.insert(key, SpanState { attrs, trace, timing, inflight });
            },
            None => {
                proof {
                    assert(false);
                }
            },
        }
    }

    /// Close a span: remove its state, and unless it was suppressed,
    /// stamp the accumulated duration, apply the close-time projection
    /// and hand back the batch to emit. State is released either way.
    pub fn on_close(&mut self, key: u64, level: String, target: String) -> (r: Option<Batch>)
        requires
            old(self).wf(),
            old(self).states().contains_key(key),
        ensures
            final(self).wf(),
            final(self).ignore_pattern() == old(self).ignore_pattern(),
            final(self).states() =~= old(self).states().remove(key),
            close_result_matches(old(self).states()[key], r, level, target),
    {
        proof {
            assert(old(self).states()[key].wf());
        }
        match self.spans.remove(&key) {
            Some(st) => {
                let SpanState { attrs: mut bag, trace: _, timing, inflight } = st;
                match inflight {
                    Inflight::Suppressed => None,
                    Inflight::Transaction(tx) => {
                        let mut tx = tx;
                        tx.duration_us = timing.duration_us;
                        close_transaction(&mut tx, &mut bag);
                        let labels = batch_labels(&bag, level, target);
                        Some(Batch { labels, payload: Payload::Transaction(tx) })
                    },
                    Inflight::Span(sp) => {
                        let mut sp = sp;
                        sp.duration_us = timing.duration_us;
                        close_span(&mut sp, &mut bag);
                        let labels = batch_labels(&bag, level, target);
                        Some(Batch { labels, payload: Payload::Span(sp) })
                    },
                }
            },
            None => {
                proof {
                    assert(false);
                }
                None
            },
        }
    }

    /// Handle a log event with a caller-supplied error id: only
    /// error-level events with a parent span produce an Error record;
    /// anything else is dropped.
    pub fn on_event_with_id(
        &self,
        parent_key: Option<u64>,
        level: String,
        target: String,
        attrs: AttrBag,
        error_id: u128,
    ) -> (r: Option<Batch>)
        requires
            self.wf(),
            attrs.wf(),
            (match parent_key {
                Some(pk) => level@ == "ERROR"@ ==> self.states().contains_key(pk),
                None => true,
            }),
        ensures
            level@ != "ERROR"@ ==> r is None,
            parent_key is None ==> r is None,
            (match parent_key {
                Some(pk) => level@ == "ERROR"@ ==> event_result_matches(
                    r,
                    self.states()[pk].trace,
                    attrs@,
                    level,
                    target,
                    error_id,
                ),
                None => true,
            }),
    {
        if !crate::strutil::str_eq(level.as_str(), "ERROR") {
            return None;
        }
        match parent_key {
            None => None,
            Some(pk) => {
                proof {
                    assert(self.states()[pk].wf());
                }
                match self.spans.get(&pk) {
                    Some(st) => {
                        let mut bag = attrs;
                        let level2 = level.clone();
                        let target2 = target.clone();
                        let err = create_error_log(error_id, &mut bag, level, target, &st.trace);
                        let labels = batch_labels(&bag, level2, target2);
                        Some(Batch { labels, payload: Payload::Error(err) })
                    },
                    None => {
                        proof {
                            assert(false);
                        }
                        None
                    },
                }
            },
        }
    }

    /// Handle a log event, drawing a fresh random error id.
    pub fn on_event(
        &self,
        parent_key: Option<u64>,
        level: String,
        target: String,
        attrs: AttrBag,
    ) -> (r: Option<Batch>)
        requires
            self.wf(),
            attrs.wf(),
            (match parent_key {
                Some(pk) => level@ == "ERROR"@ ==> self.states().contains_key(pk),
                None => true,
            }),
        ensures
            level@ != "ERROR"@ ==> r is None,
            parent_key is None ==> r is None,
            (match parent_key {
                Some(pk) => level@ == "ERROR"@ ==> exists|id: u128|
                    #[trigger] event_result_matches(
                        r,
                        self.states()[pk].trace,
                        attrs@,
                        level,
                        target,
                        id,
                    ),
                None => true,
            }),
    {
        let error_id = crate::rng::random_u128();
        self.on_event_with_id(parent_key, level, target, attrs, error_id)
    }

    /// The trace context of an open span, for traceparent injection on
    /// outbound calls.
    pub fn get_context(&self, key: u64) -> (r: Option<TraceContext>)
        ensures
            (match r {
                Some(ctx) => self.states().contains_key(key) && ctx == self.states()[key].trace,
                None => !self.states().contains_key(key),
            }),
    {
        match self.spans.get(&key) {
            Some(st) => Some(st.trace),
            None => None,
        }
    }
}

} // verus!
