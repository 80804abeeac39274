//! The engine's cross-cutting guarantees, stated and proved over the
//! same specification functions that the lifecycle contracts use.

use vstd::prelude::*;

use crate::attrs::AttrValue;
use crate::client::{Batch, Payload};
use crate::ids::hex_render;
use crate::layer::{
    child_trace_of, close_result_matches, exit_timing, opened_state_matches, suppressed_spec,
    SpanState,
};
use crate::span_context::{SpanContext, SpanId};
use crate::trace_context::{TraceContext, TraceId};

verus! {

/// Transaction versus Span: a span opened without a parent and not
/// suppressed goes out, at close, as a Transaction; one opened under a
/// parent goes out as a Span, and its parent id is the rendering of
/// the parent's span id, which is never zero.
pub proof fn lemma_transaction_vs_span(
    st: SpanState,
    name: Seq<char>,
    b: Seq<(String, AttrValue)>,
    parent: Option<TraceContext>,
    wall_us: u64,
    mono_us: u64,
    minted_trace: TraceId,
    minted_span: SpanId,
    ignore: Option<Seq<char>>,
    r: Option<Batch>,
    level: String,
    target: String,
)
    requires
        opened_state_matches(
            st,
            name,
            b,
            parent,
            wall_us,
            mono_us,
            minted_trace,
            minted_span,
            ignore,
        ),
        !suppressed_spec(ignore, b),
        close_result_matches(st, r, level, target),
        (match parent {
            Some(pt) => pt.span_id.0 != 0,
            None => true,
        }),
    ensures
        parent is None ==> (match r {
            Some(batch) => batch.payload is Transaction,
            None => false,
        }),
        (match parent {
            Some(pt) => match r {
                Some(batch) => match batch.payload {
                    Payload::Span(sp) => sp.parent_id@ == hex_render(pt.span_id.0 as u128, 16)
                        && pt.span_id.0 != 0,
                    _ => false,
                },
                None => false,
            },
            None => true,
        }),
{
}

/// Trace linkage: a child span inherits its parent's trace and
/// transaction identifiers, and its parent id is exactly the parent's
/// span id.
pub proof fn lemma_trace_linkage(parent: TraceContext, minted_span: SpanId)
    ensures
        child_trace_of(parent, minted_span).trace_id == parent.trace_id,
        child_trace_of(parent, minted_span).transaction_id == parent.transaction_id,
        child_trace_of(parent, minted_span).parent_id == Some(parent.span_id),
        child_trace_of(parent, minted_span).span_id == minted_span,
{
}

/// Trace linkage of the emitted record: a child span opened under a
/// parent carries the parent's trace id, and its parent id is the
/// parent's own span id, both rendered as hex.
pub proof fn lemma_child_record_linkage(
    st: SpanState,
    name: Seq<char>,
    b: Seq<(String, AttrValue)>,
    pt: TraceContext,
    wall_us: u64,
    mono_us: u64,
    minted_trace: TraceId,
    minted_span: SpanId,
    ignore: Option<Seq<char>>,
)
    requires
        opened_state_matches(
            st,
            name,
            b,
            Some(pt),
            wall_us,
            mono_us,
            minted_trace,
            minted_span,
            ignore,
        ),
        !suppressed_spec(ignore, b),
    ensures
        st.trace.trace_id == pt.trace_id,
        st.trace.transaction_id == pt.transaction_id,
        st.trace.parent_id == Some(pt.span_id),
        (match st.inflight {
            crate::layer::Inflight::Span(sp) => sp.trace_id@ == hex_render(pt.trace_id.0, 32)
                && sp.parent_id@ == hex_render(pt.span_id.0 as u128, 16),
            _ => false,
        }),
{
}

/// Suppression completeness: a span whose attribute bag falls under
/// the ignore pattern at open emits nothing at close. (That its state
/// is released either way is part of the close contract itself.)
pub proof fn lemma_suppression_completeness(
    st: SpanState,
    name: Seq<char>,
    b: Seq<(String, AttrValue)>,
    parent: Option<TraceContext>,
    wall_us: u64,
    mono_us: u64,
    minted_trace: TraceId,
    minted_span: SpanId,
    ignore: Option<Seq<char>>,
    r: Option<Batch>,
    level: String,
    target: String,
)
    requires
        opened_state_matches(
            st,
            name,
            b,
            parent,
            wall_us,
            mono_us,
            minted_trace,
            minted_span,
            ignore,
        ),
        suppressed_spec(ignore, b),
        close_result_matches(st, r, level, target),
    ensures
        r is None,
{
}

/// Timing after a whole enter/exit interval: entering at `lo` and
/// exiting at `hi` adds `hi - lo` to the accumulated duration.
pub open spec fn interval_timing(t: SpanContext, lo: u64, hi: u64) -> SpanContext {
    exit_timing(crate::layer::enter_timing(t, lo), hi)
}

/// Timing after a sequence of enter/exit intervals, applied in order.
pub open spec fn apply_intervals(t: SpanContext, pairs: Seq<(u64, u64)>) -> SpanContext
    decreases pairs.len(),
{
    if pairs.len() == 0 {
        t
    } else {
        apply_intervals(interval_timing(t, pairs[0].0, pairs[0].1), pairs.drop_first())
    }
}

/// Total elapsed time of a sequence of intervals.
pub open spec fn sum_deltas(pairs: Seq<(u64, u64)>) -> int
    decreases pairs.len(),
{
    if pairs.len() == 0 {
        0
    } else {
        (pairs[0].1 - pairs[0].0) + sum_deltas(pairs.drop_first())
    }
}

/// Duration additivity: for any interleaving of enter/exit pairs whose
/// clock readings are ordered and whose total fits the accumulator,
/// the accumulated duration grows by exactly the sum of the interval
/// lengths.
pub proof fn lemma_duration_additivity(t: SpanContext, pairs: Seq<(u64, u64)>)
    requires
        forall|i: int| 0 <= i < pairs.len() ==> (#[trigger] pairs[i]).0 <= pairs[i].1,
        t.duration_us + sum_deltas(pairs) <= u64::MAX,
    ensures
        apply_intervals(t, pairs).duration_us == t.duration_us + sum_deltas(pairs),
    decreases pairs.len(),
{
    if pairs.len() > 0 {
        let t1 = interval_timing(t, pairs[0].0, pairs[0].1);
        lemma_sum_deltas_nonneg(pairs.drop_first());
        assert(t1.duration_us == t.duration_us + (pairs[0].1 - pairs[0].0));
        lemma_duration_additivity(t1, pairs.drop_first());
    }
}

/// The total elapsed time of ordered intervals is never negative.
proof fn lemma_sum_deltas_nonneg(pairs: Seq<(u64, u64)>)
    requires
        forall|i: int| 0 <= i < pairs.len() ==> (#[trigger] pairs[i]).0 <= pairs[i].1,
    ensures
        sum_deltas(pairs) >= 0,
    decreases pairs.len(),
{
    if pairs.len() > 0 {
        lemma_sum_deltas_nonneg(pairs.drop_first());
    }
}

} // verus!
