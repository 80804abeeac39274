//! Building Error records from error-level log events.

use vstd::prelude::*;

use crate::attrs::{bag_remove, AttrBag, AttrValue};
use crate::fields::{message, proj_str_or};
use crate::ids::hex_render;
use crate::model::{Error, Log};
use crate::trace_context::TraceContext;

verus! {

/// What the Error record of an error-level event holds, given the
/// drawn id, the event's attribute bag, its level and target, and the
/// parent span's trace context.
pub open spec fn error_rec_matches(
    r: Error,
    error_id: u128,
    b: Seq<(String, AttrValue)>,
    level: String,
    target: String,
    trace: TraceContext,
) -> bool {
    &&& r.id@ == hex_render(error_id, 32)
    &&& (match r.trace_id {
        Some(t) => t@ == hex_render(trace.trace_id.0, 32),
        None => false,
    })
    &&& (match r.parent_id {
        Some(p) => p@ == hex_render(trace.span_id.0 as u128, 16),
        None => false,
    })
    &&& r.transaction_id is None
    &&& r.transaction is None
    &&& r.context is None
    &&& r.exception is None
    &&& (match r.culprit {
        Some(c) => c == target,
        None => false,
    })
    &&& (match r.log {
        Some(log) => {
            &&& match log.level {
                Some(l) => l == level,
                None => false,
            }
            &&& log.message@ == proj_str_or(b, "message"@, ""@)
            &&& log.logger_name is None
            &&& log.param_message is None
        },
        None => false,
    })
}

/// Build the Error record for an error-level event: a fresh 128-bit
/// id rendered as hex, trace linkage from the parent span's context,
/// the event's target as culprit, and its level and message in the
/// log detail. The `message` attribute is consumed from the bag.
pub fn create_error_log(
    error_id: u128,
    bag: &mut AttrBag,
    level: String,
    target: String,
    trace: &TraceContext,
) -> (r: Error)
    requires
        old(bag).wf(),
    ensures
        final(bag)@ =~= bag_remove(old(bag)@, "message"@),
        final(bag).wf(),
        error_rec_matches(r, error_id, old(bag)@, level, target, *trace),
{
    let msg = message(bag);
    Error {
        id: crate::strutil::ascii_to_string(crate::ids::hex_bytes(error_id, 32)),
        trace_id: Some(trace.trace_id.to_hex()),
        transaction_id: None,
        parent_id: Some(trace.span_id.to_hex()),
        transaction: None,
        context: None,
        culprit: Some(target),
        exception: None,
        log: Some(
            Log { level: Some(level), logger_name: None, message: msg, param_message: None },
        ),
    }
}

} // verus!
