//! Messages about the progress of the synchronization.

use vstd::prelude::*;
use crate::number::{saturating_difference, BlockNumber};
use crate::queue::HeadersSync;
use crate::timing::{elapsed, read_from, time_between, Clock, PROGRESS_DELAY};
use crate::types::{HeaderIdOf, HeadersSyncPipeline};

verus! {

/// A message is due when the target has advanced by more headers than this since
/// the last one.
pub const PROGRESS_HEADERS: u32 = 10;

/// When the last message was printed, and the two numbers it has told: the best
/// header known to the target, and the best header of the source.
pub type ProgressContext<Number> = (u128, Option<Number>, Option<Number>);

/// Progress message: so many headers are synced, of so many.
pub struct ProgressMessage<Number> {
    /// Number of the best header known to the target.
    pub synced: Option<Number>,
    /// Number of the best header of the source.
    pub total: Option<Number>,
}

/// Is a message due?
pub open spec fn progress_due<P: HeadersSyncPipeline>(
    progress_context: ProgressContext<P::Number>,
    now_best_header: Option<HeaderIdOf<P>>,
    now_time: u128,
) -> bool {
    ||| time_between(progress_context.0, now_time) > PROGRESS_DELAY
    ||| match (progress_context.1, now_best_header) {
        (Some(prev), Some(now)) => saturating_difference(now.0.as_nat(), prev.as_nat())
            > PROGRESS_HEADERS,
        _ => false,
    }
}

/// Number of the header, if there is one.
pub open spec fn number_of<P: HeadersSyncPipeline>(id: Option<HeaderIdOf<P>>) -> Option<P::Number> {
    match id {
        Some(id) => Some(id.0),
        None => None,
    }
}

/// The context and the message, given the status of the queue.
pub open spec fn progress_made<P: HeadersSyncPipeline>(
    progress_context: ProgressContext<P::Number>,
    status: (Option<HeaderIdOf<P>>, Option<P::Number>),
    now_time: u128,
) -> (ProgressContext<P::Number>, Option<ProgressMessage<P::Number>>) {
    if progress_due::<P>(progress_context, status.0, now_time) {
        (
            (now_time, number_of::<P>(status.0), status.1),
            Some(ProgressMessage { synced: number_of::<P>(status.0), total: status.1 }),
        )
    } else {
        (progress_context, None)
    }
}

/// Context and message follow from some answer of the queue about its status.
pub open spec fn progress_printed<P: HeadersSyncPipeline, Q: HeadersSync<P>>(
    progress_context: ProgressContext<P::Number>,
    eth_sync: Q,
    now_time: u128,
    result: (ProgressContext<P::Number>, Option<ProgressMessage<P::Number>>),
) -> bool {
    exists|status: (Option<HeaderIdOf<P>>, Option<P::Number>)|
        {
            &&& #[trigger] call_ensures(Q::status, (&eth_sync,), status)
            &&& result == progress_made::<P>(progress_context, status, now_time)
        }
}

/// Decides whether a message is due, and moves the context on if it is.
pub fn make_progress<P: HeadersSyncPipeline>(
    progress_context: ProgressContext<P::Number>,
    status: (Option<HeaderIdOf<P>>, Option<P::Number>),
    now_time: u128,
) -> (result: (ProgressContext<P::Number>, Option<ProgressMessage<P::Number>>))
    ensures
        result == progress_made::<P>(progress_context, status, now_time),
{
    let (prev_time, prev_best_header, prev_target_header) = progress_context;
    let (now_best_header, now_target_header) = status;

    let need_update = elapsed(prev_time, now_time) > PROGRESS_DELAY || match (
        prev_best_header,
        now_best_header,
    ) {
        (Some(prev_best_header), Some(now_best_header)) => {
            now_best_header.0.saturating_sub(prev_best_header).exceeds(PROGRESS_HEADERS)
        },
        _ => false,
    };
    if !need_update {
        return ((prev_time, prev_best_header, prev_target_header), None);
    }
    let synced = match now_best_header {
        Some(id) => Some(id.0),
        None => None,
    };
    (
        (now_time, synced, now_target_header),
        Some(ProgressMessage { synced, total: now_target_header }),
    )
}

/// Print synchronization progress.
///
/// The message, if one is due, is for the caller to print; the context is the one
/// to come back with.
pub fn print_sync_progress<P: HeadersSyncPipeline, Q: HeadersSync<P>, C: Clock>(
    progress_context: ProgressContext<P::Number>,
    eth_sync: &Q,
    clock: C,
) -> (result: (C, (ProgressContext<P::Number>, Option<ProgressMessage<P::Number>>)))
    ensures
        exists|now_time: u128|
            {
                &&& read_from(clock, Some(now_time), result.0)
                &&& #[trigger] progress_printed::<P, Q>(
                    progress_context,
                    *eth_sync,
                    now_time,
                    result.1,
                )
            },
{
    let (clock, now_time) = clock.now();
    let status = eth_sync.status();
    let result = (clock, make_progress::<P>(progress_context, status, now_time));
    assert(progress_printed::<P, Q>(progress_context, *eth_sync, now_time, result.1));
    result
}

} // verus!
