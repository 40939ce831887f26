//! What the loop makes of each answer and of each failure: which call it makes on the
//! queue, with which arguments, and what it remembers.

use vstd::prelude::*;
use std::collections::HashSet;
use crate::clients::{SourceClient, TargetClient};
use crate::failure::Failure;
use crate::handling::{
    event_handled, source_event_handled, target_event_handled, target_head_handled,
};
use crate::queue::HeadersSync;
use crate::state::{Event, Reaction, SourceEvent, SyncLoop, TargetEvent};
use crate::timing::{HeadMoments, CONNECTION_ERROR_DELAY, STALL_SYNC_TIMEOUT};
use crate::types::{HeaderIdOf, HeaderStatus, HeadersSyncPipeline, MaybeConnectionError};

verus! {

/// The queue is told the very best block number that the source node has answered, and
/// the number need not be asked for any more.
pub proof fn law_best_number_is_told<
    P: HeadersSyncPipeline,
    S: SourceClient<P>,
    T: TargetClient<P>,
    Q: HeadersSync<P>,
>(
    before: SyncLoop<P, S, T>,
    sync: Q,
    client: S,
    number: P::Number,
    after: SyncLoop<P, S, T>,
    sync_after: Q,
    failure: Option<Failure<S, S::Error>>,
)
    requires
        source_event_handled(
            before,
            sync,
            SourceEvent::BestBlockNumber(client, Ok(number)),
            after,
            sync_after,
            failure,
        ),
    ensures
        call_ensures(Q::source_best_header_number_response, (sync, number), sync_after),
        after == (SyncLoop { source_client: Some(client), source_best_block_number_required: false, ..before }),
        failure is None,
{
}

/// The queue is told the very header that the source node has sent.
pub proof fn law_new_header_is_told<
    P: HeadersSyncPipeline,
    S: SourceClient<P>,
    T: TargetClient<P>,
    Q: HeadersSync<P>,
>(
    before: SyncLoop<P, S, T>,
    sync: Q,
    client: S,
    header: P::Header,
    after: SyncLoop<P, S, T>,
    sync_after: Q,
    failure: Option<Failure<S, S::Error>>,
)
    requires
        source_event_handled(
            before,
            sync,
            SourceEvent::NewHeader(client, Ok(header)),
            after,
            sync_after,
            failure,
        ),
    ensures
        call_ensures(Q::header_response, (sync, header), sync_after),
        after == (SyncLoop { source_client: Some(client), ..before }),
        failure is None,
{
}

/// The queue is told the very header that the source node has sent for an orphan.
pub proof fn law_orphan_header_is_told<
    P: HeadersSyncPipeline,
    S: SourceClient<P>,
    T: TargetClient<P>,
    Q: HeadersSync<P>,
>(
    before: SyncLoop<P, S, T>,
    sync: Q,
    client: S,
    header: P::Header,
    after: SyncLoop<P, S, T>,
    sync_after: Q,
    failure: Option<Failure<S, S::Error>>,
)
    requires
        source_event_handled(
            before,
            sync,
            SourceEvent::OrphanHeader(client, Ok(header)),
            after,
            sync_after,
            failure,
        ),
    ensures
        call_ensures(Q::header_response, (sync, header), sync_after),
        after == (SyncLoop { source_client: Some(client), ..before }),
        failure is None,
{
}

/// The queue is told the very extra data that the source node has sent, for the very
/// header.
pub proof fn law_extra_data_is_told<
    P: HeadersSyncPipeline,
    S: SourceClient<P>,
    T: TargetClient<P>,
    Q: HeadersSync<P>,
>(
    before: SyncLoop<P, S, T>,
    sync: Q,
    client: S,
    id: HeaderIdOf<P>,
    extra: P::Extra,
    after: SyncLoop<P, S, T>,
    sync_after: Q,
    failure: Option<Failure<S, S::Error>>,
)
    requires
        source_event_handled(
            before,
            sync,
            SourceEvent::Extra(client, Ok((id, extra))),
            after,
            sync_after,
            failure,
        ),
    ensures
        call_ensures(Q::extra_response, (sync, id, extra), sync_after),
        after == (SyncLoop { source_client: Some(client), ..before }),
        failure is None,
{
}

/// The queue is told the very completion data that the source node has answered with,
/// be it some or none, for the very header.
pub proof fn law_completion_data_is_told<
    P: HeadersSyncPipeline,
    S: SourceClient<P>,
    T: TargetClient<P>,
    Q: HeadersSync<P>,
>(
    before: SyncLoop<P, S, T>,
    sync: Q,
    client: S,
    id: HeaderIdOf<P>,
    completion: Option<P::Completion>,
    after: SyncLoop<P, S, T>,
    sync_after: Q,
    failure: Option<Failure<S, S::Error>>,
)
    requires
        source_event_handled(
            before,
            sync,
            SourceEvent::Completion(client, Ok((id, completion))),
            after,
            sync_after,
            failure,
        ),
    ensures
        call_ensures(Q::completion_response, (sync, id, completion), sync_after),
        after == (SyncLoop { source_client: Some(client), ..before }),
        failure is None,
{
}

/// The queue is told nothing of a request to the source node that has failed. The
/// client is available again, unless the connection has caused the error; in that
/// case it is handed out to rest, and whoever was available still is. Only the
/// request for the best block number leaves a trace: it is over.
pub proof fn law_failed_source_request_is_not_told<
    P: HeadersSyncPipeline,
    S: SourceClient<P>,
    T: TargetClient<P>,
    Q: HeadersSync<P>,
>(
    before: SyncLoop<P, S, T>,
    sync: Q,
    event: SourceEvent<P, S>,
    client: S,
    error: S::Error,
    after: SyncLoop<P, S, T>,
    sync_after: Q,
    failure: Option<Failure<S, S::Error>>,
)
    requires
        source_event_handled(before, sync, event, after, sync_after, failure),
        ({
            ||| event == SourceEvent::<P, S>::BestBlockNumber(client, Err(error))
            ||| event == SourceEvent::<P, S>::NewHeader(client, Err(error))
            ||| event == SourceEvent::<P, S>::OrphanHeader(client, Err(error))
            ||| event == SourceEvent::<P, S>::Extra(client, Err(error))
            ||| event == SourceEvent::<P, S>::Completion(client, Err(error))
        }),
    ensures
        sync_after == sync,
        after == (SyncLoop {
            source_client: after.source_client,
            source_best_block_number_required: before.source_best_block_number_required
                && !(event is BestBlockNumber),
            ..before
        }),
        ({
            ||| {
                &&& call_ensures(S::Error::is_connection_error, (&error,), true)
                &&& after.source_client == before.source_client
                &&& failure == Some(
                    Failure::GoOffline { client, delay: CONNECTION_ERROR_DELAY, error },
                )
            }
            ||| {
                &&& call_ensures(S::Error::is_connection_error, (&error,), false)
                &&& after.source_client == Some(client)
                &&& failure == Some(Failure::<S, S::Error>::Failed(error))
            }
        }),
{
}

/// A source client that has rested is available again, and nothing else changes.
pub proof fn law_source_reconnects<
    P: HeadersSyncPipeline,
    S: SourceClient<P>,
    T: TargetClient<P>,
    Q: HeadersSync<P>,
>(
    before: SyncLoop<P, S, T>,
    sync: Q,
    client: S,
    after: SyncLoop<P, S, T>,
    sync_after: Q,
    failure: Option<Failure<S, S::Error>>,
)
    requires
        source_event_handled(
            before,
            sync,
            SourceEvent::Reconnect(client),
            after,
            sync_after,
            failure,
        ),
    ensures
        sync_after == sync,
        after == (SyncLoop { source_client: Some(client), ..before }),
        failure is None,
{
}

/// At a tick of the source node the best block number becomes required if the queue
/// answers that the target is close to the source, and nothing else changes.
pub proof fn law_source_tick<
    P: HeadersSyncPipeline,
    S: SourceClient<P>,
    T: TargetClient<P>,
    Q: HeadersSync<P>,
>(
    before: SyncLoop<P, S, T>,
    sync: Q,
    after: SyncLoop<P, S, T>,
    sync_after: Q,
    failure: Option<Failure<S, S::Error>>,
)
    requires
        source_event_handled(before, sync, SourceEvent::Tick, after, sync_after, failure),
    ensures
        sync_after == sync,
        failure is None,
        ({
            ||| {
                &&& call_ensures(Q::is_almost_synced, (&sync,), true)
                &&& after == (SyncLoop { source_best_block_number_required: true, ..before })
            }
            ||| {
                &&& call_ensures(Q::is_almost_synced, (&sync,), false)
                &&& after == before
            }
        }),
{
}

/// The queue is told the very headers that the target node wants completed, and they
/// need not be asked for any more.
pub proof fn law_incomplete_headers_are_told<
    P: HeadersSyncPipeline,
    S: SourceClient<P>,
    T: TargetClient<P>,
    Q: HeadersSync<P>,
>(
    before: SyncLoop<P, S, T>,
    sync: Q,
    client: T,
    ids: HashSet<HeaderIdOf<P>>,
    moments: HeadMoments,
    after: SyncLoop<P, S, T>,
    sync_after: Q,
    failure: Option<Failure<T, T::Error>>,
    restarted: bool,
)
    requires
        target_event_handled(
            before,
            sync,
            TargetEvent::IncompleteHeaders(client, Ok(ids)),
            moments,
            after,
            sync_after,
            failure,
            restarted,
        ),
    ensures
        call_ensures(Q::incomplete_headers_response, (sync, ids), sync_after),
        after == (SyncLoop { target_client: Some(client), target_incomplete_headers_required: false, ..before }),
        failure is None,
        !restarted,
        moments.update is None && moments.countdown is None && moments.expiry is None,
{
}

/// The queue is told whether the very header is known to the target node, as the node
/// has answered it: that it is, or that it is not.
pub proof fn law_existence_is_told<
    P: HeadersSyncPipeline,
    S: SourceClient<P>,
    T: TargetClient<P>,
    Q: HeadersSync<P>,
>(
    before: SyncLoop<P, S, T>,
    sync: Q,
    client: T,
    id: HeaderIdOf<P>,
    known: bool,
    moments: HeadMoments,
    after: SyncLoop<P, S, T>,
    sync_after: Q,
    failure: Option<Failure<T, T::Error>>,
    restarted: bool,
)
    requires
        target_event_handled(
            before,
            sync,
            TargetEvent::ExistenceStatus(client, Ok((id, known))),
            moments,
            after,
            sync_after,
            failure,
            restarted,
        ),
    ensures
        call_ensures(Q::maybe_orphan_response, (sync, id, known), sync_after),
        after == (SyncLoop { target_client: Some(client), ..before }),
        failure is None,
        !restarted,
        moments.update is None && moments.countdown is None && moments.expiry is None,
{
}

/// The queue is told the very headers that the target node has accepted.
pub proof fn law_submission_is_told<
    P: HeadersSyncPipeline,
    S: SourceClient<P>,
    T: TargetClient<P>,
    Q: HeadersSync<P>,
>(
    before: SyncLoop<P, S, T>,
    sync: Q,
    client: T,
    ids: Vec<HeaderIdOf<P>>,
    moments: HeadMoments,
    after: SyncLoop<P, S, T>,
    sync_after: Q,
    failure: Option<Failure<T, T::Error>>,
    restarted: bool,
)
    requires
        target_event_handled(
            before,
            sync,
            TargetEvent::SubmitHeaders(client, Ok(ids)),
            moments,
            after,
            sync_after,
            failure,
            restarted,
        ),
    ensures
        call_ensures(Q::headers_submitted, (sync, ids), sync_after),
        after == (SyncLoop { target_client: Some(client), ..before }),
        failure is None,
        !restarted,
        moments.update is None && moments.countdown is None && moments.expiry is None,
{
}

/// The queue is told the very header that was completed at the target node.
pub proof fn law_completed_header_is_told<
    P: HeadersSyncPipeline,
    S: SourceClient<P>,
    T: TargetClient<P>,
    Q: HeadersSync<P>,
>(
    before: SyncLoop<P, S, T>,
    sync: Q,
    client: T,
    id: HeaderIdOf<P>,
    moments: HeadMoments,
    after: SyncLoop<P, S, T>,
    sync_after: Q,
    failure: Option<Failure<T, T::Error>>,
    restarted: bool,
)
    requires
        target_event_handled(
            before,
            sync,
            TargetEvent::CompleteHeader(client, Ok(id)),
            moments,
            after,
            sync_after,
            failure,
            restarted,
        ),
    ensures
        call_ensures(Q::header_completed, (sync, id), sync_after),
        after == (SyncLoop { target_client: Some(client), ..before }),
        failure is None,
        !restarted,
        moments.update is None && moments.countdown is None && moments.expiry is None,
{
}

/// The queue is told whether the target node requires extra data for the very header,
/// as the node has answered it: that it does, or that it does not.
pub proof fn law_extra_requirement_is_told<
    P: HeadersSyncPipeline,
    S: SourceClient<P>,
    T: TargetClient<P>,
    Q: HeadersSync<P>,
>(
    before: SyncLoop<P, S, T>,
    sync: Q,
    client: T,
    id: HeaderIdOf<P>,
    required: bool,
    moments: HeadMoments,
    after: SyncLoop<P, S, T>,
    sync_after: Q,
    failure: Option<Failure<T, T::Error>>,
    restarted: bool,
)
    requires
        target_event_handled(
            before,
            sync,
            TargetEvent::ExtraCheck(client, Ok((id, required))),
            moments,
            after,
            sync_after,
            failure,
            restarted,
        ),
    ensures
        call_ensures(Q::maybe_extra_response, (sync, id, required), sync_after),
        after == (SyncLoop { target_client: Some(client), ..before }),
        failure is None,
        !restarted,
        moments.update is None && moments.countdown is None && moments.expiry is None,
{
}

/// The queue is told nothing of a request to the target node that has failed. The
/// client is available again, unless the connection has caused the error; in that
/// case it is handed out to rest, and whoever was available still is. Only the
/// requests for the best header and for the headers to complete leave a trace: they
/// are over.
pub proof fn law_failed_target_request_is_not_told<
    P: HeadersSyncPipeline,
    S: SourceClient<P>,
    T: TargetClient<P>,
    Q: HeadersSync<P>,
>(
    before: SyncLoop<P, S, T>,
    sync: Q,
    event: TargetEvent<P, T>,
    client: T,
    error: T::Error,
    moments: HeadMoments,
    after: SyncLoop<P, S, T>,
    sync_after: Q,
    failure: Option<Failure<T, T::Error>>,
    restarted: bool,
)
    requires
        target_event_handled(
            before,
            sync,
            event,
            moments,
            after,
            sync_after,
            failure,
            restarted,
        ),
        ({
            ||| event == TargetEvent::<P, T>::BestBlock(client, Err(error))
            ||| event == TargetEvent::<P, T>::IncompleteHeaders(client, Err(error))
            ||| event == TargetEvent::<P, T>::ExistenceStatus(client, Err(error))
            ||| event == TargetEvent::<P, T>::SubmitHeaders(client, Err(error))
            ||| event == TargetEvent::<P, T>::CompleteHeader(client, Err(error))
            ||| event == TargetEvent::<P, T>::ExtraCheck(client, Err(error))
        }),
    ensures
        sync_after == sync,
        !restarted,
        moments.update is None && moments.countdown is None && moments.expiry is None,
        after == (SyncLoop {
            target_client: after.target_client,
            target_best_block_required: before.target_best_block_required && !(
            event is BestBlock),
            target_incomplete_headers_required: before.target_incomplete_headers_required && !(
            event is IncompleteHeaders),
            ..before
        }),
        ({
            ||| {
                &&& call_ensures(T::Error::is_connection_error, (&error,), true)
                &&& after.target_client == before.target_client
                &&& failure == Some(
                    Failure::GoOffline { client, delay: CONNECTION_ERROR_DELAY, error },
                )
            }
            ||| {
                &&& call_ensures(T::Error::is_connection_error, (&error,), false)
                &&& after.target_client == Some(client)
                &&& failure == Some(Failure::<T, T::Error>::Failed(error))
            }
        }),
{
}

/// A target client that has rested is available again, and nothing else changes.
pub proof fn law_target_reconnects<
    P: HeadersSyncPipeline,
    S: SourceClient<P>,
    T: TargetClient<P>,
    Q: HeadersSync<P>,
>(
    before: SyncLoop<P, S, T>,
    sync: Q,
    client: T,
    moments: HeadMoments,
    after: SyncLoop<P, S, T>,
    sync_after: Q,
    failure: Option<Failure<T, T::Error>>,
    restarted: bool,
)
    requires
        target_event_handled(
            before,
            sync,
            TargetEvent::Reconnect(client),
            moments,
            after,
            sync_after,
            failure,
            restarted,
        ),
    ensures
        sync_after == sync,
        after == (SyncLoop { target_client: Some(client), ..before }),
        failure is None,
        !restarted,
        moments.update is None && moments.countdown is None && moments.expiry is None,
{
}

/// At a tick of the target node its best header and the headers to complete become
/// required, and nothing else changes.
pub proof fn law_target_tick<
    P: HeadersSyncPipeline,
    S: SourceClient<P>,
    T: TargetClient<P>,
    Q: HeadersSync<P>,
>(
    before: SyncLoop<P, S, T>,
    sync: Q,
    moments: HeadMoments,
    after: SyncLoop<P, S, T>,
    sync_after: Q,
    failure: Option<Failure<T, T::Error>>,
    restarted: bool,
)
    requires
        target_event_handled(
            before,
            sync,
            TargetEvent::Tick,
            moments,
            after,
            sync_after,
            failure,
            restarted,
        ),
    ensures
        sync_after == sync,
        after == (SyncLoop {
            target_best_block_required: true,
            target_incomplete_headers_required: true,
            ..before
        }),
        failure is None,
        !restarted,
        moments.update is None && moments.countdown is None && moments.expiry is None,
{
}

/// The queue is told the very best header of the target node, and answers whether
/// that is news. If it is, the moment is remembered as the last update, and the
/// countdown is started over exactly if the queue answers that some of our headers
/// are still submitted. If it is not, the countdown is looked at exactly if it runs,
/// and has run out exactly if it was started at least the timeout ago; it stops then,
/// and goes on otherwise. Whenever the countdown has run out, and only then, the
/// queue is restarted.
pub proof fn law_best_header_is_told<
    P: HeadersSyncPipeline,
    S: SourceClient<P>,
    T: TargetClient<P>,
    Q: HeadersSync<P>,
>(
    before: SyncLoop<P, S, T>,
    sync: Q,
    id: HeaderIdOf<P>,
    moments: HeadMoments,
    after: SyncLoop<P, S, T>,
    sync_after: Q,
    restarted: bool,
) -> (answer: (Q, bool))
    requires
        target_head_handled(before, sync, id, moments, after, sync_after, restarted),
    ensures
        call_ensures(Q::target_best_header_response, (sync, id), answer),
        restarted ==> call_ensures(Q::restart, (answer.0,), sync_after),
        !restarted ==> sync_after == answer.0,
        answer.1 ==> {
            &&& !restarted
            &&& moments.update == Some(after.stall.last_update_time)
            &&& moments.countdown == after.stall.countdown
            &&& moments.expiry is None
            &&& after.stall.countdown is None ==> call_ensures(
                Q::headers_in_status,
                (&answer.0, HeaderStatus::Submitted),
                0usize,
            )
            &&& after.stall.countdown is Some ==> exists|submitted: usize|
                submitted != 0 && #[trigger] call_ensures(
                    Q::headers_in_status,
                    (&answer.0, HeaderStatus::Submitted),
                    submitted,
                )
        },
        !answer.1 ==> {
            &&& moments.update is None
            &&& moments.countdown is None
            &&& moments.expiry is Some <==> before.stall.countdown is Some
            &&& restarted <==> before.stall.countdown is Some && moments.expiry->0
                - before.stall.countdown->0 >= STALL_SYNC_TIMEOUT
            &&& after.stall.last_update_time == before.stall.last_update_time
            &&& after.stall.countdown == if restarted {
                None
            } else {
                before.stall.countdown
            }
        },
{
    let (told, head_updated) = choose|told: Q, head_updated: bool|
        {
            &&& #[trigger] call_ensures(
                Q::target_best_header_response,
                (sync, id),
                (told, head_updated),
            )
            &&& restarted ==> call_ensures(Q::restart, (told,), sync_after)
            &&& !restarted ==> sync_after == told
            &&& head_updated ==> {
                &&& !restarted
                &&& moments.update == Some(after.stall.last_update_time)
                &&& moments.countdown == after.stall.countdown
                &&& moments.expiry is None
                &&& exists|submitted: usize|
                    {
                        &&& #[trigger] call_ensures(
                            Q::headers_in_status,
                            (&told, HeaderStatus::Submitted),
                            submitted,
                        )
                        &&& moments.countdown is Some <==> submitted != 0
                    }
            }
            &&& !head_updated ==> {
                &&& moments.update is None
                &&& moments.countdown is None
                &&& moments.expiry is Some <==> before.stall.countdown is Some
                &&& restarted <==> before.stall.countdown is Some && moments.expiry->0
                    - before.stall.countdown->0 >= STALL_SYNC_TIMEOUT
                &&& after.stall.last_update_time == before.stall.last_update_time
                &&& after.stall.countdown == if restarted {
                    None
                } else {
                    before.stall.countdown
                }
            }
        };
    (told, head_updated)
}

/// The best header that the target node has answered with is taken in: the client is
/// available again, the header need not be asked for any more, and of the rest only
/// the watch over the target node may change.
pub proof fn law_best_header_is_taken_in<
    P: HeadersSyncPipeline,
    S: SourceClient<P>,
    T: TargetClient<P>,
    Q: HeadersSync<P>,
>(
    before: SyncLoop<P, S, T>,
    sync: Q,
    client: T,
    id: HeaderIdOf<P>,
    moments: HeadMoments,
    after: SyncLoop<P, S, T>,
    sync_after: Q,
    failure: Option<Failure<T, T::Error>>,
    restarted: bool,
)
    requires
        target_event_handled(
            before,
            sync,
            TargetEvent::BestBlock(client, Ok(id)),
            moments,
            after,
            sync_after,
            failure,
            restarted,
        ),
    ensures
        target_head_handled(before, sync, id, moments, after, sync_after, restarted),
        after == (SyncLoop {
            target_client: Some(client),
            target_best_block_required: false,
            stall: after.stall,
            ..before
        }),
        failure is None,
{
}

/// An event of one node is taken in as such, and tells of no failure at the other.
pub proof fn law_event_concerns_one_node<
    P: HeadersSyncPipeline,
    S: SourceClient<P>,
    T: TargetClient<P>,
    Q: HeadersSync<P>,
>(
    before: SyncLoop<P, S, T>,
    sync: Q,
    event: Event<P, S, T>,
    moments: HeadMoments,
    after: SyncLoop<P, S, T>,
    sync_after: Q,
    reaction: Reaction<P, S, T>,
)
    requires
        event_handled(before, sync, event, moments, after, sync_after, reaction),
    ensures
        event matches Event::Source(e) ==> {
            &&& source_event_handled(before, sync, e, after, sync_after, reaction.source_failure)
            &&& reaction.target_failure is None
            &&& !reaction.restarted
            &&& moments.update is None && moments.countdown is None && moments.expiry is None
            &&& after.target_client == before.target_client
            &&& after.stall == before.stall
        },
        event matches Event::Target(e) ==> {
            &&& target_event_handled(
                before,
                sync,
                e,
                moments,
                after,
                sync_after,
                reaction.target_failure,
                reaction.restarted,
            )
            &&& reaction.source_failure is None
            &&& after.source_client == before.source_client
        },
        after.progress_context == before.progress_context,
{
}

} // verus!
