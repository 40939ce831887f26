//! Which call a client gets in its turn, with which arguments, and why: each law starts
//! from what was sent and leads back to the answers of the queue that have caused it.

use vstd::prelude::*;
use crate::clients::{
    SourceClient, SourceFuture, SourceNote, SubmittedIds, TargetClient, TargetFuture, TargetNote,
};
use crate::number::BlockNumber;
use crate::queue::HeadersSync;
use crate::state::{SourceAction, SyncLoop, TargetAction};
use crate::sync_loop::{source_turn_taken, target_turn_taken};
use crate::timing::{TurnMoments, BACKUP_STALL_SYNC_TIMEOUT};
use crate::types::{HeaderIdOf, HeaderStatus, HeadersSyncPipeline, QueuedHeader};

verus! {

/// The target node is asked for its best header only if that is required; the queue
/// is asked nothing.
pub proof fn law_best_header_call<
    P: HeadersSyncPipeline,
    S: SourceClient<P>,
    T: TargetClient<P>,
    Q: HeadersSync<P>,
>(
    before: SyncLoop<P, S, T>,
    sync: Q,
    moments: TurnMoments,
    after: SyncLoop<P, S, T>,
    sync_after: Q,
    note: TargetNote<HeaderIdOf<P>>,
    future: T::BestHeaderId,
)
    requires
        target_turn_taken(
            before,
            sync,
            moments,
            after,
            sync_after,
            TargetAction::Sent(note, TargetFuture::BestBlock(future)),
        ),
    ensures
        before.target_client is Some,
        before.target_best_block_required,
        call_ensures(T::best_header_id, (before.target_client->0,), future),
        note is BestBlock,
        sync_after == sync,
        moments.silence is None && moments.submission is None,
        after == (SyncLoop { target_client: None, ..before }),
{
}

/// The target node is asked for the headers to complete only if that is required and
/// its best header is not; the queue is asked nothing.
pub proof fn law_incomplete_headers_call<
    P: HeadersSyncPipeline,
    S: SourceClient<P>,
    T: TargetClient<P>,
    Q: HeadersSync<P>,
>(
    before: SyncLoop<P, S, T>,
    sync: Q,
    moments: TurnMoments,
    after: SyncLoop<P, S, T>,
    sync_after: Q,
    note: TargetNote<HeaderIdOf<P>>,
    future: T::IncompleteHeadersIds,
)
    requires
        target_turn_taken(
            before,
            sync,
            moments,
            after,
            sync_after,
            TargetAction::Sent(note, TargetFuture::IncompleteHeaders(future)),
        ),
    ensures
        before.target_client is Some,
        !before.target_best_block_required,
        before.target_incomplete_headers_required,
        call_ensures(T::incomplete_headers_ids, (before.target_client->0,), future),
        note is IncompleteHeaders,
        sync_after == sync,
        moments.silence is None && moments.submission is None,
        after == (SyncLoop { target_client: None, ..before }),
{
}

/// The header that is completed at the target node is the very header, with the very
/// completion data, that the queue has answered with.
pub proof fn law_completion_call<
    P: HeadersSyncPipeline,
    S: SourceClient<P>,
    T: TargetClient<P>,
    Q: HeadersSync<P>,
>(
    before: SyncLoop<P, S, T>,
    sync: Q,
    moments: TurnMoments,
    after: SyncLoop<P, S, T>,
    sync_after: Q,
    note: TargetNote<HeaderIdOf<P>>,
    future: T::CompleteHeader,
)
    requires
        target_turn_taken(
            before,
            sync,
            moments,
            after,
            sync_after,
            TargetAction::Sent(note, TargetFuture::CompleteHeader(future)),
        ),
    ensures
        before.target_client is Some,
        !before.target_best_block_required,
        !before.target_incomplete_headers_required,
        exists|id: HeaderIdOf<P>, completion: P::Completion|
            {
                &&& #[trigger] call_ensures(
                    Q::header_to_complete,
                    (sync,),
                    (sync_after, Some((id, completion))),
                )
                &&& call_ensures(
                    T::complete_header,
                    (before.target_client->0, id, completion),
                    future,
                )
                &&& note == TargetNote::CompleteHeader(id)
            },
        moments.silence is None && moments.submission is None,
        after == (SyncLoop { target_client: None, ..before }),
{
}

/// The header about whose extra data the target node is asked is the very header that
/// the queue has answered with, once it had nothing to complete.
pub proof fn law_extra_check_call<
    P: HeadersSyncPipeline,
    S: SourceClient<P>,
    T: TargetClient<P>,
    Q: HeadersSync<P>,
>(
    before: SyncLoop<P, S, T>,
    sync: Q,
    moments: TurnMoments,
    after: SyncLoop<P, S, T>,
    sync_after: Q,
    note: TargetNote<HeaderIdOf<P>>,
    future: T::RequiresExtra,
)
    requires
        target_turn_taken(
            before,
            sync,
            moments,
            after,
            sync_after,
            TargetAction::Sent(note, TargetFuture::ExtraCheck(future)),
        ),
    ensures
        before.target_client is Some,
        !before.target_best_block_required,
        !before.target_incomplete_headers_required,
        call_ensures(Q::header_to_complete, (sync,), (sync_after, None)),
        exists|header: QueuedHeader<P>|
            {
                &&& #[trigger] call_ensures(
                    Q::header,
                    (&sync_after, HeaderStatus::MaybeExtra),
                    Some(header),
                )
                &&& call_ensures(T::requires_extra, (before.target_client->0, header), future)
                &&& note == TargetNote::ExtraCheck(header.id)
            },
        moments.silence is None && moments.submission is None,
        after == (SyncLoop { target_client: None, ..before }),
{
}

/// The header about whose existence the target node is asked is the very parent of the
/// header that the queue has answered with as a possible orphan, once it had nothing
/// to complete and no extra data to check.
pub proof fn law_existence_call<
    P: HeadersSyncPipeline,
    S: SourceClient<P>,
    T: TargetClient<P>,
    Q: HeadersSync<P>,
>(
    before: SyncLoop<P, S, T>,
    sync: Q,
    moments: TurnMoments,
    after: SyncLoop<P, S, T>,
    sync_after: Q,
    note: TargetNote<HeaderIdOf<P>>,
    future: T::IsKnownHeader,
)
    requires
        target_turn_taken(
            before,
            sync,
            moments,
            after,
            sync_after,
            TargetAction::Sent(note, TargetFuture::ExistenceStatus(future)),
        ),
    ensures
        before.target_client is Some,
        !before.target_best_block_required,
        !before.target_incomplete_headers_required,
        call_ensures(Q::header_to_complete, (sync,), (sync_after, None)),
        call_ensures(
            Q::header,
            (&sync_after, HeaderStatus::MaybeExtra),
            None::<QueuedHeader<P>>,
        ),
        exists|header: QueuedHeader<P>|
            {
                &&& #[trigger] call_ensures(
                    Q::header,
                    (&sync_after, HeaderStatus::MaybeOrphan),
                    Some(header),
                )
                &&& call_ensures(
                    T::is_known_header,
                    (before.target_client->0, header.parent_id),
                    future,
                )
                &&& note == TargetNote::ExistenceStatus(header.parent_id)
            },
        moments.silence is None && moments.submission is None,
        after == (SyncLoop { target_client: None, ..before }),
{
}

/// The headers that are submitted to the target node are the very headers that the
/// queue has answered with, all of them and in the same order, once it had nothing to
/// complete, to check or to look for. The queue was told whether the target node had
/// been silent for longer than the backup timeout. The message counts the headers and
/// names the first and the last. The countdown runs from then on: from the moment of
/// the submission, or from an earlier one if it was running already.
pub proof fn law_submission_call<
    P: HeadersSyncPipeline,
    S: SourceClient<P>,
    T: TargetClient<P>,
    Q: HeadersSync<P>,
>(
    before: SyncLoop<P, S, T>,
    sync: Q,
    moments: TurnMoments,
    after: SyncLoop<P, S, T>,
    sync_after: Q,
    note: TargetNote<HeaderIdOf<P>>,
    future: T::SubmitHeaders,
) -> (headers: Vec<QueuedHeader<P>>)
    requires
        target_turn_taken(
            before,
            sync,
            moments,
            after,
            sync_after,
            TargetAction::Sent(note, TargetFuture::SubmitHeaders(future)),
        ),
    ensures
        before.target_client is Some,
        !before.target_best_block_required,
        !before.target_incomplete_headers_required,
        call_ensures(Q::header_to_complete, (sync,), (sync_after, None)),
        call_ensures(
            Q::header,
            (&sync_after, HeaderStatus::MaybeExtra),
            None::<QueuedHeader<P>>,
        ),
        call_ensures(
            Q::header,
            (&sync_after, HeaderStatus::MaybeOrphan),
            None::<QueuedHeader<P>>,
        ),
        moments.silence is Some,
        call_ensures(
            Q::select_headers_to_submit,
            (
                &sync_after,
                moments.silence->0 - before.stall.last_update_time > BACKUP_STALL_SYNC_TIMEOUT,
            ),
            Some(headers),
        ),
        headers@.len() > 0,
        call_ensures(T::submit_headers, (before.target_client->0, headers), future),
        note matches TargetNote::SubmitHeaders(count, ids) && {
            &&& count == headers@.len()
            &&& match ids {
                SubmittedIds::One(id) => headers@.len() == 1 && id == headers@[0].id,
                SubmittedIds::Two(first, second) => {
                    &&& headers@.len() == 2
                    &&& first == headers@[0].id
                    &&& second == headers@[1].id
                },
                SubmittedIds::Range(first, last) => {
                    &&& headers@.len() > 2
                    &&& first == headers@[0].id
                    &&& last == headers@[headers@.len() - 1].id
                },
            }
        },
        before.stall.countdown is Some ==> {
            &&& moments.submission is None
            &&& after.stall.countdown == before.stall.countdown
        },
        before.stall.countdown is None ==> {
            &&& moments.submission is Some
            &&& after.stall.countdown == moments.submission
        },
        after.stall.last_update_time == before.stall.last_update_time,
        after == (SyncLoop { target_client: None, stall: after.stall, ..before }),
{
    let stalled = moments.silence->0 - before.stall.last_update_time > BACKUP_STALL_SYNC_TIMEOUT;
    assert(stalled == before.stall.backup_due(moments.silence->0));
    let headers = choose|headers: Vec<QueuedHeader<P>>|
        {
            &&& #[trigger] call_ensures(
                Q::select_headers_to_submit,
                (&sync_after, stalled),
                Some(headers),
            )
            &&& headers@.len() > 0
            &&& call_ensures(T::submit_headers, (before.target_client->0, headers), future)
            &&& note matches TargetNote::SubmitHeaders(count, ids) && {
                &&& count == headers@.len()
                &&& match ids {
                    SubmittedIds::One(id) => headers@.len() == 1 && id == headers@[0].id,
                    SubmittedIds::Two(first, second) => {
                        &&& headers@.len() == 2
                        &&& first == headers@[0].id
                        &&& second == headers@[1].id
                    },
                    SubmittedIds::Range(first, last) => {
                        &&& headers@.len() > 2
                        &&& first == headers@[0].id
                        &&& last == headers@[headers@.len() - 1].id
                    },
                }
            }
        };
    headers
}

/// The loop breaks only if the queue has selected headers to submit, in its turn, and
/// there are none among them; nothing changes then.
pub proof fn law_empty_submission<
    P: HeadersSyncPipeline,
    S: SourceClient<P>,
    T: TargetClient<P>,
    Q: HeadersSync<P>,
>(
    before: SyncLoop<P, S, T>,
    sync: Q,
    moments: TurnMoments,
    after: SyncLoop<P, S, T>,
    sync_after: Q,
) -> (headers: Vec<QueuedHeader<P>>)
    requires
        target_turn_taken(
            before,
            sync,
            moments,
            after,
            sync_after,
            TargetAction::EmptySubmission,
        ),
    ensures
        before.target_client is Some,
        !before.target_best_block_required,
        !before.target_incomplete_headers_required,
        call_ensures(Q::header_to_complete, (sync,), (sync_after, None)),
        call_ensures(
            Q::header,
            (&sync_after, HeaderStatus::MaybeExtra),
            None::<QueuedHeader<P>>,
        ),
        call_ensures(
            Q::header,
            (&sync_after, HeaderStatus::MaybeOrphan),
            None::<QueuedHeader<P>>,
        ),
        moments.silence is Some,
        call_ensures(
            Q::select_headers_to_submit,
            (
                &sync_after,
                moments.silence->0 - before.stall.last_update_time > BACKUP_STALL_SYNC_TIMEOUT,
            ),
            Some(headers),
        ),
        headers@.len() == 0,
        moments.submission is None,
        after == before,
{
    let stalled = moments.silence->0 - before.stall.last_update_time > BACKUP_STALL_SYNC_TIMEOUT;
    assert(stalled == before.stall.backup_due(moments.silence->0));
    choose|headers: Vec<QueuedHeader<P>>|
        {
            &&& #[trigger] call_ensures(
                Q::select_headers_to_submit,
                (&sync_after, stalled),
                Some(headers),
            )
            &&& headers@.len() == 0
        }
}

/// The target client gets no request only if it is not available, or if nothing is
/// required of the target node and the queue has answered each question with nothing.
/// Nothing changes then.
pub proof fn law_target_waits<
    P: HeadersSyncPipeline,
    S: SourceClient<P>,
    T: TargetClient<P>,
    Q: HeadersSync<P>,
>(
    before: SyncLoop<P, S, T>,
    sync: Q,
    moments: TurnMoments,
    after: SyncLoop<P, S, T>,
    sync_after: Q,
)
    requires
        target_turn_taken(before, sync, moments, after, sync_after, TargetAction::Wait),
    ensures
        after == before,
        moments.submission is None,
        before.target_client is None ==> sync_after == sync && moments.silence is None,
        before.target_client is Some ==> {
            &&& !before.target_best_block_required
            &&& !before.target_incomplete_headers_required
            &&& call_ensures(Q::header_to_complete, (sync,), (sync_after, None))
            &&& call_ensures(
                Q::header,
                (&sync_after, HeaderStatus::MaybeExtra),
                None::<QueuedHeader<P>>,
            )
            &&& call_ensures(
                Q::header,
                (&sync_after, HeaderStatus::MaybeOrphan),
                None::<QueuedHeader<P>>,
            )
            &&& moments.silence is Some
            &&& call_ensures(
                Q::select_headers_to_submit,
                (
                    &sync_after,
                    moments.silence->0 - before.stall.last_update_time
                        > BACKUP_STALL_SYNC_TIMEOUT,
                ),
                None::<Vec<QueuedHeader<P>>>,
            )
        },
{
}

/// The source node is asked for its best block number only if that is required; the
/// queue is asked nothing.
pub proof fn law_best_number_call<
    P: HeadersSyncPipeline,
    S: SourceClient<P>,
    T: TargetClient<P>,
    Q: HeadersSync<P>,
>(
    before: SyncLoop<P, S, T>,
    sync: Q,
    after: SyncLoop<P, S, T>,
    sync_after: Q,
    note: SourceNote<HeaderIdOf<P>, P::Number>,
    future: S::BestBlockNumber,
)
    requires
        source_turn_taken(
            before,
            sync,
            after,
            sync_after,
            SourceAction::Sent(note, SourceFuture::BestBlockNumber(future)),
        ),
    ensures
        before.source_client is Some,
        before.source_best_block_number_required,
        call_ensures(S::best_block_number, (before.source_client->0,), future),
        note is BestBlockNumber,
        sync_after == sync,
        after == (SyncLoop { source_client: None, ..before }),
{
}

/// The header whose completion data the source node is asked for is the very header
/// that the queue has answered with as incomplete.
pub proof fn law_completion_data_call<
    P: HeadersSyncPipeline,
    S: SourceClient<P>,
    T: TargetClient<P>,
    Q: HeadersSync<P>,
>(
    before: SyncLoop<P, S, T>,
    sync: Q,
    after: SyncLoop<P, S, T>,
    sync_after: Q,
    note: SourceNote<HeaderIdOf<P>, P::Number>,
    future: S::HeaderCompletion,
)
    requires
        source_turn_taken(
            before,
            sync,
            after,
            sync_after,
            SourceAction::Sent(note, SourceFuture::Completion(future)),
        ),
    ensures
        before.source_client is Some,
        !before.source_best_block_number_required,
        exists|id: HeaderIdOf<P>|
            {
                &&& #[trigger] call_ensures(Q::incomplete_header, (sync,), (sync_after, Some(id)))
                &&& call_ensures(S::header_completion, (before.source_client->0, id), future)
                &&& note == SourceNote::<HeaderIdOf<P>, P::Number>::Completion(id)
            },
        after == (SyncLoop { source_client: None, ..before }),
{
}

/// The header whose extra data the source node is asked for is the very header that the
/// queue has answered with, under its own number and hash, once nothing was
/// incomplete.
pub proof fn law_extra_data_call<
    P: HeadersSyncPipeline,
    S: SourceClient<P>,
    T: TargetClient<P>,
    Q: HeadersSync<P>,
>(
    before: SyncLoop<P, S, T>,
    sync: Q,
    after: SyncLoop<P, S, T>,
    sync_after: Q,
    note: SourceNote<HeaderIdOf<P>, P::Number>,
    future: S::HeaderExtra,
)
    requires
        source_turn_taken(
            before,
            sync,
            after,
            sync_after,
            SourceAction::Sent(note, SourceFuture::Extra(future)),
        ),
    ensures
        before.source_client is Some,
        !before.source_best_block_number_required,
        call_ensures(Q::incomplete_header, (sync,), (sync_after, None)),
        exists|header: QueuedHeader<P>|
            {
                &&& #[trigger] call_ensures(
                    Q::header,
                    (&sync_after, HeaderStatus::Extra),
                    Some(header),
                )
                &&& call_ensures(
                    S::header_extra,
                    (before.source_client->0, header.id, header),
                    future,
                )
                &&& note == SourceNote::<HeaderIdOf<P>, P::Number>::Extra(header.id)
            },
        after == (SyncLoop { source_client: None, ..before }),
{
}

/// The header that the source node is asked for by its hash is the very parent of the
/// orphan that the queue has answered with, and not the genesis header, once nothing
/// was incomplete and no extra data was missing.
pub proof fn law_orphan_header_call<
    P: HeadersSyncPipeline,
    S: SourceClient<P>,
    T: TargetClient<P>,
    Q: HeadersSync<P>,
>(
    before: SyncLoop<P, S, T>,
    sync: Q,
    after: SyncLoop<P, S, T>,
    sync_after: Q,
    note: SourceNote<HeaderIdOf<P>, P::Number>,
    future: S::HeaderByHash,
)
    requires
        source_turn_taken(
            before,
            sync,
            after,
            sync_after,
            SourceAction::Sent(note, SourceFuture::OrphanHeader(future)),
        ),
    ensures
        before.source_client is Some,
        !before.source_best_block_number_required,
        call_ensures(Q::incomplete_header, (sync,), (sync_after, None)),
        call_ensures(
            Q::header,
            (&sync_after, HeaderStatus::Extra),
            None::<QueuedHeader<P>>,
        ),
        exists|header: QueuedHeader<P>|
            {
                &&& #[trigger] call_ensures(
                    Q::header,
                    (&sync_after, HeaderStatus::Orphan),
                    Some(header),
                )
                &&& header.parent_id.0.as_nat() != 0
                &&& call_ensures(
                    S::header_by_hash,
                    (before.source_client->0, header.parent_id.1),
                    future,
                )
                &&& note == SourceNote::<HeaderIdOf<P>, P::Number>::OrphanHeader(
                    header.parent_id,
                )
            },
        after == (SyncLoop { source_client: None, ..before }),
{
}

/// The header that the source node is asked for by its number is the very one that the
/// queue wants downloaded, once nothing was incomplete, no extra data was missing and
/// there was no orphan.
pub proof fn law_new_header_call<
    P: HeadersSyncPipeline,
    S: SourceClient<P>,
    T: TargetClient<P>,
    Q: HeadersSync<P>,
>(
    before: SyncLoop<P, S, T>,
    sync: Q,
    after: SyncLoop<P, S, T>,
    sync_after: Q,
    note: SourceNote<HeaderIdOf<P>, P::Number>,
    future: S::HeaderByNumber,
)
    requires
        source_turn_taken(
            before,
            sync,
            after,
            sync_after,
            SourceAction::Sent(note, SourceFuture::NewHeader(future)),
        ),
    ensures
        before.source_client is Some,
        !before.source_best_block_number_required,
        call_ensures(Q::incomplete_header, (sync,), (sync_after, None)),
        call_ensures(
            Q::header,
            (&sync_after, HeaderStatus::Extra),
            None::<QueuedHeader<P>>,
        ),
        call_ensures(
            Q::header,
            (&sync_after, HeaderStatus::Orphan),
            None::<QueuedHeader<P>>,
        ),
        exists|number: P::Number|
            {
                &&& #[trigger] call_ensures(
                    Q::select_new_header_to_download,
                    (&sync_after,),
                    Some(number),
                )
                &&& call_ensures(S::header_by_number, (before.source_client->0, number), future)
                &&& note == SourceNote::<HeaderIdOf<P>, P::Number>::NewHeader(number)
            },
        after == (SyncLoop { source_client: None, ..before }),
{
}

/// The loop ends only if the next orphan has the genesis header for a parent, once
/// nothing was incomplete and no extra data was missing. The source client gets no
/// request then.
pub proof fn law_stop<
    P: HeadersSyncPipeline,
    S: SourceClient<P>,
    T: TargetClient<P>,
    Q: HeadersSync<P>,
>(
    before: SyncLoop<P, S, T>,
    sync: Q,
    after: SyncLoop<P, S, T>,
    sync_after: Q,
)
    requires
        source_turn_taken(before, sync, after, sync_after, SourceAction::Stop),
    ensures
        before.source_client is Some,
        !before.source_best_block_number_required,
        call_ensures(Q::incomplete_header, (sync,), (sync_after, None)),
        call_ensures(
            Q::header,
            (&sync_after, HeaderStatus::Extra),
            None::<QueuedHeader<P>>,
        ),
        exists|header: QueuedHeader<P>|
            {
                &&& #[trigger] call_ensures(
                    Q::header,
                    (&sync_after, HeaderStatus::Orphan),
                    Some(header),
                )
                &&& header.parent_id.0.as_nat() == 0
            },
        after == (SyncLoop { source_client: None, ..before }),
{
}

/// The source client gets no request only if it is not available, or if nothing is
/// required of the source node and the queue has answered each question with nothing.
/// Nothing changes then.
pub proof fn law_source_waits<
    P: HeadersSyncPipeline,
    S: SourceClient<P>,
    T: TargetClient<P>,
    Q: HeadersSync<P>,
>(
    before: SyncLoop<P, S, T>,
    sync: Q,
    after: SyncLoop<P, S, T>,
    sync_after: Q,
)
    requires
        source_turn_taken(before, sync, after, sync_after, SourceAction::Wait),
    ensures
        after == before,
        before.source_client is None ==> sync_after == sync,
        before.source_client is Some ==> {
            &&& !before.source_best_block_number_required
            &&& call_ensures(Q::incomplete_header, (sync,), (sync_after, None))
            &&& call_ensures(
                Q::header,
                (&sync_after, HeaderStatus::Extra),
                None::<QueuedHeader<P>>,
            )
            &&& call_ensures(
                Q::header,
                (&sync_after, HeaderStatus::Orphan),
                None::<QueuedHeader<P>>,
            )
            &&& call_ensures(
                Q::select_new_header_to_download,
                (&sync_after,),
                None::<P::Number>,
            )
        },
{
}

} // verus!
