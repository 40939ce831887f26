//! What one whole step does with the queue and with the clients, from what was heard to
//! what was sent.

use vstd::prelude::*;
use crate::clients::{
    SourceClient, SourceFuture, SourceNote, TargetClient, TargetFuture, TargetNote,
};
use crate::handling::event_handled;
use crate::laws::answers::{
    law_best_header_is_taken_in, law_best_header_is_told, law_event_concerns_one_node,
};
use crate::laws::calls::{law_extra_data_call, law_submission_call};
use crate::laws::run::Step;
use crate::progress::progress_printed;
use crate::queue::HeadersSync;
use crate::state::{Event, SourceAction, SourceEvent, SyncLoop, TargetAction, TargetEvent};
use crate::sync_loop::{source_turn_reached, source_turn_taken, target_turn_taken};
use crate::timing::{BACKUP_STALL_SYNC_TIMEOUT, STALL_SYNC_TIMEOUT};
use crate::types::{HeaderIdOf, HeaderStatus, HeadersSyncPipeline, QueuedHeader};

verus! {

/// A step takes in the event; then it looks at the progress; then the target client
/// has its turn; then, unless the loop is broken, the source client has its turn.
/// Each part works on the queue and on the loop that the part before has left.
pub proof fn law_step_in_order<
    P: HeadersSyncPipeline,
    S: SourceClient<P>,
    T: TargetClient<P>,
    Q: HeadersSync<P>,
>(step: Step<P, S, T, Q>) -> (between: (SyncLoop<P, S, T>, Q, SyncLoop<P, S, T>, Q))
    requires
        step.made(),
    ensures
        event_handled(
            step.before,
            step.sync,
            step.event,
            step.moments.head,
            between.0,
            between.1,
            step.iteration.reaction,
        ),
        progress_printed::<P, Q>(
            between.0.progress_context,
            between.1,
            step.moments.progress,
            (step.after.progress_context, step.iteration.message),
        ),
        target_turn_taken(
            (SyncLoop { progress_context: step.after.progress_context, ..between.0 }),
            between.1,
            step.moments.turn,
            between.2,
            between.3,
            step.iteration.target_action,
        ),
        step.iteration.target_action is EmptySubmission ==> {
            &&& step.after == between.2
            &&& step.iteration.sync == between.3
            &&& step.iteration.source_action is Wait
        },
        !(step.iteration.target_action is EmptySubmission) ==> source_turn_taken(
            between.2,
            between.3,
            step.after,
            step.iteration.sync,
            step.iteration.source_action,
        ),
{
    let (informed, sync_informed, served, sync_served) = choose|
        informed: SyncLoop<P, S, T>,
        sync_informed: Q,
        served: SyncLoop<P, S, T>,
        sync_served: Q,
    |
        {
            &&& #[trigger] event_handled(
                step.before,
                step.sync,
                step.event,
                step.moments.head,
                informed,
                sync_informed,
                step.iteration.reaction,
            )
            &&& progress_printed::<P, Q>(
                informed.progress_context,
                sync_informed,
                step.moments.progress,
                (step.after.progress_context, step.iteration.message),
            )
            &&& #[trigger] target_turn_taken(
                (SyncLoop { progress_context: step.after.progress_context, ..informed }),
                sync_informed,
                step.moments.turn,
                served,
                sync_served,
                step.iteration.target_action,
            )
            &&& #[trigger] source_turn_reached(
                step.iteration.target_action is EmptySubmission,
                served,
                sync_served,
                step.after,
                step.iteration.sync,
                step.iteration.source_action,
            )
        };
    (informed, sync_informed, served, sync_served)
}

/// The queue is told exactly what was heard, in one call that carries the very answer
/// of the node; it is told nothing if a request has failed, if a client has rested or
/// if it is time to look again. The rest of the step works on the queue that this call
/// has left: its status is asked for, then at most the header to complete is taken from
/// it, then at most the incomplete header.
pub proof fn law_queue_of_a_step<
    P: HeadersSyncPipeline,
    S: SourceClient<P>,
    T: TargetClient<P>,
    Q: HeadersSync<P>,
>(step: Step<P, S, T, Q>) -> (between: (Q, Q))
    requires
        step.made(),
    ensures
        match step.event {
            Event::Source(SourceEvent::BestBlockNumber(_, Ok(number))) => call_ensures(
                Q::source_best_header_number_response,
                (step.sync, number),
                between.0,
            ),
            Event::Source(SourceEvent::NewHeader(_, Ok(header))) => call_ensures(
                Q::header_response,
                (step.sync, header),
                between.0,
            ),
            Event::Source(SourceEvent::OrphanHeader(_, Ok(header))) => call_ensures(
                Q::header_response,
                (step.sync, header),
                between.0,
            ),
            Event::Source(SourceEvent::Extra(_, Ok((id, extra)))) => call_ensures(
                Q::extra_response,
                (step.sync, id, extra),
                between.0,
            ),
            Event::Source(SourceEvent::Completion(_, Ok((id, completion)))) => call_ensures(
                Q::completion_response,
                (step.sync, id, completion),
                between.0,
            ),
            Event::Target(TargetEvent::BestBlock(_, Ok(id))) => exists|told: Q, news: bool|
                {
                    &&& #[trigger] call_ensures(
                        Q::target_best_header_response,
                        (step.sync, id),
                        (told, news),
                    )
                    &&& step.iteration.reaction.restarted ==> call_ensures(
                        Q::restart,
                        (told,),
                        between.0,
                    )
                    &&& !step.iteration.reaction.restarted ==> between.0 == told
                },
            Event::Target(TargetEvent::IncompleteHeaders(_, Ok(ids))) => call_ensures(
                Q::incomplete_headers_response,
                (step.sync, ids),
                between.0,
            ),
            Event::Target(TargetEvent::ExistenceStatus(_, Ok((id, known)))) => call_ensures(
                Q::maybe_orphan_response,
                (step.sync, id, known),
                between.0,
            ),
            Event::Target(TargetEvent::SubmitHeaders(_, Ok(ids))) => call_ensures(
                Q::headers_submitted,
                (step.sync, ids),
                between.0,
            ),
            Event::Target(TargetEvent::CompleteHeader(_, Ok(id))) => call_ensures(
                Q::header_completed,
                (step.sync, id),
                between.0,
            ),
            Event::Target(TargetEvent::ExtraCheck(_, Ok((id, required)))) => call_ensures(
                Q::maybe_extra_response,
                (step.sync, id, required),
                between.0,
            ),
            _ => between.0 == step.sync,
        },
        exists|status: (Option<HeaderIdOf<P>>, Option<P::Number>)| #[trigger]
            call_ensures(Q::status, (&between.0,), status),
        between.1 == between.0 || exists|answer: Option<(HeaderIdOf<P>, P::Completion)>| #[trigger]
            call_ensures(Q::header_to_complete, (between.0,), (between.1, answer)),
        step.iteration.sync == between.1 || exists|answer: Option<HeaderIdOf<P>>| #[trigger]
            call_ensures(Q::incomplete_header, (between.1,), (step.iteration.sync, answer)),
{
    let (informed, sync_informed, served, sync_served) = law_step_in_order(step);
    if let Event::Target(TargetEvent::BestBlock(client, Ok(id))) = step.event {
        law_event_concerns_one_node(
            step.before,
            step.sync,
            step.event,
            step.moments.head,
            informed,
            sync_informed,
            step.iteration.reaction,
        );
        law_best_header_is_taken_in(
            step.before,
            step.sync,
            client,
            id,
            step.moments.head,
            informed,
            sync_informed,
            step.iteration.reaction.target_failure,
            step.iteration.reaction.restarted,
        );
        let (told, news) = law_best_header_is_told(
            step.before,
            step.sync,
            id,
            step.moments.head,
            informed,
            sync_informed,
            step.iteration.reaction.restarted,
        );
        assert(call_ensures(Q::target_best_header_response, (step.sync, id), (told, news)));
    }
    (sync_informed, sync_served)
}

/// When the target node tells its best header, the queue is restarted exactly if the
/// header is no news to it and the countdown was started at least the timeout before it
/// is looked at. In every step that reports a restart, and in no other, the queue that
/// the rest of the step works on comes from a restart of the queue that has been told
/// the header.
pub proof fn law_restart_of_a_step<
    P: HeadersSyncPipeline,
    S: SourceClient<P>,
    T: TargetClient<P>,
    Q: HeadersSync<P>,
>(step: Step<P, S, T, Q>, client: T, id: HeaderIdOf<P>) -> (between: (Q, bool, Q, Q))
    requires
        step.made(),
        step.event == Event::<P, S, T>::Target(TargetEvent::BestBlock(client, Ok(id))),
    ensures
        call_ensures(
            Q::target_best_header_response,
            (step.sync, id),
            (between.0, between.1),
        ),
        step.iteration.reaction.restarted <==> {
            &&& !between.1
            &&& step.before.stall.countdown is Some
            &&& step.moments.head.expiry is Some
            &&& step.moments.head.expiry->0 - step.before.stall.countdown->0
                >= STALL_SYNC_TIMEOUT
        },
        step.iteration.reaction.restarted ==> call_ensures(Q::restart, (between.0,), between.2),
        !step.iteration.reaction.restarted ==> between.2 == between.0,
        between.3 == between.2 || exists|answer: Option<(HeaderIdOf<P>, P::Completion)>| #[trigger]
            call_ensures(Q::header_to_complete, (between.2,), (between.3, answer)),
        step.iteration.sync == between.3 || exists|answer: Option<HeaderIdOf<P>>| #[trigger]
            call_ensures(Q::incomplete_header, (between.3,), (step.iteration.sync, answer)),
{
    let (informed, sync_informed, served, sync_served) = law_step_in_order(step);
    law_event_concerns_one_node(
        step.before,
        step.sync,
        step.event,
        step.moments.head,
        informed,
        sync_informed,
        step.iteration.reaction,
    );
    law_best_header_is_taken_in(
        step.before,
        step.sync,
        client,
        id,
        step.moments.head,
        informed,
        sync_informed,
        step.iteration.reaction.target_failure,
        step.iteration.reaction.restarted,
    );
    let (told, news) = law_best_header_is_told(
        step.before,
        step.sync,
        id,
        step.moments.head,
        informed,
        sync_informed,
        step.iteration.reaction.restarted,
    );
    (told, news, sync_informed, sync_served)
}

/// The headers that a step submits are the very ones that the queue has selected: as
/// many, the same and in the same order. They go to the client that was available, or
/// that the event has brought back.
pub proof fn law_submission_of_a_step<
    P: HeadersSyncPipeline,
    S: SourceClient<P>,
    T: TargetClient<P>,
    Q: HeadersSync<P>,
>(
    step: Step<P, S, T, Q>,
    note: TargetNote<HeaderIdOf<P>>,
    future: T::SubmitHeaders,
) -> (cause: (T, Q, Vec<QueuedHeader<P>>))
    requires
        step.made(),
        step.iteration.target_action == TargetAction::<P, T>::Sent(
            note,
            TargetFuture::SubmitHeaders(future),
        ),
    ensures
        step.moments.turn.silence is Some,
        call_ensures(
            Q::select_headers_to_submit,
            (
                &cause.1,
                step.moments.turn.silence->0 - step.after.stall.last_update_time
                    > BACKUP_STALL_SYNC_TIMEOUT,
            ),
            Some(cause.2),
        ),
        cause.2@.len() > 0,
        call_ensures(T::submit_headers, (cause.0, cause.2), future),
        note matches TargetNote::SubmitHeaders(count, _) && count == cause.2@.len(),
        step.before.target_client == Some(cause.0) || match step.event {
            Event::Target(TargetEvent::BestBlock(client, _)) => client == cause.0,
            Event::Target(TargetEvent::IncompleteHeaders(client, _)) => client == cause.0,
            Event::Target(TargetEvent::ExistenceStatus(client, _)) => client == cause.0,
            Event::Target(TargetEvent::SubmitHeaders(client, _)) => client == cause.0,
            Event::Target(TargetEvent::CompleteHeader(client, _)) => client == cause.0,
            Event::Target(TargetEvent::ExtraCheck(client, _)) => client == cause.0,
            Event::Target(TargetEvent::Reconnect(client)) => client == cause.0,
            _ => false,
        },
        step.iteration.sync == cause.1 || exists|answer: Option<HeaderIdOf<P>>| #[trigger]
            call_ensures(Q::incomplete_header, (cause.1,), (step.iteration.sync, answer)),
{
    let (informed, sync_informed, served, sync_served) = law_step_in_order(step);
    let printed = SyncLoop { progress_context: step.after.progress_context, ..informed };
    let headers = law_submission_call(
        printed,
        sync_informed,
        step.moments.turn,
        served,
        sync_served,
        note,
        future,
    );
    assert(step.after.stall == served.stall);
    (informed.target_client->0, sync_served, headers)
}

/// The extra data that a step asks for is that of the very header that the queue has
/// answered with, under the number and the hash of that header itself. The request goes
/// to the client that was available, or that the event has brought back.
pub proof fn law_extra_data_of_a_step<
    P: HeadersSyncPipeline,
    S: SourceClient<P>,
    T: TargetClient<P>,
    Q: HeadersSync<P>,
>(
    step: Step<P, S, T, Q>,
    note: SourceNote<HeaderIdOf<P>, P::Number>,
    future: S::HeaderExtra,
) -> (cause: (S, QueuedHeader<P>))
    requires
        step.made(),
        step.iteration.source_action == SourceAction::<P, S>::Sent(
            note,
            SourceFuture::Extra(future),
        ),
    ensures
        call_ensures(
            Q::header,
            (&step.iteration.sync, HeaderStatus::Extra),
            Some(cause.1),
        ),
        call_ensures(S::header_extra, (cause.0, cause.1.id, cause.1), future),
        step.before.source_client == Some(cause.0) || match step.event {
            Event::Source(SourceEvent::BestBlockNumber(client, _)) => client == cause.0,
            Event::Source(SourceEvent::NewHeader(client, _)) => client == cause.0,
            Event::Source(SourceEvent::OrphanHeader(client, _)) => client == cause.0,
            Event::Source(SourceEvent::Extra(client, _)) => client == cause.0,
            Event::Source(SourceEvent::Completion(client, _)) => client == cause.0,
            Event::Source(SourceEvent::Reconnect(client)) => client == cause.0,
            _ => false,
        },
{
    let (informed, sync_informed, served, sync_served) = law_step_in_order(step);
    law_extra_data_call(served, sync_served, step.after, step.iteration.sync, note, future);
    let header = choose|header: QueuedHeader<P>|
        {
            &&& #[trigger] call_ensures(
                Q::header,
                (&step.iteration.sync, HeaderStatus::Extra),
                Some(header),
            )
            &&& call_ensures(
                S::header_extra,
                (served.source_client->0, header.id, header),
                future,
            )
        };
    assert(served.source_client == informed.source_client);
    (served.source_client->0, header)
}

} // verus!
