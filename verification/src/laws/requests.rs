//! Laws of the requests: when which one may be sent.

use vstd::prelude::*;
use crate::clients::{
    source_request_sent, target_request_sent, SourceClient, SourceFuture, SourceRequest,
    TargetClient, TargetFuture, TargetRequest,
};
use crate::handling::event_handled;
use crate::laws::run::{brings_source_client, is_run, Step};
use crate::number::BlockNumber;
use crate::queue::HeadersSync;
use crate::selection::{source_asked, source_choice, SourceAnswers};
use crate::state::{
    Event, Reaction, SourceAction, SourceEvent, SyncLoop, TargetAction, TargetEvent,
};
use crate::sync_loop::source_turn_taken;
use crate::timing::HeadMoments;
use crate::types::{HeadersSyncPipeline, QueuedHeader};

verus! {

impl<P: HeadersSyncPipeline, S: SourceClient<P>, T: TargetClient<P>, Q: HeadersSync<P>> Step<
    P,
    S,
    T,
    Q,
> {
    /// It is time to look at the state of the target node again.
    pub open spec fn is_target_tick(self) -> bool {
        self.event matches Event::Target(TargetEvent::Tick)
    }

    /// It is time to look for new headers.
    pub open spec fn is_source_tick(self) -> bool {
        self.event matches Event::Source(SourceEvent::Tick)
    }

    /// The request for the best header of the target node is over.
    pub open spec fn ends_head_request(self) -> bool {
        self.event matches Event::Target(TargetEvent::BestBlock(_, _))
    }

    /// The request for the headers to complete is over.
    pub open spec fn ends_incomplete_request(self) -> bool {
        self.event matches Event::Target(TargetEvent::IncompleteHeaders(_, _))
    }

    /// The request for the best block number of the source node is over.
    pub open spec fn ends_number_request(self) -> bool {
        self.event matches Event::Source(SourceEvent::BestBlockNumber(_, _))
    }

    /// The source client is available when its turn comes: it was available before,
    /// or the event has brought it back and it need not rest.
    pub open spec fn source_client_is_idle(self) -> bool {
        ||| self.before.source_client is Some
        ||| {
            &&& brings_source_client(self.event)
            &&& !(self.iteration.reaction.source_failure matches Some(f) && f is GoOffline)
        }
    }

    /// The target node is asked for its best header.
    pub open spec fn asks_head(self) -> bool {
        self.iteration.target_action matches TargetAction::Sent(_, TargetFuture::BestBlock(_))
    }

    /// The target node is asked for the headers to complete.
    pub open spec fn asks_incomplete(self) -> bool {
        self.iteration.target_action matches TargetAction::Sent(
            _,
            TargetFuture::IncompleteHeaders(_),
        )
    }

    /// The source node is asked for its best block number.
    pub open spec fn asks_number(self) -> bool {
        self.iteration.source_action matches SourceAction::Sent(
            _,
            SourceFuture::BestBlockNumber(_),
        )
    }
}

/// A tick of the target node makes an available client ask for the best header.
pub proof fn law_target_tick_asks_head<
    P: HeadersSyncPipeline,
    S: SourceClient<P>,
    T: TargetClient<P>,
    Q: HeadersSync<P>,
>(step: Step<P, S, T, Q>)
    requires
        step.made(),
        step.is_target_tick(),
        step.before.target_client is Some,
    ensures
        step.iteration.target_action matches TargetAction::Sent(_, future) && target_request_sent(
            step.before.target_client->0,
            TargetRequest::BestBlock,
            future,
        ),
{
}

/// A tick of the source node makes an available client ask for the best block
/// number, unless the queue has answered that the target is far from the source.
pub proof fn law_source_tick_asks_number<
    P: HeadersSyncPipeline,
    S: SourceClient<P>,
    T: TargetClient<P>,
    Q: HeadersSync<P>,
>(step: Step<P, S, T, Q>)
    requires
        step.made(),
        step.is_source_tick(),
        step.before.source_client is Some,
        !(step.iteration.target_action is EmptySubmission),
    ensures
        ({
            ||| step.iteration.source_action matches SourceAction::Sent(_, future)
                && source_request_sent(
                step.before.source_client->0,
                SourceRequest::BestBlockNumber,
                future,
            )
            ||| call_ensures(Q::is_almost_synced, (&step.sync,), false)
                && !step.before.source_best_block_number_required
                && !step.after.source_best_block_number_required
        }),
{
}

/// From a tick on, until its best header has been asked for, the target node is
/// asked nothing else.
pub proof fn law_head_comes_first<
    P: HeadersSyncPipeline,
    S: SourceClient<P>,
    T: TargetClient<P>,
    Q: HeadersSync<P>,
>(steps: Seq<Step<P, S, T, Q>>, printed: u128, updated: u128, k: int, n: int)
    requires
        is_run(steps, printed, updated),
        0 <= k <= n < steps.len(),
        steps[k].is_target_tick(),
        forall|i: int| k < i <= n ==> !(#[trigger] steps[i]).ends_head_request(),
    ensures
        steps[n].iteration.target_action is Wait || steps[n].asks_head(),
        steps[n].after.target_best_block_required,
    decreases n - k,
{
    assert(steps[n].made());
    if k < n {
        assert(steps[n].follows(steps[n - 1]));
        law_head_comes_first(steps, printed, updated, k, n - 1);
    }
}

/// The target node is asked for its best header only after a tick, and not again
/// after that request is over.
pub proof fn law_head_is_asked_once_per_tick<
    P: HeadersSyncPipeline,
    S: SourceClient<P>,
    T: TargetClient<P>,
    Q: HeadersSync<P>,
>(steps: Seq<Step<P, S, T, Q>>, printed: u128, updated: u128, n: int) -> (k: int)
    requires
        is_run(steps, printed, updated),
        0 <= n < steps.len(),
        steps[n].asks_head() || steps[n].after.target_best_block_required,
    ensures
        0 <= k <= n,
        steps[k].is_target_tick(),
        forall|i: int| k < i <= n ==> !(#[trigger] steps[i]).ends_head_request(),
    decreases n,
{
    assert(steps[n].made());
    if steps[n].is_target_tick() {
        n
    } else {
        assert(n > 0);
        assert(steps[n].follows(steps[n - 1]));
        law_head_is_asked_once_per_tick(steps, printed, updated, n - 1)
    }
}

/// The source node is asked for its best block number only after a tick, and not
/// again after that request is over.
pub proof fn law_number_is_asked_once_per_tick<
    P: HeadersSyncPipeline,
    S: SourceClient<P>,
    T: TargetClient<P>,
    Q: HeadersSync<P>,
>(steps: Seq<Step<P, S, T, Q>>, printed: u128, updated: u128, n: int) -> (k: int)
    requires
        is_run(steps, printed, updated),
        0 <= n < steps.len(),
        steps[n].asks_number() || steps[n].after.source_best_block_number_required,
    ensures
        0 <= k <= n,
        steps[k].is_source_tick(),
        call_ensures(Q::is_almost_synced, (&steps[k].sync,), true),
        forall|i: int| k < i <= n ==> !(#[trigger] steps[i]).ends_number_request(),
    decreases n,
{
    assert(steps[n].made());
    if steps[n].is_source_tick() && call_ensures(Q::is_almost_synced, (&steps[n].sync,), true) {
        n
    } else {
        assert(n > 0);
        assert(steps[n].follows(steps[n - 1]));
        law_number_is_asked_once_per_tick(steps, printed, updated, n - 1)
    }
}

/// Until the source node has answered it, or failed to, a request for the best
/// block number that is due comes before any other.
pub proof fn law_number_comes_first<
    P: HeadersSyncPipeline,
    S: SourceClient<P>,
    T: TargetClient<P>,
    Q: HeadersSync<P>,
>(steps: Seq<Step<P, S, T, Q>>, printed: u128, updated: u128, k: int, n: int)
    requires
        is_run(steps, printed, updated),
        0 <= k <= n < steps.len(),
        steps[k].after.source_best_block_number_required,
        forall|i: int| k < i <= n ==> !(#[trigger] steps[i]).ends_number_request(),
    ensures
        steps[n].iteration.source_action is Wait || steps[n].asks_number(),
        steps[n].after.source_best_block_number_required,
    decreases n - k,
{
    assert(steps[n].made());
    if k < n {
        assert(steps[n].follows(steps[n - 1]));
        law_number_comes_first(steps, printed, updated, k, n - 1);
    }
}

/// The target node is asked for the headers to complete only after the start or a
/// tick, and not again after that request is over. The step before the first one
/// stands for the start.
pub proof fn law_incomplete_headers_are_asked_once_per_tick<
    P: HeadersSyncPipeline,
    S: SourceClient<P>,
    T: TargetClient<P>,
    Q: HeadersSync<P>,
>(steps: Seq<Step<P, S, T, Q>>, printed: u128, updated: u128, n: int) -> (k: int)
    requires
        is_run(steps, printed, updated),
        0 <= n < steps.len(),
        steps[n].asks_incomplete() || steps[n].after.target_incomplete_headers_required,
    ensures
        -1 <= k <= n,
        k >= 0 ==> steps[k].is_target_tick(),
        forall|i: int| k < i <= n ==> !(#[trigger] steps[i]).ends_incomplete_request(),
    decreases n,
{
    assert(steps[n].made());
    if steps[n].is_target_tick() {
        n
    } else if n == 0 {
        -1
    } else {
        assert(steps[n].follows(steps[n - 1]));
        law_incomplete_headers_are_asked_once_per_tick(steps, printed, updated, n - 1)
    }
}

/// From the start or a tick on, until it has been asked for the headers to complete,
/// the target node is asked for nothing else but its best header: nothing is
/// submitted to it, and nothing is checked with it. The step before the first one
/// stands for the start.
pub proof fn law_incomplete_headers_come_first<
    P: HeadersSyncPipeline,
    S: SourceClient<P>,
    T: TargetClient<P>,
    Q: HeadersSync<P>,
>(steps: Seq<Step<P, S, T, Q>>, printed: u128, updated: u128, k: int, n: int)
    requires
        is_run(steps, printed, updated),
        -1 <= k <= n < steps.len(),
        0 <= n,
        k >= 0 ==> steps[k].is_target_tick(),
        forall|i: int| k < i <= n ==> !(#[trigger] steps[i]).ends_incomplete_request(),
    ensures
        steps[n].iteration.target_action is Wait || steps[n].asks_head()
            || steps[n].asks_incomplete(),
        steps[n].after.target_incomplete_headers_required,
    decreases n - k,
{
    assert(steps[n].made());
    if k < n && 0 < n {
        assert(steps[n].follows(steps[n - 1]));
        law_incomplete_headers_come_first(steps, printed, updated, k, n - 1);
    }
}

/// A request that fails changes neither the queue nor the watch over the target
/// node.
pub proof fn law_failure_spares_the_queue<
    P: HeadersSyncPipeline,
    S: SourceClient<P>,
    T: TargetClient<P>,
    Q: HeadersSync<P>,
>(
    before: SyncLoop<P, S, T>,
    sync: Q,
    event: Event<P, S, T>,
    moments: HeadMoments,
    after: SyncLoop<P, S, T>,
    sync_after: Q,
    reaction: Reaction<P, S, T>,
)
    requires
        event_handled(before, sync, event, moments, after, sync_after, reaction),
        reaction.source_failure is Some || reaction.target_failure is Some,
    ensures
        sync_after == sync,
        after.stall == before.stall,
        !reaction.restarted,
{
}

/// The loop ends because of a misconfiguration exactly if the source client is
/// available when its turn comes, the best block number need not be asked for, and
/// the queue has answered that nothing is to be completed, that no header requires
/// extra data, and that the next orphan has the genesis header for a parent.
pub proof fn law_stop_is_genesis_orphan<
    P: HeadersSyncPipeline,
    S: SourceClient<P>,
    T: TargetClient<P>,
    Q: HeadersSync<P>,
>(step: Step<P, S, T, Q>)
    requires
        step.made(),
        !(step.iteration.target_action is EmptySubmission),
    ensures
        !step.source_client_is_idle() ==> !(step.iteration.source_action is Stop),
        step.source_client_is_idle() ==> exists|sync: Q, answers: SourceAnswers<P>|
            {
                &&& #[trigger] source_asked(
                    step.after.source_best_block_number_required,
                    sync,
                    step.iteration.sync,
                    answers,
                )
                &&& step.iteration.source_action is Stop <==> {
                    &&& !step.after.source_best_block_number_required
                    &&& answers.incomplete is None
                    &&& answers.extra is None
                    &&& answers.orphan matches Some(header)
                    &&& header.parent_id.0.as_nat() == 0
                }
            },
{
    if step.source_client_is_idle() {
        let (served, sync_served) = choose|served: SyncLoop<P, S, T>, sync_served: Q|
            {
                &&& served.source_client is Some
                &&& #[trigger] source_turn_taken(
                    served,
                    sync_served,
                    step.after,
                    step.iteration.sync,
                    step.iteration.source_action,
                )
            };
        let answers = choose|answers: SourceAnswers<P>|
            {
                &&& #[trigger] source_asked(
                    served.source_best_block_number_required,
                    sync_served,
                    step.iteration.sync,
                    answers,
                )
                &&& step.iteration.source_action is Stop <==> source_choice(
                    served.source_best_block_number_required,
                    answers,
                ) is Misconfigured
                &&& step.after.source_best_block_number_required
                    == served.source_best_block_number_required
            };
        assert(source_asked(
            step.after.source_best_block_number_required,
            sync_served,
            step.iteration.sync,
            answers,
        ));
    }
}

/// The loop breaks only if the queue has selected headers to submit, and there are
/// none among them. Nothing is sent then, to either node.
pub proof fn law_empty_submission_is_not_sent<
    P: HeadersSyncPipeline,
    S: SourceClient<P>,
    T: TargetClient<P>,
    Q: HeadersSync<P>,
>(step: Step<P, S, T, Q>)
    requires
        step.made(),
        step.iteration.target_action is EmptySubmission,
    ensures
        step.after.target_client is Some,
        step.iteration.source_action is Wait,
        exists|stalled: bool, headers: Vec<QueuedHeader<P>>|
            {
                &&& #[trigger] call_ensures(
                    Q::select_headers_to_submit,
                    (&step.iteration.sync, stalled),
                    Some(headers),
                )
                &&& headers@.len() == 0
            },
{
}

} // verus!
