//! Laws of the clients: where they are, and what they are asked.

use vstd::prelude::*;
use crate::clients::{SourceClient, TargetClient};
use crate::laws::run::{brings_source_client, brings_target_client, is_run, Step};
use crate::queue::HeadersSync;
use crate::state::{Event, SourceEvent, SyncLoop, TargetEvent};
use crate::sync_loop::{source_turn_taken, target_turn_taken};
use crate::timing::CONNECTION_ERROR_DELAY;
use crate::types::HeadersSyncPipeline;

verus! {

/// One if the condition holds, else zero.
pub open spec fn count(condition: bool) -> int {
    if condition {
        1
    } else {
        0
    }
}

impl<P: HeadersSyncPipeline, S: SourceClient<P>, T: TargetClient<P>, Q: HeadersSync<P>> Step<
    P,
    S,
    T,
    Q,
> {
    /// How many source clients the step hands out: to a request, or to rest.
    pub open spec fn source_clients_out(self) -> int {
        count(self.iteration.source_action is Sent) + count(
            self.iteration.reaction.source_failure matches Some(f) && f is GoOffline,
        )
    }

    /// How many target clients the step hands out: to a request, or to rest.
    pub open spec fn target_clients_out(self) -> int {
        count(self.iteration.target_action is Sent) + count(
            self.iteration.reaction.target_failure matches Some(f) && f is GoOffline,
        )
    }
}

/// How many source clients are out, in a request or at rest, after `n` steps. The
/// loop starts with one request in flight.
pub open spec fn source_clients_away<
    P: HeadersSyncPipeline,
    S: SourceClient<P>,
    T: TargetClient<P>,
    Q: HeadersSync<P>,
>(steps: Seq<Step<P, S, T, Q>>, n: nat) -> int
    decreases n,
{
    if n == 0 {
        1
    } else {
        let last = steps[n - 1];
        source_clients_away(steps, (n - 1) as nat) - count(brings_source_client(last.event))
            + last.source_clients_out()
    }
}

/// How many target clients are out, in a request or at rest, after `n` steps. The
/// loop starts with one request in flight.
pub open spec fn target_clients_away<
    P: HeadersSyncPipeline,
    S: SourceClient<P>,
    T: TargetClient<P>,
    Q: HeadersSync<P>,
>(steps: Seq<Step<P, S, T, Q>>, n: nat) -> int
    decreases n,
{
    if n == 0 {
        1
    } else {
        let last = steps[n - 1];
        target_clients_away(steps, (n - 1) as nat) - count(brings_target_client(last.event))
            + last.target_clients_out()
    }
}

/// A source client that is not available, and that no event brings back, gets no request
/// and stays unavailable.
pub proof fn law_absent_source_client_is_left_alone<
    P: HeadersSyncPipeline,
    S: SourceClient<P>,
    T: TargetClient<P>,
    Q: HeadersSync<P>,
>(step: Step<P, S, T, Q>)
    requires
        step.made(),
        step.before.source_client is None,
        !brings_source_client(step.event),
    ensures
        step.after.source_client is None,
        step.iteration.source_action is Wait,
        step.iteration.reaction.source_failure is None,
{
}

/// A target client that is not available, and that no event brings back, gets no request
/// and stays unavailable.
pub proof fn law_absent_target_client_is_left_alone<
    P: HeadersSyncPipeline,
    S: SourceClient<P>,
    T: TargetClient<P>,
    Q: HeadersSync<P>,
>(step: Step<P, S, T, Q>)
    requires
        step.made(),
        step.before.target_client is None,
        !brings_target_client(step.event),
    ensures
        step.after.target_client is None,
        step.iteration.target_action is Wait,
        step.iteration.reaction.target_failure is None,
{
}

/// An iteration neither loses nor duplicates the source client, unless it ends the
/// loop.
pub proof fn law_source_client_conserved<
    P: HeadersSyncPipeline,
    S: SourceClient<P>,
    T: TargetClient<P>,
    Q: HeadersSync<P>,
>(step: Step<P, S, T, Q>)
    requires
        step.made(),
        !(step.iteration.source_action is Stop),
        step.before.source_client is Some ==> !brings_source_client(step.event),
    ensures
        count(step.before.source_client is Some) + count(brings_source_client(step.event))
            == count(step.after.source_client is Some) + step.source_clients_out(),
{
}

/// An iteration neither loses nor duplicates the target client.
pub proof fn law_target_client_conserved<
    P: HeadersSyncPipeline,
    S: SourceClient<P>,
    T: TargetClient<P>,
    Q: HeadersSync<P>,
>(step: Step<P, S, T, Q>)
    requires
        step.made(),
        step.before.target_client is Some ==> !brings_target_client(step.event),
    ensures
        count(step.before.target_client is Some) + count(brings_target_client(step.event))
            == count(step.after.target_client is Some) + step.target_clients_out(),
{
}

/// The source client is always in exactly one place: with the loop, or out. So it
/// never has two requests in flight, and it gets none while it rests.
pub proof fn law_one_source_request<
    P: HeadersSyncPipeline,
    S: SourceClient<P>,
    T: TargetClient<P>,
    Q: HeadersSync<P>,
>(steps: Seq<Step<P, S, T, Q>>, printed: u128, updated: u128, n: nat)
    requires
        is_run(steps, printed, updated),
        0 < n <= steps.len(),
        !(steps[n - 1].iteration.source_action is Stop),
        // a client comes back only if it is out
        forall|i: int|
            0 <= i < n && brings_source_client((#[trigger] steps[i]).event)
                ==> source_clients_away(steps, i as nat) > 0,
    ensures
        source_clients_away(steps, n) + count(steps[n - 1].after.source_client is Some) == 1,
    decreases n,
{
    let last = steps[n - 1];
    if n > 1 {
        assert(last.follows(steps[n - 2]));
        law_one_source_request(steps, printed, updated, (n - 1) as nat);
    }
    law_source_client_conserved(last);
}

/// The target client is always in exactly one place: with the loop, or out. So it
/// never has two requests in flight, and it gets none while it rests.
pub proof fn law_one_target_request<
    P: HeadersSyncPipeline,
    S: SourceClient<P>,
    T: TargetClient<P>,
    Q: HeadersSync<P>,
>(steps: Seq<Step<P, S, T, Q>>, printed: u128, updated: u128, n: nat)
    requires
        is_run(steps, printed, updated),
        0 < n <= steps.len(),
        // a client comes back only if it is out
        forall|i: int|
            0 <= i < n && brings_target_client((#[trigger] steps[i]).event)
                ==> target_clients_away(steps, i as nat) > 0,
    ensures
        target_clients_away(steps, n) + count(steps[n - 1].after.target_client is Some) == 1,
    decreases n,
{
    let last = steps[n - 1];
    if n > 1 {
        assert(last.follows(steps[n - 2]));
        law_one_target_request(steps, printed, updated, (n - 1) as nat);
    }
    law_target_client_conserved(last);
}

/// A lost connection concerns the one client alone: the source client is handed out
/// to rest for the delay and gets no request, the queue is not told, and the target
/// client has its turn as if nothing had happened.
pub proof fn law_lost_source_connection<
    P: HeadersSyncPipeline,
    S: SourceClient<P>,
    T: TargetClient<P>,
    Q: HeadersSync<P>,
>(step: Step<P, S, T, Q>)
    requires
        step.made(),
        step.before.source_client is None,
        step.iteration.reaction.source_failure matches Some(f) && f is GoOffline,
    ensures
        brings_source_client(step.event),
        step.iteration.reaction.source_failure->0->delay == CONNECTION_ERROR_DELAY,
        step.iteration.source_action is Wait,
        step.after.source_client is None,
        target_turn_taken(
            (SyncLoop {
                source_best_block_number_required: step.after.source_best_block_number_required,
                progress_context: step.after.progress_context,
                ..step.before
            }),
            step.sync,
            step.moments.turn,
            step.after,
            step.iteration.sync,
            step.iteration.target_action,
        ),
{
}

/// A lost connection concerns the one client alone: the target client is handed out
/// to rest for the delay and gets no request, the queue is not told, and the source
/// client has its turn as if nothing had happened.
pub proof fn law_lost_target_connection<
    P: HeadersSyncPipeline,
    S: SourceClient<P>,
    T: TargetClient<P>,
    Q: HeadersSync<P>,
>(step: Step<P, S, T, Q>)
    requires
        step.made(),
        step.before.target_client is None,
        step.iteration.reaction.target_failure matches Some(f) && f is GoOffline,
    ensures
        brings_target_client(step.event),
        step.iteration.reaction.target_failure->0->delay == CONNECTION_ERROR_DELAY,
        step.iteration.target_action is Wait,
        step.after.target_client is None,
        source_turn_taken(
            (SyncLoop {
                target_best_block_required: step.after.target_best_block_required,
                target_incomplete_headers_required: step.after.target_incomplete_headers_required,
                progress_context: step.after.progress_context,
                ..step.before
            }),
            step.sync,
            step.after,
            step.iteration.sync,
            step.iteration.source_action,
        ),
{
}

/// From the step that hands the source client out to rest, until an event brings it
/// back, it gets no request.
pub proof fn law_resting_source_client_is_left_alone<
    P: HeadersSyncPipeline,
    S: SourceClient<P>,
    T: TargetClient<P>,
    Q: HeadersSync<P>,
>(steps: Seq<Step<P, S, T, Q>>, printed: u128, updated: u128, k: int, n: int)
    requires
        is_run(steps, printed, updated),
        0 <= k <= n < steps.len(),
        steps[k].before.source_client is None,
        steps[k].iteration.reaction.source_failure matches Some(f) && f is GoOffline,
        forall|i: int| k < i <= n ==> !brings_source_client((#[trigger] steps[i]).event),
    ensures
        steps[n].iteration.source_action is Wait,
        steps[n].after.source_client is None,
    decreases n - k,
{
    assert(steps[n].made());
    if k < n {
        assert(steps[n].follows(steps[n - 1]));
        law_resting_source_client_is_left_alone(steps, printed, updated, k, n - 1);
        law_absent_source_client_is_left_alone(steps[n]);
    } else {
        law_lost_source_connection(steps[n]);
    }
}

/// From the step that hands the target client out to rest, until an event brings it
/// back, it gets no request.
pub proof fn law_resting_target_client_is_left_alone<
    P: HeadersSyncPipeline,
    S: SourceClient<P>,
    T: TargetClient<P>,
    Q: HeadersSync<P>,
>(steps: Seq<Step<P, S, T, Q>>, printed: u128, updated: u128, k: int, n: int)
    requires
        is_run(steps, printed, updated),
        0 <= k <= n < steps.len(),
        steps[k].before.target_client is None,
        steps[k].iteration.reaction.target_failure matches Some(f) && f is GoOffline,
        forall|i: int| k < i <= n ==> !brings_target_client((#[trigger] steps[i]).event),
    ensures
        steps[n].iteration.target_action is Wait,
        steps[n].after.target_client is None,
    decreases n - k,
{
    assert(steps[n].made());
    if k < n {
        assert(steps[n].follows(steps[n - 1]));
        law_resting_target_client_is_left_alone(steps, printed, updated, k, n - 1);
        law_absent_target_client_is_left_alone(steps[n]);
    } else {
        law_lost_target_connection(steps[n]);
    }
}

/// A source client that has lost its connection gets no request before the delay has
/// passed, provided that it does not come back before the delay has passed and that
/// time does not run backwards.
pub proof fn law_source_rest_takes_the_delay<
    P: HeadersSyncPipeline,
    S: SourceClient<P>,
    T: TargetClient<P>,
    Q: HeadersSync<P>,
>(steps: Seq<Step<P, S, T, Q>>, printed: u128, updated: u128, k: int, n: int)
    requires
        is_run(steps, printed, updated),
        0 <= k <= n < steps.len(),
        steps[k].before.source_client is None,
        steps[k].iteration.reaction.source_failure matches Some(f) && f is GoOffline,
        // time does not run backwards
        forall|i: int, j: int|
            k <= i <= j <= n ==> (#[trigger] steps[i]).moments.progress <= (
            #[trigger] steps[j]).moments.progress,
        // the client does not come back before it has rested
        forall|i: int|
            k < i <= n && brings_source_client((#[trigger] steps[i]).event)
                ==> steps[i].moments.progress >= steps[k].moments.progress
                + steps[k].iteration.reaction.source_failure->0->delay,
        steps[n].iteration.source_action is Sent,
    ensures
        steps[n].moments.progress >= steps[k].moments.progress + CONNECTION_ERROR_DELAY,
{
    assert(steps[k].made());
    law_lost_source_connection(steps[k]);
    if steps[n].moments.progress < steps[k].moments.progress + CONNECTION_ERROR_DELAY {
        assert forall|i: int| k < i <= n implies !brings_source_client(
            (#[trigger] steps[i]).event,
        ) by {
            assert(steps[i].moments.progress <= steps[n].moments.progress);
        }
        law_resting_source_client_is_left_alone(steps, printed, updated, k, n);
    }
}

/// A target client that has lost its connection gets no request before the delay has
/// passed, provided that it does not come back before the delay has passed and that
/// time does not run backwards.
pub proof fn law_target_rest_takes_the_delay<
    P: HeadersSyncPipeline,
    S: SourceClient<P>,
    T: TargetClient<P>,
    Q: HeadersSync<P>,
>(steps: Seq<Step<P, S, T, Q>>, printed: u128, updated: u128, k: int, n: int)
    requires
        is_run(steps, printed, updated),
        0 <= k <= n < steps.len(),
        steps[k].before.target_client is None,
        steps[k].iteration.reaction.target_failure matches Some(f) && f is GoOffline,
        // time does not run backwards
        forall|i: int, j: int|
            k <= i <= j <= n ==> (#[trigger] steps[i]).moments.progress <= (
            #[trigger] steps[j]).moments.progress,
        // the client does not come back before it has rested
        forall|i: int|
            k < i <= n && brings_target_client((#[trigger] steps[i]).event)
                ==> steps[i].moments.progress >= steps[k].moments.progress
                + steps[k].iteration.reaction.target_failure->0->delay,
        steps[n].iteration.target_action is Sent,
    ensures
        steps[n].moments.progress >= steps[k].moments.progress + CONNECTION_ERROR_DELAY,
{
    assert(steps[k].made());
    law_lost_target_connection(steps[k]);
    if steps[n].moments.progress < steps[k].moments.progress + CONNECTION_ERROR_DELAY {
        assert forall|i: int| k < i <= n implies !brings_target_client(
            (#[trigger] steps[i]).event,
        ) by {
            assert(steps[i].moments.progress <= steps[n].moments.progress);
        }
        law_resting_target_client_is_left_alone(steps, printed, updated, k, n);
    }
}

/// A source client that has rested is available again: the queue is not told, and
/// the client gets a request by the usual priority.
pub proof fn law_rested_source_client_has_its_turn<
    P: HeadersSyncPipeline,
    S: SourceClient<P>,
    T: TargetClient<P>,
    Q: HeadersSync<P>,
>(step: Step<P, S, T, Q>, client: S)
    requires
        step.made(),
        step.event == Event::<P, S, T>::Source(SourceEvent::Reconnect(client)),
        !(step.iteration.target_action is EmptySubmission),
    ensures
        exists|served: SyncLoop<P, S, T>, sync_served: Q|
            {
                &&& served.source_client == Some(client)
                &&& #[trigger] target_turn_taken(
                    (SyncLoop {
                        source_client: Some(client),
                        progress_context: step.after.progress_context,
                        ..step.before
                    }),
                    step.sync,
                    step.moments.turn,
                    served,
                    sync_served,
                    step.iteration.target_action,
                )
                &&& source_turn_taken(
                    served,
                    sync_served,
                    step.after,
                    step.iteration.sync,
                    step.iteration.source_action,
                )
            },
{
}

/// A target client that has rested is available again: the queue is not told, and
/// the client gets a request by the usual priority.
pub proof fn law_rested_target_client_has_its_turn<
    P: HeadersSyncPipeline,
    S: SourceClient<P>,
    T: TargetClient<P>,
    Q: HeadersSync<P>,
>(step: Step<P, S, T, Q>, client: T)
    requires
        step.made(),
        step.event == Event::<P, S, T>::Target(TargetEvent::Reconnect(client)),
    ensures
        exists|served: SyncLoop<P, S, T>, sync_served: Q|
            #[trigger] target_turn_taken(
                (SyncLoop {
                    target_client: Some(client),
                    progress_context: step.after.progress_context,
                    ..step.before
                }),
                step.sync,
                step.moments.turn,
                served,
                sync_served,
                step.iteration.target_action,
            ),
{
}

} // verus!
