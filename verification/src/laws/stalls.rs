//! Laws of the restart of the synchronization.

use vstd::prelude::*;
use crate::clients::{SourceClient, TargetClient, TargetFuture};
use crate::laws::run::{is_run, tells_target_head, Step};
use crate::queue::HeadersSync;
use crate::state::TargetAction;
use crate::timing::{time_between, STALL_SYNC_TIMEOUT};
use crate::types::HeadersSyncPipeline;

verus! {

impl<P: HeadersSyncPipeline, S: SourceClient<P>, T: TargetClient<P>, Q: HeadersSync<P>> Step<
    P,
    S,
    T,
    Q,
> {
    /// Headers are submitted in this step.
    pub open spec fn submits(self) -> bool {
        self.iteration.target_action matches TargetAction::Sent(
            _,
            TargetFuture::SubmitHeaders(_),
        )
    }

    /// The queue is restarted in this step.
    pub open spec fn restarts(self) -> bool {
        self.iteration.reaction.restarted
    }

    /// The countdown is started in this step: because headers are submitted, or
    /// because the best header of the target node has changed while some of ours
    /// are on their way.
    pub open spec fn starts_countdown(self) -> bool {
        &&& self.after.stall.countdown is Some
        &&& {
            ||| self.submits() && self.after.stall.countdown == self.moments.turn.submission
            ||| self.sees_new_head() && self.after.stall.countdown == self.moments.head.countdown
        }
    }

    /// The target node tells a best header that is news to the queue, and the moment
    /// is remembered as that of the last update.
    pub open spec fn sees_new_head(self) -> bool {
        &&& tells_target_head(self.event)
        &&& self.moments.head.update == Some(self.after.stall.last_update_time)
    }
}

/// The queue is restarted only when the target node tells the best header that is
/// known already, and only after the countdown has run out.
pub proof fn law_restart_only_after_timeout<
    P: HeadersSyncPipeline,
    S: SourceClient<P>,
    T: TargetClient<P>,
    Q: HeadersSync<P>,
>(step: Step<P, S, T, Q>)
    requires
        step.made(),
        step.restarts(),
    ensures
        tells_target_head(step.event),
        !step.sees_new_head(),
        step.moments.head.expiry is Some,
        step.before.stall.expired(step.moments.head.expiry->0),
        step.after.stall.last_update_time == step.before.stall.last_update_time,
        step.after.stall.countdown == step.moments.turn.submission,
{
}

/// A countdown that runs goes on, from the same moment, through every event but
/// the one that tells the best header of the target node.
pub proof fn law_countdown_goes_on<
    P: HeadersSyncPipeline,
    S: SourceClient<P>,
    T: TargetClient<P>,
    Q: HeadersSync<P>,
>(step: Step<P, S, T, Q>)
    requires
        step.made(),
        !tells_target_head(step.event),
        step.before.stall.countdown is Some,
    ensures
        step.after.stall == step.before.stall,
{
}

/// Whenever headers are submitted, the countdown runs from then on.
pub proof fn law_submission_is_watched<
    P: HeadersSyncPipeline,
    S: SourceClient<P>,
    T: TargetClient<P>,
    Q: HeadersSync<P>,
>(step: Step<P, S, T, Q>)
    requires
        step.made(),
        step.submits(),
    ensures
        step.after.stall.countdown is Some,
{
}

/// The countdown that runs after `n` steps was started in one of them, and has
/// been running ever since.
pub proof fn law_countdown_was_started<
    P: HeadersSyncPipeline,
    S: SourceClient<P>,
    T: TargetClient<P>,
    Q: HeadersSync<P>,
>(steps: Seq<Step<P, S, T, Q>>, printed: u128, updated: u128, n: nat) -> (k: int)
    requires
        is_run(steps, printed, updated),
        0 < n <= steps.len(),
        steps[n - 1].after.stall.countdown is Some,
    ensures
        0 <= k < n,
        steps[k].starts_countdown(),
        forall|i: int|
            k <= i < n ==> (#[trigger] steps[i]).after.stall.countdown
                == steps[n - 1].after.stall.countdown,
    decreases n,
{
    let last = steps[n - 1];
    assert(last.made());
    if last.before.stall.countdown == last.after.stall.countdown && n > 1 && !last.starts_countdown() {
        assert(last.follows(steps[n - 2]));
        law_countdown_was_started(steps, printed, updated, (n - 1) as nat)
    } else {
        n - 1
    }
}

/// The queue is restarted only if a countdown was started at least the timeout
/// earlier, and has been running ever since.
pub proof fn law_restart_has_a_cause<
    P: HeadersSyncPipeline,
    S: SourceClient<P>,
    T: TargetClient<P>,
    Q: HeadersSync<P>,
>(steps: Seq<Step<P, S, T, Q>>, printed: u128, updated: u128, n: nat) -> (k: int)
    requires
        is_run(steps, printed, updated),
        n < steps.len(),
        steps[n as int].restarts(),
    ensures
        0 <= k < n,
        steps[k].starts_countdown(),
        steps[k].after.stall.countdown is Some,
        steps[n as int].moments.head.expiry is Some,
        time_between(
            steps[k].after.stall.countdown->0,
            steps[n as int].moments.head.expiry->0,
        ) >= STALL_SYNC_TIMEOUT,
        forall|i: int|
            k <= i < n ==> (#[trigger] steps[i]).after.stall.countdown
                == steps[k].after.stall.countdown,
{
    let last = steps[n as int];
    assert(last.made());
    law_restart_only_after_timeout(last);
    assert(n > 0);
    assert(last.follows(steps[n - 1]));
    law_countdown_was_started(steps, printed, updated, n)
}

/// While a countdown runs, the best header of the target node is seen to change, or
/// else the queue is restarted no later than the first time that the countdown is
/// looked at after the timeout.
pub proof fn law_stall_leads_to_restart<
    P: HeadersSyncPipeline,
    S: SourceClient<P>,
    T: TargetClient<P>,
    Q: HeadersSync<P>,
>(steps: Seq<Step<P, S, T, Q>>, printed: u128, updated: u128, k: int, n: int)
    requires
        is_run(steps, printed, updated),
        0 <= k < n < steps.len(),
        steps[k].after.stall.countdown is Some,
        tells_target_head(steps[n].event),
        steps[n].moments.head.expiry matches Some(now) ==> time_between(
            steps[k].after.stall.countdown->0,
            now,
        ) >= STALL_SYNC_TIMEOUT,
    ensures
        exists|i: int|
            k < i <= n && ((#[trigger] steps[i]).restarts() || steps[i].sees_new_head()),
    decreases n - k,
{
    let next = steps[k + 1];
    assert(next.follows(steps[k]));
    assert(next.made());
    if !next.restarts() && !next.sees_new_head() {
        assert(next.after.stall.countdown == steps[k].after.stall.countdown);
        law_stall_leads_to_restart(steps, printed, updated, k + 1, n);
    }
}

/// The last update is remembered as long as the target node does not tell its best
/// header, and moves to the present moment if it moves at all.
pub proof fn law_last_update_is_remembered<
    P: HeadersSyncPipeline,
    S: SourceClient<P>,
    T: TargetClient<P>,
    Q: HeadersSync<P>,
>(step: Step<P, S, T, Q>)
    requires
        step.made(),
        step.after.stall.last_update_time != step.before.stall.last_update_time,
    ensures
        tells_target_head(step.event),
        step.moments.head.update == Some(step.after.stall.last_update_time),
{
}

/// The last update that is remembered after `n` steps is the start, or a step in
/// which the best header of the target node was seen to change; and it has been the
/// same ever since. The step before the first one stands for the start.
pub proof fn law_last_update_was_seen<
    P: HeadersSyncPipeline,
    S: SourceClient<P>,
    T: TargetClient<P>,
    Q: HeadersSync<P>,
>(steps: Seq<Step<P, S, T, Q>>, printed: u128, updated: u128, n: nat) -> (k: int)
    requires
        is_run(steps, printed, updated),
        0 < n <= steps.len(),
    ensures
        -1 <= k < n,
        k == -1 ==> steps[n - 1].after.stall.last_update_time == updated,
        k >= 0 ==> {
            &&& tells_target_head(steps[k].event)
            &&& steps[k].moments.head.update == Some(steps[n - 1].after.stall.last_update_time)
        },
        forall|i: int| k < i < n ==> !(#[trigger] steps[i]).sees_new_head(),
        forall|i: int|
            0 <= i && k <= i < n ==> (#[trigger] steps[i]).after.stall.last_update_time
                == steps[n - 1].after.stall.last_update_time,
    decreases n,
{
    let last = steps[n - 1];
    assert(last.made());
    if last.sees_new_head() {
        n - 1
    } else if n == 1 {
        -1
    } else {
        assert(last.follows(steps[n - 2]));
        law_last_update_was_seen(steps, printed, updated, (n - 1) as nat)
    }
}

/// Neither a countdown nor the last update lies after `limit`, if no moment that
/// was read so far does.
pub proof fn law_no_moment_in_the_future<
    P: HeadersSyncPipeline,
    S: SourceClient<P>,
    T: TargetClient<P>,
    Q: HeadersSync<P>,
>(steps: Seq<Step<P, S, T, Q>>, printed: u128, updated: u128, n: nat, limit: u128)
    requires
        is_run(steps, printed, updated),
        0 < n <= steps.len(),
        updated <= limit,
        forall|i: int|
            0 <= i < n ==> {
                let moments = (#[trigger] steps[i]).moments;
                &&& moments.head.update matches Some(now) ==> now <= limit
                &&& moments.head.countdown matches Some(now) ==> now <= limit
                &&& moments.turn.submission matches Some(now) ==> now <= limit
            },
    ensures
        steps[n - 1].after.stall.last_update_time <= limit,
        steps[n - 1].after.stall.countdown matches Some(since) ==> since <= limit,
    decreases n,
{
    let last = steps[n - 1];
    assert(last.made());
    if n > 1 {
        assert(last.follows(steps[n - 2]));
        law_no_moment_in_the_future(steps, printed, updated, (n - 1) as nat, limit);
    }
}

} // verus!
