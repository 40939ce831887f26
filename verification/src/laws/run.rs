//! Runs of the loop.

use vstd::prelude::*;
use crate::clients::{SourceClient, TargetClient};
use crate::queue::HeadersSync;
use crate::state::{Event, Iteration, SyncLoop, TargetEvent};
use crate::sync_loop::{initial_state, iterated};
use crate::timing::Moments;
use crate::types::HeadersSyncPipeline;

verus! {

/// One iteration of a run.
pub struct Step<P: HeadersSyncPipeline, S: SourceClient<P>, T: TargetClient<P>, Q> {
    /// The loop before the iteration.
    pub before: SyncLoop<P, S, T>,
    /// The queue before the iteration.
    pub sync: Q,
    /// What has woken up the loop.
    pub event: Event<P, S, T>,
    /// The moments that were read in the iteration.
    pub moments: Moments,
    /// The loop after the iteration.
    pub after: SyncLoop<P, S, T>,
    /// What the iteration has resulted in.
    pub iteration: Iteration<P, S, T, Q>,
}

impl<P: HeadersSyncPipeline, S: SourceClient<P>, T: TargetClient<P>, Q: HeadersSync<P>> Step<
    P,
    S,
    T,
    Q,
> {
    /// The loop has made this step.
    pub open spec fn made(self) -> bool {
        iterated(self.before, self.sync, self.event, self.moments, self.after, self.iteration)
    }

    /// This step can follow `previous`.
    pub open spec fn follows(self, previous: Self) -> bool {
        &&& self.before == previous.after
        &&& self.sync == previous.iteration.sync
        &&& !(previous.iteration.source_action is Stop)
        &&& !(previous.iteration.target_action is EmptySubmission)
    }
}

/// The loop was started and has made these steps since. `printed` and `updated` are
/// the moments that were read at its start.
pub open spec fn is_run<
    P: HeadersSyncPipeline,
    S: SourceClient<P>,
    T: TargetClient<P>,
    Q: HeadersSync<P>,
>(steps: Seq<Step<P, S, T, Q>>, printed: u128, updated: u128) -> bool {
    &&& steps.len() > 0 ==> steps[0].before == initial_state::<P, S, T>(printed, updated)
    &&& forall|i: int| 0 <= i < steps.len() ==> (#[trigger] steps[i]).made()
    &&& forall|i: int, j: int|
        0 <= i && j == i + 1 && j < steps.len() ==> (#[trigger] steps[j]).follows(
            #[trigger] steps[i],
        )
}

/// Does the event bring the source client back?
pub open spec fn brings_source_client<
    P: HeadersSyncPipeline,
    S: SourceClient<P>,
    T: TargetClient<P>,
>(event: Event<P, S, T>) -> bool {
    event matches Event::Source(e) && !(e is Tick)
}

/// Does the event bring the target client back?
pub open spec fn brings_target_client<
    P: HeadersSyncPipeline,
    S: SourceClient<P>,
    T: TargetClient<P>,
>(event: Event<P, S, T>) -> bool {
    event matches Event::Target(e) && !(e is Tick)
}

/// Does the event tell the best header of the target node?
pub open spec fn tells_target_head<
    P: HeadersSyncPipeline,
    S: SourceClient<P>,
    T: TargetClient<P>,
>(event: Event<P, S, T>) -> bool {
    event matches Event::Target(TargetEvent::BestBlock(_, Ok(_)))
}

} // verus!
