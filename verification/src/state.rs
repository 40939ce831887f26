//! State of the synchronization loop, what wakes it up, and what it has done.

use vstd::prelude::*;
use std::collections::HashSet;
use crate::clients::{
    SourceClient, SourceFuture, SourceNote, TargetClient, TargetFuture, TargetNote,
};
use crate::failure::Failure;
use crate::progress::{ProgressContext, ProgressMessage};
use crate::stall::Stall;
use crate::types::{HeaderIdOf, HeadersSyncPipeline};

verus! {

/// What the loop hears of the source node.
pub enum SourceEvent<P: HeadersSyncPipeline, S: SourceClient<P>> {
    /// Number of the best block.
    BestBlockNumber(S, Result<P::Number, S::Error>),
    /// New header.
    NewHeader(S, Result<P::Header, S::Error>),
    /// Parent of an orphan.
    OrphanHeader(S, Result<P::Header, S::Error>),
    /// Extra data of a header.
    Extra(S, Result<(HeaderIdOf<P>, P::Extra), S::Error>),
    /// Completion data of a header.
    Completion(S, Result<(HeaderIdOf<P>, Option<P::Completion>), S::Error>),
    /// The client has rested long enough after its connection was lost.
    Reconnect(S),
    /// It is time to look for new headers.
    Tick,
}

/// What the loop hears of the target node.
pub enum TargetEvent<P: HeadersSyncPipeline, T: TargetClient<P>> {
    /// Identifier of the best header.
    BestBlock(T, Result<HeaderIdOf<P>, T::Error>),
    /// Identifiers of the headers that are to be completed.
    IncompleteHeaders(T, Result<HashSet<HeaderIdOf<P>>, T::Error>),
    /// Whether a header is known.
    ExistenceStatus(T, Result<(HeaderIdOf<P>, bool), T::Error>),
    /// Identifiers of the headers that were submitted.
    SubmitHeaders(T, Result<Vec<HeaderIdOf<P>>, T::Error>),
    /// Identifier of the header that was completed.
    CompleteHeader(T, Result<HeaderIdOf<P>, T::Error>),
    /// Whether a header requires extra data.
    ExtraCheck(T, Result<(HeaderIdOf<P>, bool), T::Error>),
    /// The client has rested long enough after its connection was lost.
    Reconnect(T),
    /// It is time to look at the state of the target node again.
    Tick,
}

/// What wakes the loop up.
pub enum Event<P: HeadersSyncPipeline, S: SourceClient<P>, T: TargetClient<P>> {
    /// Something about the source node.
    Source(SourceEvent<P, S>),
    /// Something about the target node.
    Target(TargetEvent<P, T>),
}

/// State of the loop.
pub struct SyncLoop<P: HeadersSyncPipeline, S: SourceClient<P>, T: TargetClient<P>> {
    /// Source client, unless it is in use or rests.
    pub source_client: Option<S>,
    /// Must the source node be asked for its best block number?
    pub source_best_block_number_required: bool,
    /// Target client, unless it is in use or rests.
    pub target_client: Option<T>,
    /// Must the target node be asked for its best header?
    pub target_best_block_required: bool,
    /// Must the target node be asked for the headers to complete?
    pub target_incomplete_headers_required: bool,
    /// Watch over the progress of the target node.
    pub stall: Stall,
    /// Context of the progress messages.
    pub progress_context: ProgressContext<P::Number>,
}

/// What an event leaves to do outside of the loop.
pub struct Reaction<P: HeadersSyncPipeline, S: SourceClient<P>, T: TargetClient<P>> {
    /// Failed request to the source node.
    pub source_failure: Option<Failure<S, S::Error>>,
    /// Failed request to the target node.
    pub target_failure: Option<Failure<T, T::Error>>,
    /// Has the queue been restarted?
    pub restarted: bool,
}

/// What has been done with the target client.
pub enum TargetAction<P: HeadersSyncPipeline, T: TargetClient<P>> {
    /// Nothing.
    Wait,
    /// It has got a request: what to tell of it, and what to wait for.
    Sent(TargetNote<HeaderIdOf<P>>, TargetFuture<P, T>),
    /// The queue has selected headers to submit, and there are none among them: the
    /// queue is broken, and the loop cannot go on.
    EmptySubmission,
}

/// What has been done with the source client.
pub enum SourceAction<P: HeadersSyncPipeline, S: SourceClient<P>> {
    /// Nothing.
    Wait,
    /// It has got a request: what to tell of it, and what to wait for.
    Sent(SourceNote<HeaderIdOf<P>, P::Number>, SourceFuture<P, S>),
    /// The nodes do not belong together: the loop ends.
    Stop,
}

/// Result of one iteration of the loop.
pub struct Iteration<P: HeadersSyncPipeline, S: SourceClient<P>, T: TargetClient<P>, Q> {
    /// The queue.
    pub sync: Q,
    /// What the event leaves to do.
    pub reaction: Reaction<P, S, T>,
    /// Progress message, if one is due.
    pub message: Option<ProgressMessage<P::Number>>,
    /// What has been done with the target client.
    pub target_action: TargetAction<P, T>,
    /// What has been done with the source client.
    pub source_action: SourceAction<P, S>,
}

} // verus!
