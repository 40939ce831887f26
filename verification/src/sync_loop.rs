//! The synchronization loop: how it starts, and what it does in one iteration.

use vstd::prelude::*;
use crate::clients::{
    note_source_request, note_target_request, send_source_request, send_target_request,
    source_note, source_request_sent, target_note, target_request_sent, SourceClient,
    SourceFuture, SourceRequest, TargetClient, TargetFuture, TargetRequest,
};
use crate::handling::event_handled;
use crate::progress::{print_sync_progress, progress_printed};
use crate::queue::HeadersSync;
use crate::selection::{
    ask_about_source, ask_about_target, choose_source_request, choose_target_request,
    source_asked, source_choice, target_asked, target_choice, SourceAnswers, SourceChoice,
    TargetAnswers,
};
use crate::stall::Stall;
use crate::state::{Event, Iteration, SourceAction, SyncLoop, TargetAction};
use crate::timing::{read_from, Clock, HeadMoments, Moments, TurnMoments};
use crate::types::HeadersSyncPipeline;

verus! {

/// What a loop remembers when it starts: both clients are in use, no header is on
/// its way, and the target node must be asked for the headers to complete. Progress
/// is measured from the moment `printed`, and the silence of the target node from
/// the moment `updated`.
pub open spec fn initial_state<P: HeadersSyncPipeline, S: SourceClient<P>, T: TargetClient<P>>(
    printed: u128,
    updated: u128,
) -> SyncLoop<P, S, T> {
    SyncLoop {
        source_client: None,
        source_best_block_number_required: false,
        target_client: None,
        target_best_block_required: false,
        target_incomplete_headers_required: true,
        stall: Stall { countdown: None, last_update_time: updated },
        progress_context: (printed, None, None),
    }
}

/// The loop after its target client has got a request. `submission` is the moment of
/// a submission that starts the countdown, if the request is one.
pub open spec fn after_target_request<
    P: HeadersSyncPipeline,
    S: SourceClient<P>,
    T: TargetClient<P>,
>(before: SyncLoop<P, S, T>, submission: Option<u128>) -> SyncLoop<P, S, T> {
    SyncLoop {
        target_client: None,
        stall: match submission {
            Some(now) => before.stall.after_submission(now),
            None => before.stall,
        },
        ..before
    }
}

/// If the target client is available, it gets the request that comes first. If
/// there is none, or the client is not available, nothing happens. Nor does anything
/// happen if the request is a submission without headers, but that is told.
pub open spec fn target_turn_taken<
    P: HeadersSyncPipeline,
    S: SourceClient<P>,
    T: TargetClient<P>,
    Q: HeadersSync<P>,
>(
    before: SyncLoop<P, S, T>,
    sync: Q,
    moments: TurnMoments,
    after: SyncLoop<P, S, T>,
    sync_after: Q,
    action: TargetAction<P, T>,
) -> bool {
    match before.target_client {
        None => {
            &&& after == before
            &&& sync_after == sync
            &&& action is Wait
            &&& moments == TurnMoments::none()
        },
        Some(client) => exists|answers: TargetAnswers<P>|
            {
                &&& #[trigger] target_asked(
                    before.target_best_block_required,
                    before.target_incomplete_headers_required,
                    before.stall,
                    moments.silence,
                    sync,
                    sync_after,
                    answers,
                )
                &&& match target_choice(
                    before.target_best_block_required,
                    before.target_incomplete_headers_required,
                    answers,
                ) {
                    Some(request) => match target_note(request) {
                        Some(note) => {
                            &&& action matches TargetAction::Sent(told, future)
                            &&& told == note
                            &&& target_request_sent(client, request, future)
                            &&& moments.submission is Some <==> request is SubmitHeaders
                                && before.stall.countdown is None
                            &&& after == after_target_request(before, moments.submission)
                        },
                        None => {
                            &&& action is EmptySubmission
                            &&& moments.submission is None
                            &&& after == before
                        },
                    },
                    None => {
                        &&& action is Wait
                        &&& moments.submission is None
                        &&& after == before
                    },
                }
            },
    }
}

/// If the source client is available, it gets the request that comes first. If
/// there is none, or the client is not available, nothing happens.
pub open spec fn source_turn_taken<
    P: HeadersSyncPipeline,
    S: SourceClient<P>,
    T: TargetClient<P>,
    Q: HeadersSync<P>,
>(
    before: SyncLoop<P, S, T>,
    sync: Q,
    after: SyncLoop<P, S, T>,
    sync_after: Q,
    action: SourceAction<P, S>,
) -> bool {
    match before.source_client {
        None => after == before && sync_after == sync && action is Wait,
        Some(client) => exists|answers: SourceAnswers<P>|
            {
                &&& #[trigger] source_asked(
                    before.source_best_block_number_required,
                    sync,
                    sync_after,
                    answers,
                )
                &&& match source_choice(before.source_best_block_number_required, answers) {
                    SourceChoice::Request(request) => {
                        &&& action matches SourceAction::Sent(told, future)
                        &&& told == source_note(request)
                        &&& source_request_sent(client, request, future)
                        &&& after == (SyncLoop { source_client: None, ..before })
                    },
                    SourceChoice::Misconfigured => {
                        &&& action is Stop
                        &&& after == (SyncLoop { source_client: None, ..before })
                    },
                    SourceChoice::Nothing => action is Wait && after == before,
                }
            },
    }
}

/// The source client has its turn, unless the loop is broken.
pub open spec fn source_turn_reached<
    P: HeadersSyncPipeline,
    S: SourceClient<P>,
    T: TargetClient<P>,
    Q: HeadersSync<P>,
>(
    broken: bool,
    before: SyncLoop<P, S, T>,
    sync: Q,
    after: SyncLoop<P, S, T>,
    sync_after: Q,
    action: SourceAction<P, S>,
) -> bool {
    if broken {
        after == before && sync_after == sync && action is Wait
    } else {
        source_turn_taken(before, sync, after, sync_after, action)
    }
}

/// One iteration: the event is taken in, a progress message is printed if one is
/// due, then the target client has its turn, then the source client. The source
/// client has no turn if the loop cannot go on.
pub open spec fn iterated<
    P: HeadersSyncPipeline,
    S: SourceClient<P>,
    T: TargetClient<P>,
    Q: HeadersSync<P>,
>(
    before: SyncLoop<P, S, T>,
    sync: Q,
    event: Event<P, S, T>,
    moments: Moments,
    after: SyncLoop<P, S, T>,
    iteration: Iteration<P, S, T, Q>,
) -> bool {
    exists|
        informed: SyncLoop<P, S, T>,
        sync_informed: Q,
        served: SyncLoop<P, S, T>,
        sync_served: Q,
    |
        {
            &&& #[trigger] event_handled(
                before,
                sync,
                event,
                moments.head,
                informed,
                sync_informed,
                iteration.reaction,
            )
            &&& progress_printed::<P, Q>(
                informed.progress_context,
                sync_informed,
                moments.progress,
                (after.progress_context, iteration.message),
            )
            &&& #[trigger] target_turn_taken(
                (SyncLoop { progress_context: after.progress_context, ..informed }),
                sync_informed,
                moments.turn,
                served,
                sync_served,
                iteration.target_action,
            )
            &&& #[trigger] source_turn_reached(
                iteration.target_action is EmptySubmission,
                served,
                sync_served,
                after,
                iteration.sync,
                iteration.source_action,
            )
        }
}

impl<P: HeadersSyncPipeline, S: SourceClient<P>, T: TargetClient<P>> SyncLoop<P, S, T> {
    /// Starts the loop: the queue is created, and the two nodes are asked for their
    /// best headers.
    pub fn start<Q: HeadersSync<P>, C: Clock>(
        source_client: S,
        target_client: T,
        sync_params: Q::Params,
        clock: C,
    ) -> (result: (Self, Q, SourceFuture<P, S>, TargetFuture<P, T>, C))
        ensures
            exists|printed: u128, updated: u128, clock_printed: C|
                {
                    &&& #[trigger] read_from(clock, Some(printed), clock_printed)
                    &&& read_from(clock_printed, Some(updated), result.4)
                    &&& result.0 == #[trigger] initial_state::<P, S, T>(printed, updated)
                },
            call_ensures(Q::new, (sync_params,), result.1),
            source_request_sent(source_client, SourceRequest::BestBlockNumber, result.2),
            target_request_sent(target_client, TargetRequest::BestBlock, result.3),
    {
        let ghost clock_before = clock;
        let (clock, printed) = clock.now();
        let ghost clock_printed = clock;
        let sync = Q::new(sync_params);
        let (clock, updated) = clock.now();
        let state = SyncLoop {
            source_client: None,
            source_best_block_number_required: false,
            target_client: None,
            target_best_block_required: false,
            target_incomplete_headers_required: true,
            stall: Stall::new(updated),
            progress_context: (printed, None, None),
        };
        assert(read_from(clock_before, Some(printed), clock_printed));
        assert(read_from(clock_printed, Some(updated), clock));
        assert(state == initial_state::<P, S, T>(printed, updated));
        let source_future = send_source_request(source_client, SourceRequest::BestBlockNumber);
        let target_future = send_target_request(target_client, TargetRequest::BestBlock);
        (state, sync, source_future, target_future, clock)
    }

    /// Turn of the target client.
    pub fn take_target_turn<Q: HeadersSync<P>, C: Clock>(
        &mut self,
        sync: Q,
        clock: C,
    ) -> (result: (Q, TargetAction<P, T>, C))
        ensures
            exists|moments: TurnMoments|
                {
                    &&& moments.read_from(clock, result.2)
                    &&& #[trigger] target_turn_taken(
                        *old(self),
                        sync,
                        moments,
                        *final(self),
                        result.0,
                        result.1,
                    )
                },
    {
        let ghost (sync_before, clock_before) = (sync, clock);
        let ghost mut moments = TurnMoments::none();
        let ghost mut clock_asked = clock;
        let mut clock = clock;
        let result = match self.target_client.take() {
            None => (sync, TargetAction::Wait),
            Some(client) => {
                let (sync, answers, clock_after) = ask_about_target(
                    self.target_best_block_required,
                    self.target_incomplete_headers_required,
                    &self.stall,
                    clock,
                    sync,
                );
                clock = clock_after;
                proof {
                    clock_asked = clock;
                    moments.silence = choose|silence: Option<u128>|
                        {
                            &&& read_from(clock_before, silence, clock)
                            &&& #[trigger] target_asked::<P, Q>(
                                self.target_best_block_required,
                                self.target_incomplete_headers_required,
                                self.stall,
                                silence,
                                sync_before,
                                sync,
                                answers,
                            )
                        };
                }
                let choice = choose_target_request(
                    self.target_best_block_required,
                    self.target_incomplete_headers_required,
                    answers,
                );
                match choice {
                    Some(request) => match note_target_request(&request) {
                        Some(note) => {
                            let submits = matches!(&request, TargetRequest::SubmitHeaders(_));
                            let future = send_target_request(client, request);
                            // remember that we have submitted some headers
                            if submits && self.stall.countdown.is_none() {
                                let (clock_after, now) = clock.now();
                                clock = clock_after;
                                proof {
                                    moments.submission = Some(now);
                                }
                                self.stall.headers_submitted(now);
                            }
                            (sync, TargetAction::Sent(note, future))
                        },
                        None => {
                            self.target_client = Some(client);
                            (sync, TargetAction::EmptySubmission)
                        },
                    },
                    None => {
                        self.target_client = Some(client);
                        (sync, TargetAction::Wait)
                    },
                }
            },
        };
        let result = (result.0, result.1, clock);
        assert(read_from(clock_before, moments.silence, clock_asked));
        assert(moments.read_from(clock_before, result.2));
        assert(target_turn_taken(
            *old(self),
            sync_before,
            moments,
            *self,
            result.0,
            result.1,
        ));
        result
    }

    /// Turn of the source client.
    pub fn take_source_turn<Q: HeadersSync<P>>(
        &mut self,
        sync: Q,
    ) -> (result: (Q, SourceAction<P, S>))
        ensures
            source_turn_taken(*old(self), sync, *final(self), result.0, result.1),
    {
        match self.source_client.take() {
            None => (sync, SourceAction::Wait),
            Some(client) => {
                let (sync, answers) = ask_about_source(
                    self.source_best_block_number_required,
                    sync,
                );
                match choose_source_request(self.source_best_block_number_required, answers) {
                    SourceChoice::Request(request) => {
                        let note = note_source_request(&request);
                        let future = send_source_request(client, request);
                        (sync, SourceAction::Sent(note, future))
                    },
                    SourceChoice::Misconfigured => (sync, SourceAction::Stop),
                    SourceChoice::Nothing => {
                        self.source_client = Some(client);
                        (sync, SourceAction::Wait)
                    },
                }
            },
        }
    }

    /// One iteration of the loop.
    ///
    /// A submission is sent before the clock is read for its countdown, and the
    /// target client gets its request before the queue is asked about the source
    /// node. The contract fixes the calls on the queue, on the clock and on the
    /// clients each for themselves, and says nothing of how they interleave.
    pub fn iterate<Q: HeadersSync<P>, C: Clock>(
        &mut self,
        sync: Q,
        event: Event<P, S, T>,
        clock: C,
    ) -> (result: (Iteration<P, S, T, Q>, C))
        ensures
            exists|moments: Moments|
                {
                    &&& moments.read_from(clock, result.1)
                    &&& #[trigger] iterated(
                        *old(self),
                        sync,
                        event,
                        moments,
                        *final(self),
                        result.0,
                    )
                },
    {
        let ghost (sync_before, clock_before) = (sync, clock);
        let (sync, reaction, clock) = self.handle_event(sync, event, clock);
        let ghost (informed, sync_informed, clock_informed) = (*self, sync, clock);

        // print progress
        let (clock, (progress_context, message)) = print_sync_progress::<P, Q, C>(
            self.progress_context,
            &sync,
            clock,
        );
        self.progress_context = progress_context;
        let ghost (printed, clock_printed) = (*self, clock);

        // if target client is available: wait, or call required target methods
        let (sync, target_action, clock) = self.take_target_turn(sync, clock);

        // if source client is available: wait, or call required source methods
        let ghost (served, sync_served) = (*self, sync);
        let (sync, source_action) = match &target_action {
            TargetAction::EmptySubmission => (sync, SourceAction::Wait),
            _ => self.take_source_turn(sync),
        };
        let iteration = Iteration { sync, reaction, message, target_action, source_action };
        let result = (iteration, clock);
        proof {
            let head = choose|m: HeadMoments|
                {
                    &&& m.read_from(clock_before, clock_informed)
                    &&& #[trigger] event_handled(
                        *old(self),
                        sync_before,
                        event,
                        m,
                        informed,
                        sync_informed,
                        reaction,
                    )
                };
            let progress = choose|now: u128|
                {
                    &&& read_from(clock_informed, Some(now), clock_printed)
                    &&& #[trigger] progress_printed::<P, Q>(
                        informed.progress_context,
                        sync_informed,
                        now,
                        (progress_context, message),
                    )
                };
            let turn = choose|m: TurnMoments|
                {
                    &&& m.read_from(clock_printed, clock)
                    &&& #[trigger] target_turn_taken(
                        printed,
                        sync_informed,
                        m,
                        served,
                        sync_served,
                        target_action,
                    )
                };
            let moments = Moments { head, progress, turn };
            assert(self.progress_context == progress_context);
            assert(moments.head.read_from(clock_before, clock_informed));
            assert(moments.turn.read_from(clock_printed, clock));
            assert(moments.read_from(clock_before, result.1));
            assert(event_handled(
                *old(self),
                sync_before,
                event,
                moments.head,
                informed,
                sync_informed,
                iteration.reaction,
            ));
            assert(source_turn_reached(
                iteration.target_action is EmptySubmission,
                served,
                sync_served,
                *self,
                iteration.sync,
                iteration.source_action,
            ));
            assert(iterated(*old(self), sync_before, event, moments, *self, result.0));
        }
        result
    }
}

} // verus!
