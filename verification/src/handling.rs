//! How the loop takes in what it hears of the two nodes.

use vstd::prelude::*;
use crate::clients::{SourceClient, TargetClient};
use crate::failure::{process_future_result, processed, Failure};
use crate::queue::HeadersSync;
use crate::state::{Event, Reaction, SourceEvent, SyncLoop, TargetEvent};
use crate::timing::{lemma_nothing_read, read_from, Clock, HeadMoments};
use crate::types::{HeaderIdOf, HeaderStatus, HeadersSyncPipeline};

verus! {

/// How the loop and the queue take in what is heard of the source node.
///
/// An answer goes to the queue. A failure does not reach the queue. Whatever the
/// best block number request has brought, it is not repeated before the next tick.
pub open spec fn source_event_handled<
    P: HeadersSyncPipeline,
    S: SourceClient<P>,
    T: TargetClient<P>,
    Q: HeadersSync<P>,
>(
    before: SyncLoop<P, S, T>,
    sync: Q,
    event: SourceEvent<P, S>,
    after: SyncLoop<P, S, T>,
    sync_after: Q,
    failure: Option<Failure<S, S::Error>>,
) -> bool {
    match event {
        SourceEvent::BestBlockNumber(client, result) => {
            &&& processed(before.source_client, client, result, after.source_client, failure)
            &&& after == (SyncLoop {
                source_client: after.source_client,
                source_best_block_number_required: false,
                ..before
            })
            &&& match result {
                Ok(number) => call_ensures(
                    Q::source_best_header_number_response,
                    (sync, number),
                    sync_after,
                ),
                Err(_) => sync_after == sync,
            }
        },
        SourceEvent::NewHeader(client, result) | SourceEvent::OrphanHeader(client, result) => {
            &&& processed(before.source_client, client, result, after.source_client, failure)
            &&& after == (SyncLoop { source_client: after.source_client, ..before })
            &&& match result {
                Ok(header) => call_ensures(Q::header_response, (sync, header), sync_after),
                Err(_) => sync_after == sync,
            }
        },
        SourceEvent::Extra(client, result) => {
            &&& processed(before.source_client, client, result, after.source_client, failure)
            &&& after == (SyncLoop { source_client: after.source_client, ..before })
            &&& match result {
                Ok((id, extra)) => call_ensures(Q::extra_response, (sync, id, extra), sync_after),
                Err(_) => sync_after == sync,
            }
        },
        SourceEvent::Completion(client, result) => {
            &&& processed(before.source_client, client, result, after.source_client, failure)
            &&& after == (SyncLoop { source_client: after.source_client, ..before })
            &&& match result {
                Ok((id, completion)) => call_ensures(
                    Q::completion_response,
                    (sync, id, completion),
                    sync_after,
                ),
                Err(_) => sync_after == sync,
            }
        },
        SourceEvent::Reconnect(client) => {
            &&& after == (SyncLoop { source_client: Some(client), ..before })
            &&& sync_after == sync
            &&& failure is None
        },
        SourceEvent::Tick => {
            &&& exists|almost_synced: bool|
                {
                    &&& #[trigger] call_ensures(Q::is_almost_synced, (&sync,), almost_synced)
                    &&& after == (SyncLoop {
                        source_best_block_number_required: almost_synced
                            || before.source_best_block_number_required,
                        ..before
                    })
                }
            &&& sync_after == sync
            &&& failure is None
        },
    }
}

/// How the loop and the queue take in the best header of the target node.
///
/// If it is news to the queue, the countdown starts over or stops. If it is not,
/// and the countdown has run out, the queue is restarted.
pub open spec fn target_head_handled<
    P: HeadersSyncPipeline,
    S: SourceClient<P>,
    T: TargetClient<P>,
    Q: HeadersSync<P>,
>(
    before: SyncLoop<P, S, T>,
    sync: Q,
    id: HeaderIdOf<P>,
    moments: HeadMoments,
    after: SyncLoop<P, S, T>,
    sync_after: Q,
    restarted: bool,
) -> bool {
    exists|sync_told: Q, head_updated: bool|
        {
            &&& #[trigger] call_ensures(
                Q::target_best_header_response,
                (sync, id),
                (sync_told, head_updated),
            )
            &&& if head_updated {
                &&& exists|submitted: usize|
                    {
                        &&& #[trigger] call_ensures(
                            Q::headers_in_status,
                            (&sync_told, HeaderStatus::Submitted),
                            submitted,
                        )
                        &&& moments.countdown is Some <==> submitted != 0
                    }
                &&& moments.update is Some
                &&& moments.expiry is None
                &&& after.stall == before.stall.after_head_update(
                    moments.update->0,
                    moments.countdown,
                )
                &&& sync_after == sync_told
                &&& !restarted
            } else {
                &&& moments.update is None
                &&& moments.countdown is None
                &&& moments.expiry is Some <==> before.stall.countdown is Some
                &&& match moments.expiry {
                    Some(now) => {
                        &&& after.stall == before.stall.after_same_head(now)
                        &&& restarted == before.stall.expired(now)
                    },
                    None => after.stall == before.stall && !restarted,
                }
                &&& if restarted {
                    call_ensures(Q::restart, (sync_told,), sync_after)
                } else {
                    sync_after == sync_told
                }
            }
        }
}

/// How the loop and the queue take in what is heard of the target node.
///
/// An answer goes to the queue. A failure does not reach the queue. Whatever the
/// requests for the best header and for the headers to complete have brought, they
/// are not repeated before the next tick.
pub open spec fn target_event_handled<
    P: HeadersSyncPipeline,
    S: SourceClient<P>,
    T: TargetClient<P>,
    Q: HeadersSync<P>,
>(
    before: SyncLoop<P, S, T>,
    sync: Q,
    event: TargetEvent<P, T>,
    moments: HeadMoments,
    after: SyncLoop<P, S, T>,
    sync_after: Q,
    failure: Option<Failure<T, T::Error>>,
    restarted: bool,
) -> bool {
    match event {
        TargetEvent::BestBlock(client, result) => {
            &&& processed(before.target_client, client, result, after.target_client, failure)
            &&& after == (SyncLoop {
                target_client: after.target_client,
                target_best_block_required: false,
                stall: after.stall,
                ..before
            })
            &&& match result {
                Ok(id) => target_head_handled(
                    before,
                    sync,
                    id,
                    moments,
                    after,
                    sync_after,
                    restarted,
                ),
                Err(_) => {
                    &&& after.stall == before.stall
                    &&& sync_after == sync
                    &&& !restarted
                    &&& moments == HeadMoments::none()
                },
            }
        },
        TargetEvent::IncompleteHeaders(client, result) => {
            &&& processed(before.target_client, client, result, after.target_client, failure)
            &&& after == (SyncLoop {
                target_client: after.target_client,
                target_incomplete_headers_required: false,
                ..before
            })
            &&& match result {
                Ok(ids) => call_ensures(Q::incomplete_headers_response, (sync, ids), sync_after),
                Err(_) => sync_after == sync,
            }
            &&& !restarted
            &&& moments == HeadMoments::none()
        },
        TargetEvent::ExistenceStatus(client, result) => {
            &&& processed(before.target_client, client, result, after.target_client, failure)
            &&& after == (SyncLoop { target_client: after.target_client, ..before })
            &&& match result {
                Ok((id, known)) => call_ensures(
                    Q::maybe_orphan_response,
                    (sync, id, known),
                    sync_after,
                ),
                Err(_) => sync_after == sync,
            }
            &&& !restarted
            &&& moments == HeadMoments::none()
        },
        TargetEvent::SubmitHeaders(client, result) => {
            &&& processed(before.target_client, client, result, after.target_client, failure)
            &&& after == (SyncLoop { target_client: after.target_client, ..before })
            &&& match result {
                Ok(ids) => call_ensures(Q::headers_submitted, (sync, ids), sync_after),
                Err(_) => sync_after == sync,
            }
            &&& !restarted
            &&& moments == HeadMoments::none()
        },
        TargetEvent::CompleteHeader(client, result) => {
            &&& processed(before.target_client, client, result, after.target_client, failure)
            &&& after == (SyncLoop { target_client: after.target_client, ..before })
            &&& match result {
                Ok(id) => call_ensures(Q::header_completed, (sync, id), sync_after),
                Err(_) => sync_after == sync,
            }
            &&& !restarted
            &&& moments == HeadMoments::none()
        },
        TargetEvent::ExtraCheck(client, result) => {
            &&& processed(before.target_client, client, result, after.target_client, failure)
            &&& after == (SyncLoop { target_client: after.target_client, ..before })
            &&& match result {
                Ok((id, required)) => call_ensures(
                    Q::maybe_extra_response,
                    (sync, id, required),
                    sync_after,
                ),
                Err(_) => sync_after == sync,
            }
            &&& !restarted
            &&& moments == HeadMoments::none()
        },
        TargetEvent::Reconnect(client) => {
            &&& after == (SyncLoop { target_client: Some(client), ..before })
            &&& sync_after == sync
            &&& failure is None
            &&& !restarted
            &&& moments == HeadMoments::none()
        },
        TargetEvent::Tick => {
            &&& after == (SyncLoop {
                target_best_block_required: true,
                target_incomplete_headers_required: true,
                ..before
            })
            &&& sync_after == sync
            &&& failure is None
            &&& !restarted
            &&& moments == HeadMoments::none()
        },
    }
}

/// How the loop and the queue take in an event.
pub open spec fn event_handled<
    P: HeadersSyncPipeline,
    S: SourceClient<P>,
    T: TargetClient<P>,
    Q: HeadersSync<P>,
>(
    before: SyncLoop<P, S, T>,
    sync: Q,
    event: Event<P, S, T>,
    moments: HeadMoments,
    after: SyncLoop<P, S, T>,
    sync_after: Q,
    reaction: Reaction<P, S, T>,
) -> bool {
    match event {
        Event::Source(event) => {
            &&& source_event_handled(
                before,
                sync,
                event,
                after,
                sync_after,
                reaction.source_failure,
            )
            &&& reaction.target_failure is None
            &&& !reaction.restarted
            &&& moments == HeadMoments::none()
        },
        Event::Target(event) => {
            &&& target_event_handled(
                before,
                sync,
                event,
                moments,
                after,
                sync_after,
                reaction.target_failure,
                reaction.restarted,
            )
            &&& reaction.source_failure is None
        },
    }
}

impl<P: HeadersSyncPipeline, S: SourceClient<P>, T: TargetClient<P>> SyncLoop<P, S, T> {
    /// Takes in what is heard of the source node.
    pub fn handle_source_event<Q: HeadersSync<P>>(
        &mut self,
        sync: Q,
        event: SourceEvent<P, S>,
    ) -> (result: (Q, Option<Failure<S, S::Error>>))
        ensures
            source_event_handled(*old(self), sync, event, *final(self), result.0, result.1),
    {
        match event {
            SourceEvent::BestBlockNumber(client, result) => {
                self.source_best_block_number_required = false;
                match process_future_result(&mut self.source_client, client, result) {
                    Ok(number) => (sync.source_best_header_number_response(number), None),
                    Err(failure) => (sync, Some(failure)),
                }
            },
            SourceEvent::NewHeader(client, result) => {
                match process_future_result(&mut self.source_client, client, result) {
                    Ok(header) => (sync.header_response(header), None),
                    Err(failure) => (sync, Some(failure)),
                }
            },
            SourceEvent::OrphanHeader(client, result) => {
                match process_future_result(&mut self.source_client, client, result) {
                    Ok(header) => (sync.header_response(header), None),
                    Err(failure) => (sync, Some(failure)),
                }
            },
            SourceEvent::Extra(client, result) => {
                match process_future_result(&mut self.source_client, client, result) {
                    Ok((id, extra)) => (sync.extra_response(id, extra), None),
                    Err(failure) => (sync, Some(failure)),
                }
            },
            SourceEvent::Completion(client, result) => {
                match process_future_result(&mut self.source_client, client, result) {
                    Ok((id, completion)) => (sync.completion_response(id, completion), None),
                    Err(failure) => (sync, Some(failure)),
                }
            },
            SourceEvent::Reconnect(client) => {
                self.source_client = Some(client);
                (sync, None)
            },
            SourceEvent::Tick => {
                if sync.is_almost_synced() {
                    self.source_best_block_number_required = true;
                }
                (sync, None)
            },
        }
    }

    /// Takes in the best header of the target node. The answer is whether the
    /// queue has been restarted.
    pub fn handle_target_head<Q: HeadersSync<P>, C: Clock>(
        &mut self,
        sync: Q,
        id: HeaderIdOf<P>,
        clock: C,
    ) -> (result: (Q, bool, C))
        ensures
            exists|moments: HeadMoments|
                {
                    &&& moments.read_from(clock, result.2)
                    &&& #[trigger] target_head_handled(
                        *old(self),
                        sync,
                        id,
                        moments,
                        *final(self),
                        result.0,
                        result.1,
                    )
                },
            *final(self) == (SyncLoop { stall: final(self).stall, ..*old(self) }),
    {
        let ghost (sync_before, clock_before) = (sync, clock);
        let (sync, head_updated) = sync.target_best_header_response(id);
        if head_updated {
            // IF head is updated AND there are still our transactions:
            // => restart stall countdown timer
            // IF head is updated AND there are no our transactions:
            // => stop stall countdown timer
            let (clock, update) = clock.now();
            let ghost clock_updated = clock;
            let submitted = sync.headers_in_status(HeaderStatus::Submitted);
            let (clock, countdown) = if submitted != 0 {
                let (clock, now) = clock.now();
                (clock, Some(now))
            } else {
                (clock, None)
            };
            self.stall.head_updated(update, countdown);
            let result = (sync, false, clock);
            proof {
                let moments = HeadMoments { update: Some(update), countdown, expiry: None };
                assert(read_from(clock_before, moments.update, clock_updated));
                assert(read_from(clock_updated, moments.countdown, clock));
                assert(moments.read_from(clock_before, result.2));
                assert(target_head_handled(
                    *old(self),
                    sync_before,
                    id,
                    moments,
                    *self,
                    result.0,
                    result.1,
                ));
            }
            result
        } else {
            // IF head is not updated AND stall countdown is not yet completed
            // => do nothing
            // IF head is not updated AND stall countdown has completed
            // => restart sync
            let ghost mut expiry: Option<u128> = None;
            let (clock, restart) = if self.stall.countdown.is_some() {
                let (clock, now) = clock.now();
                proof {
                    expiry = Some(now);
                }
                (clock, self.stall.head_unchanged(now))
            } else {
                (clock, false)
            };
            let result = if restart {
                (sync.restart(), true, clock)
            } else {
                (sync, false, clock)
            };
            proof {
                let moments = HeadMoments { update: None, countdown: None, expiry };
                assert(read_from(clock_before, moments.update, clock_before));
                assert(read_from(clock_before, moments.countdown, clock_before));
                assert(moments.read_from(clock_before, result.2));
                assert(target_head_handled(
                    *old(self),
                    sync_before,
                    id,
                    moments,
                    *self,
                    result.0,
                    result.1,
                ));
            }
            result
        }
    }

    /// Takes in what is heard of the target node.
    pub fn handle_target_event<Q: HeadersSync<P>, C: Clock>(
        &mut self,
        sync: Q,
        event: TargetEvent<P, T>,
        clock: C,
    ) -> (result: (Q, Option<Failure<T, T::Error>>, bool, C))
        ensures
            exists|moments: HeadMoments|
                {
                    &&& moments.read_from(clock, result.3)
                    &&& #[trigger] target_event_handled(
                        *old(self),
                        sync,
                        event,
                        moments,
                        *final(self),
                        result.0,
                        result.1,
                        result.2,
                    )
                },
    {
        let ghost (sync_before, event_before, clock_before) = (sync, event, clock);
        let ghost mut moments = HeadMoments::none();
        let mut clock = clock;
        proof {
            lemma_nothing_read(clock);
        }
        let result = match event {
            TargetEvent::BestBlock(client, result) => {
                self.target_best_block_required = false;
                match process_future_result(&mut self.target_client, client, result) {
                    Ok(id) => {
                        let ghost told = *self;
                        let (sync, restarted, clock_after) = self.handle_target_head(
                            sync,
                            id,
                            clock,
                        );
                        clock = clock_after;
                        proof {
                            moments = choose|m: HeadMoments|
                                {
                                    &&& m.read_from(clock_before, clock)
                                    &&& #[trigger] target_head_handled(
                                        told,
                                        sync_before,
                                        id,
                                        m,
                                        *self,
                                        sync,
                                        restarted,
                                    )
                                };
                        }
                        (sync, None, restarted)
                    },
                    Err(failure) => (sync, Some(failure), false),
                }
            },
            TargetEvent::IncompleteHeaders(client, result) => {
                self.target_incomplete_headers_required = false;
                match process_future_result(&mut self.target_client, client, result) {
                    Ok(ids) => (sync.incomplete_headers_response(ids), None, false),
                    Err(failure) => (sync, Some(failure), false),
                }
            },
            TargetEvent::ExistenceStatus(client, result) => {
                match process_future_result(&mut self.target_client, client, result) {
                    Ok((id, known)) => (sync.maybe_orphan_response(id, known), None, false),
                    Err(failure) => (sync, Some(failure), false),
                }
            },
            TargetEvent::SubmitHeaders(client, result) => {
                match process_future_result(&mut self.target_client, client, result) {
                    Ok(ids) => (sync.headers_submitted(ids), None, false),
                    Err(failure) => (sync, Some(failure), false),
                }
            },
            TargetEvent::CompleteHeader(client, result) => {
                match process_future_result(&mut self.target_client, client, result) {
                    Ok(id) => (sync.header_completed(id), None, false),
                    Err(failure) => (sync, Some(failure), false),
                }
            },
            TargetEvent::ExtraCheck(client, result) => {
                match process_future_result(&mut self.target_client, client, result) {
                    Ok((id, required)) => (sync.maybe_extra_response(id, required), None, false),
                    Err(failure) => (sync, Some(failure), false),
                }
            },
            TargetEvent::Reconnect(client) => {
                self.target_client = Some(client);
                (sync, None, false)
            },
            TargetEvent::Tick => {
                self.target_best_block_required = true;
                self.target_incomplete_headers_required = true;
                (sync, None, false)
            },
        };
        let result = (result.0, result.1, result.2, clock);
        assert(moments.read_from(clock_before, result.3));
        assert(target_event_handled(
            *old(self),
            sync_before,
            event_before,
            moments,
            *self,
            result.0,
            result.1,
            result.2,
        ));
        result
    }

    /// Takes in an event.
    pub fn handle_event<Q: HeadersSync<P>, C: Clock>(
        &mut self,
        sync: Q,
        event: Event<P, S, T>,
        clock: C,
    ) -> (result: (Q, Reaction<P, S, T>, C))
        ensures
            exists|moments: HeadMoments|
                {
                    &&& moments.read_from(clock, result.2)
                    &&& #[trigger] event_handled(
                        *old(self),
                        sync,
                        event,
                        moments,
                        *final(self),
                        result.0,
                        result.1,
                    )
                },
    {
        let ghost (sync_before, event_before, clock_before) = (sync, event, clock);
        let ghost mut moments = HeadMoments::none();
        let mut clock = clock;
        proof {
            lemma_nothing_read(clock);
        }
        let result = match event {
            Event::Source(event) => {
                let (sync, source_failure) = self.handle_source_event(sync, event);
                (sync, Reaction { source_failure, target_failure: None, restarted: false })
            },
            Event::Target(event) => {
                let (sync, target_failure, restarted, clock_after) = self.handle_target_event(
                    sync,
                    event,
                    clock,
                );
                clock = clock_after;
                proof {
                    moments = choose|m: HeadMoments|
                        {
                            &&& m.read_from(clock_before, clock)
                            &&& #[trigger] target_event_handled(
                                *old(self),
                                sync_before,
                                event,
                                m,
                                *self,
                                sync,
                                target_failure,
                                restarted,
                            )
                        };
                }
                (sync, Reaction { source_failure: None, target_failure, restarted })
            },
        };
        let result = (result.0, result.1, clock);
        assert(moments.read_from(clock_before, result.2));
        assert(event_handled(
            *old(self),
            sync_before,
            event_before,
            moments,
            *self,
            result.0,
            result.1,
        ));
        result
    }
}

} // verus!
