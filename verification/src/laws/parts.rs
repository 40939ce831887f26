//! Laws of the parts that the loop is made of, each for itself.

use vstd::prelude::*;
use crate::clients::{
    names_of, source_note, source_request_sent, target_note, target_request_sent, SourceClient,
    SourceFuture, SourceNote, SourceRequest, SubmittedIds, TargetClient, TargetFuture, TargetNote,
    TargetRequest,
};
use crate::failure::{failed, Failure};
use crate::number::{saturating_difference, BlockNumber};
use crate::progress::{
    progress_made, progress_printed, ProgressContext, ProgressMessage, PROGRESS_HEADERS,
};
use crate::queue::HeadersSync;
use crate::selection::{
    source_asked, source_choice, target_asked, target_choice, SourceAnswers, SourceChoice,
    TargetAnswers,
};
use crate::stall::Stall;
use crate::state::SyncLoop;
use crate::sync_loop::initial_state;
use crate::timing::{
    read_from, time_between, Clock, HeadMoments, Moments, TurnMoments, BACKUP_STALL_SYNC_TIMEOUT,
    CONNECTION_ERROR_DELAY, PROGRESS_DELAY, STALL_SYNC_TIMEOUT,
};
use crate::types::{HeaderId, HeaderIdOf, HeaderStatus, HeadersSyncPipeline, QueuedHeader};

verus! {

/// A difference gives back the larger number when the smaller one is added, and is
/// zero exactly if the first number does not exceed the second.
pub proof fn law_saturating_difference(a: nat, b: nat)
    ensures
        a >= b ==> saturating_difference(a, b) + b == a,
        saturating_difference(a, b) == 0 <==> a <= b,
{
}

/// A block number stands for the whole number that it holds.
pub proof fn law_block_numbers(a: u32, b: u64)
    ensures
        a.as_nat() == a,
        b.as_nat() == b,
{
}

/// Time passes by the difference of two moments, and never backwards.
pub proof fn law_time_between(since: u128, now: u128)
    ensures
        since <= now ==> since + time_between(since, now) == now,
        time_between(since, now) == 0 <==> now <= since,
{
}

/// A moment is what the clock has shown, in one reading; without one the clock was
/// not read.
pub proof fn law_reading<C: Clock>(clock: C, now: u128, after: C)
    ensures
        read_from(clock, Some(now), after) == call_ensures(C::now, (clock,), (after, now)),
        read_from(clock, None, after) == (after == clock),
{
}

/// The moments of an event come from one reading each, in order.
pub proof fn law_head_readings<C: Clock>(moments: HeadMoments, clock: C, after: C) -> (between: (
    C,
    C,
))
    requires
        moments.read_from(clock, after),
    ensures
        match moments.update {
            Some(now) => call_ensures(C::now, (clock,), (between.0, now)),
            None => between.0 == clock,
        },
        match moments.countdown {
            Some(now) => call_ensures(C::now, (between.0,), (between.1, now)),
            None => between.1 == between.0,
        },
        match moments.expiry {
            Some(now) => call_ensures(C::now, (between.1,), (after, now)),
            None => after == between.1,
        },
{
    let (updated, counted) = choose|updated: C, counted: C|
        {
            &&& #[trigger] read_from(clock, moments.update, updated)
            &&& #[trigger] read_from(updated, moments.countdown, counted)
            &&& read_from(counted, moments.expiry, after)
        };
    (updated, counted)
}

/// The moments of a turn come from one reading each, in order.
pub proof fn law_turn_readings<C: Clock>(moments: TurnMoments, clock: C, after: C) -> (between: C)
    requires
        moments.read_from(clock, after),
    ensures
        match moments.silence {
            Some(now) => call_ensures(C::now, (clock,), (between, now)),
            None => between == clock,
        },
        match moments.submission {
            Some(now) => call_ensures(C::now, (between,), (after, now)),
            None => after == between,
        },
{
    choose|asked: C|
        {
            &&& #[trigger] read_from(clock, moments.silence, asked)
            &&& read_from(asked, moments.submission, after)
        }
}

/// In an iteration the clock is read for the event, then once for the progress
/// message, then for the turn of the target client.
pub proof fn law_iteration_readings<C: Clock>(moments: Moments, clock: C, after: C) -> (between: (
    C,
    C,
))
    requires
        moments.read_from(clock, after),
    ensures
        moments.head.read_from(clock, between.0),
        call_ensures(C::now, (between.0,), (between.1, moments.progress)),
        moments.turn.read_from(between.1, after),
{
    let (informed, printed) = choose|informed: C, printed: C|
        {
            &&& #[trigger] moments.head.read_from(clock, informed)
            &&& read_from(informed, Some(moments.progress), printed)
            &&& #[trigger] moments.turn.read_from(printed, after)
        };
    (informed, printed)
}

/// The countdown has run out exactly if it was started at least the timeout ago; and
/// a backup relay steps in exactly if the last update is older than its timeout.
pub proof fn law_stall_timeouts(stall: Stall, now: u128)
    ensures
        stall.expired(now) <==> stall.countdown is Some && now - stall.countdown->0
            >= STALL_SYNC_TIMEOUT,
        stall.backup_due(now) <==> now - stall.last_update_time > BACKUP_STALL_SYNC_TIMEOUT,
{
}

/// What a watch becomes: a new head replaces both moments; the same head stops a
/// countdown that has run out; a submission starts one that does not run.
pub proof fn law_stall_changes(stall: Stall, update: u128, countdown: Option<u128>, now: u128)
    ensures
        stall.after_head_update(update, countdown).last_update_time == update,
        stall.after_head_update(update, countdown).countdown == countdown,
        stall.after_same_head(now).last_update_time == stall.last_update_time,
        stall.countdown matches Some(since) ==> {
            &&& now - since >= STALL_SYNC_TIMEOUT ==> stall.after_same_head(now).countdown is None
            &&& now - since < STALL_SYNC_TIMEOUT ==> stall.after_same_head(now) == stall
        },
        stall.countdown is None ==> stall.after_same_head(now) == stall,
        stall.after_submission(now).last_update_time == stall.last_update_time,
        stall.countdown is Some ==> stall.after_submission(now) == stall,
        stall.countdown is None ==> stall.after_submission(now).countdown == Some(now),
{
}

/// A client that has failed is available unless its connection is lost; it rests for
/// the delay then, and whoever was available still is.
pub proof fn law_failed_client<TClient, TError>(
    maybe_client: Option<TClient>,
    client: TClient,
    error: TError,
)
    ensures
        failed(maybe_client, client, error, true).0 == maybe_client,
        failed(maybe_client, client, error, true).1 == (Failure::GoOffline {
            client,
            delay: CONNECTION_ERROR_DELAY,
            error,
        }),
        failed(maybe_client, client, error, false).0 == Some(client),
        failed(maybe_client, client, error, false).1 == Failure::<TClient, TError>::Failed(error),
{
}

/// A progress message is due exactly if the last one is older than the delay, or if
/// the best header of the target has advanced by more than the limit since. It tells
/// the numbers that the queue has answered with, which are remembered along with the
/// moment; without a message nothing changes.
pub proof fn law_progress<P: HeadersSyncPipeline>(
    context: ProgressContext<P::Number>,
    best: Option<HeaderIdOf<P>>,
    target: Option<P::Number>,
    now: u128,
)
    ensures
        ({
            let (context_after, message) = progress_made::<P>(context, (best, target), now);
            let (prev_time, prev_best, prev_target) = context;
            &&& message is Some <==> {
                ||| now - prev_time > PROGRESS_DELAY
                ||| prev_best matches Some(prev) && best matches Some(HeaderId(number, _))
                    && number.as_nat() > prev.as_nat() + PROGRESS_HEADERS
            }
            &&& message is None ==> context_after == context
            &&& message matches Some(told) ==> {
                &&& context_after == (now, told.synced, told.total)
                &&& told.total == target
                &&& best is None ==> told.synced is None
                &&& best matches Some(HeaderId(number, _)) ==> told.synced == Some(number)
            }
        }),
{
}

/// Progress is made from what the queue answers about its status, and from that alone.
pub proof fn law_progress_comes_from_the_queue<P: HeadersSyncPipeline, Q: HeadersSync<P>>(
    context: ProgressContext<P::Number>,
    sync: Q,
    now: u128,
    result: (ProgressContext<P::Number>, Option<ProgressMessage<P::Number>>),
) -> (status: (Option<HeaderIdOf<P>>, Option<P::Number>))
    requires
        progress_printed::<P, Q>(context, sync, now, result),
    ensures
        call_ensures(Q::status, (&sync,), status),
        result == progress_made::<P>(context, status, now),
{
    choose|status: (Option<HeaderIdOf<P>>, Option<P::Number>)|
        {
            &&& #[trigger] call_ensures(Q::status, (&sync,), status)
            &&& result == progress_made::<P>(context, status, now)
        }
}

/// What a loop starts from.
pub proof fn law_start<P: HeadersSyncPipeline, S: SourceClient<P>, T: TargetClient<P>>(
    printed: u128,
    updated: u128,
)
    ensures
        ({
            let state: SyncLoop<P, S, T> = initial_state(printed, updated);
            &&& state.source_client is None
            &&& state.target_client is None
            &&& !state.source_best_block_number_required
            &&& !state.target_best_block_required
            &&& state.target_incomplete_headers_required
            &&& state.stall.countdown is None
            &&& state.stall.last_update_time == updated
            &&& state.progress_context == (printed, None::<P::Number>, None::<P::Number>)
        }),
{
}

/// A request to the source node becomes exactly one call of the client, with what the
/// request holds.
pub proof fn law_source_request<P: HeadersSyncPipeline, S: SourceClient<P>>(
    client: S,
    request: SourceRequest<P>,
    future: SourceFuture<P, S>,
)
    requires
        source_request_sent(client, request, future),
    ensures
        future matches SourceFuture::BestBlockNumber(f) ==> {
            &&& request is BestBlockNumber
            &&& call_ensures(S::best_block_number, (client,), f)
        },
        future matches SourceFuture::Completion(f) ==> {
            &&& request matches SourceRequest::Completion(id)
            &&& call_ensures(S::header_completion, (client, id), f)
        },
        future matches SourceFuture::Extra(f) ==> {
            &&& request matches SourceRequest::Extra(id, header)
            &&& call_ensures(S::header_extra, (client, id, header), f)
        },
        future matches SourceFuture::OrphanHeader(f) ==> {
            &&& request matches SourceRequest::OrphanHeader(id)
            &&& call_ensures(S::header_by_hash, (client, id.1), f)
        },
        future matches SourceFuture::NewHeader(f) ==> {
            &&& request matches SourceRequest::NewHeader(number)
            &&& call_ensures(S::header_by_number, (client, number), f)
        },
{
}

/// A request to the target node becomes exactly one call of the client, with what the
/// request holds: of a submission, all the headers in their order.
pub proof fn law_target_request<P: HeadersSyncPipeline, T: TargetClient<P>>(
    client: T,
    request: TargetRequest<P>,
    future: TargetFuture<P, T>,
)
    requires
        target_request_sent(client, request, future),
    ensures
        future matches TargetFuture::BestBlock(f) ==> {
            &&& request is BestBlock
            &&& call_ensures(T::best_header_id, (client,), f)
        },
        future matches TargetFuture::IncompleteHeaders(f) ==> {
            &&& request is IncompleteHeaders
            &&& call_ensures(T::incomplete_headers_ids, (client,), f)
        },
        future matches TargetFuture::CompleteHeader(f) ==> {
            &&& request matches TargetRequest::CompleteHeader(id, completion)
            &&& call_ensures(T::complete_header, (client, id, completion), f)
        },
        future matches TargetFuture::ExtraCheck(f) ==> {
            &&& request matches TargetRequest::ExtraCheck(header)
            &&& call_ensures(T::requires_extra, (client, header), f)
        },
        future matches TargetFuture::ExistenceStatus(f) ==> {
            &&& request matches TargetRequest::ExistenceStatus(id)
            &&& call_ensures(T::is_known_header, (client, id), f)
        },
        future matches TargetFuture::SubmitHeaders(f) ==> {
            &&& request matches TargetRequest::SubmitHeaders(headers)
            &&& call_ensures(T::submit_headers, (client, headers), f)
        },
{
}

/// The message about a submission names its first header, and its last one if there
/// is another; it says "both" of two and gives a range for more.
pub proof fn law_names_of_a_submission<P: HeadersSyncPipeline>(headers: Seq<QueuedHeader<P>>)
    requires
        headers.len() > 0,
    ensures
        match names_of(headers) {
            SubmittedIds::One(id) => headers.len() == 1 && id == headers[0].id,
            SubmittedIds::Two(first, second) => {
                &&& headers.len() == 2
                &&& first == headers[0].id
                &&& second == headers[1].id
            },
            SubmittedIds::Range(first, last) => {
                &&& headers.len() > 2
                &&& first == headers[0].id
                &&& last == headers[headers.len() - 1].id
            },
        },
{
}

/// The message about a request to the source node names what is asked for.
pub proof fn law_source_message<P: HeadersSyncPipeline>(request: SourceRequest<P>)
    ensures
        match source_note(request) {
            SourceNote::BestBlockNumber => request is BestBlockNumber,
            SourceNote::Completion(told) => request matches SourceRequest::Completion(id) && id
                == told,
            SourceNote::Extra(told) => request matches SourceRequest::Extra(id, _) && id == told,
            SourceNote::OrphanHeader(told) => request matches SourceRequest::OrphanHeader(id)
                && id == told,
            SourceNote::NewHeader(told) => request matches SourceRequest::NewHeader(number)
                && number == told,
        },
{
}

/// The message about a request to the target node names what is asked for; there is
/// one exactly if the request is not a submission without headers.
pub proof fn law_target_message<P: HeadersSyncPipeline>(request: TargetRequest<P>)
    ensures
        match target_note(request) {
            None => request matches TargetRequest::SubmitHeaders(headers) && headers@.len() == 0,
            Some(TargetNote::BestBlock) => request is BestBlock,
            Some(TargetNote::IncompleteHeaders) => request is IncompleteHeaders,
            Some(TargetNote::CompleteHeader(told)) => request matches TargetRequest::CompleteHeader(
                id,
                _,
            ) && id == told,
            Some(TargetNote::ExtraCheck(told)) => request matches TargetRequest::ExtraCheck(header)
                && header.id == told,
            Some(TargetNote::ExistenceStatus(told)) =>
                request matches TargetRequest::ExistenceStatus(id) && id == told,
            Some(TargetNote::SubmitHeaders(count, ids)) =>
                request matches TargetRequest::SubmitHeaders(headers) && headers@.len() == count
                    && count > 0 && ids == names_of(headers@),
        },
{
}

/// The request that the target node gets holds exactly what the queue has answered
/// with; and there is none exactly if there is nothing to request.
pub proof fn law_target_choice<P: HeadersSyncPipeline>(
    best_block_required: bool,
    incomplete_headers_required: bool,
    answers: TargetAnswers<P>,
)
    ensures
        match target_choice(best_block_required, incomplete_headers_required, answers) {
            Some(TargetRequest::BestBlock) => best_block_required,
            Some(TargetRequest::IncompleteHeaders) => !best_block_required
                && incomplete_headers_required,
            Some(TargetRequest::CompleteHeader(id, completion)) => answers.to_complete == Some(
                (id, completion),
            ),
            Some(TargetRequest::ExtraCheck(header)) => answers.to_complete is None
                && answers.maybe_extra == Some(header),
            Some(TargetRequest::ExistenceStatus(id)) => {
                &&& answers.to_complete is None && answers.maybe_extra is None
                &&& answers.maybe_orphan matches Some(header)
                &&& header.parent_id == id
            },
            Some(TargetRequest::SubmitHeaders(headers)) => {
                &&& answers.to_complete is None && answers.maybe_extra is None
                &&& answers.maybe_orphan is None
                &&& answers.to_submit == Some(headers)
            },
            None => {
                &&& answers.to_complete is None && answers.maybe_extra is None
                &&& answers.maybe_orphan is None && answers.to_submit is None
            },
        },
        best_block_required || incomplete_headers_required <==> (target_choice(
            best_block_required,
            incomplete_headers_required,
            answers,
        ) matches Some(request) && (request is BestBlock || request is IncompleteHeaders)),
{
}

/// The request that the source node gets holds exactly what the queue has answered
/// with; and there is none exactly if there is nothing to request, or if it would be
/// for the genesis header.
pub proof fn law_source_choice<P: HeadersSyncPipeline>(
    best_block_number_required: bool,
    answers: SourceAnswers<P>,
)
    ensures
        match source_choice(best_block_number_required, answers) {
            SourceChoice::Request(SourceRequest::BestBlockNumber) => true,
            SourceChoice::Request(SourceRequest::Completion(id)) => answers.incomplete == Some(id),
            SourceChoice::Request(SourceRequest::Extra(id, header)) => {
                &&& answers.incomplete is None
                &&& answers.extra == Some(header)
                &&& id == header.id
            },
            SourceChoice::Request(SourceRequest::OrphanHeader(id)) => {
                &&& answers.incomplete is None && answers.extra is None
                &&& answers.orphan matches Some(header)
                &&& header.parent_id == id
                &&& id.0.as_nat() != 0
            },
            SourceChoice::Misconfigured => {
                &&& answers.incomplete is None && answers.extra is None
                &&& answers.orphan matches Some(header)
                &&& header.parent_id.0.as_nat() == 0
            },
            SourceChoice::Request(SourceRequest::NewHeader(number)) => {
                &&& answers.incomplete is None && answers.extra is None
                &&& answers.orphan is None
                &&& answers.new_header == Some(number)
            },
            SourceChoice::Nothing => {
                &&& answers.incomplete is None && answers.extra is None
                &&& answers.orphan is None && answers.new_header is None
            },
        },
        best_block_number_required <==> (source_choice(
            best_block_number_required,
            answers,
        ) matches SourceChoice::Request(SourceRequest::BestBlockNumber)),
{
}

/// While the loop itself has a request for the target node, the queue is not asked.
/// Otherwise it is asked for a header to complete, for one that may require extra
/// data, for one that may be an orphan, and for headers to submit, in this order, and
/// no further than to the first answer that is not nothing. What is kept is what it
/// has answered.
pub proof fn law_target_questions<P: HeadersSyncPipeline, Q: HeadersSync<P>>(
    best_block_required: bool,
    incomplete_headers_required: bool,
    stall: Stall,
    silence: Option<u128>,
    sync: Q,
    after: Q,
    answers: TargetAnswers<P>,
)
    requires
        target_asked::<P, Q>(
            best_block_required,
            incomplete_headers_required,
            stall,
            silence,
            sync,
            after,
            answers,
        ),
    ensures
        best_block_required || incomplete_headers_required ==> {
            &&& after == sync
            &&& answers.to_complete is None && answers.maybe_extra is None
            &&& answers.maybe_orphan is None && answers.to_submit is None
            &&& silence is None
        },
        !best_block_required && !incomplete_headers_required ==> {
            &&& call_ensures(Q::header_to_complete, (sync,), (after, answers.to_complete))
            &&& answers.to_complete is None ==> call_ensures(
                Q::header,
                (&after, HeaderStatus::MaybeExtra),
                answers.maybe_extra,
            )
            &&& answers.to_complete is None && answers.maybe_extra is None ==> call_ensures(
                Q::header,
                (&after, HeaderStatus::MaybeOrphan),
                answers.maybe_orphan,
            )
            &&& answers.to_complete is None && answers.maybe_extra is None
                && answers.maybe_orphan is None ==> {
                &&& silence matches Some(now)
                &&& call_ensures(
                    Q::select_headers_to_submit,
                    (&after, now - stall.last_update_time > BACKUP_STALL_SYNC_TIMEOUT),
                    answers.to_submit,
                )
            }
            &&& answers.to_complete is Some ==> answers.maybe_extra is None
            &&& answers.to_complete is Some || answers.maybe_extra is Some
                ==> answers.maybe_orphan is None
            &&& answers.to_complete is Some || answers.maybe_extra is Some
                || answers.maybe_orphan is Some ==> answers.to_submit is None && silence is None
        },
{
}

/// While the loop itself has a request for the source node, the queue is not asked.
/// Otherwise it is asked for an incomplete header, for one that requires extra data,
/// for an orphan, and for a header to download, in this order, and no further than to
/// the first answer that is not nothing. What is kept is what it has answered.
pub proof fn law_source_questions<P: HeadersSyncPipeline, Q: HeadersSync<P>>(
    best_block_number_required: bool,
    sync: Q,
    after: Q,
    answers: SourceAnswers<P>,
)
    requires
        source_asked::<P, Q>(best_block_number_required, sync, after, answers),
    ensures
        best_block_number_required ==> {
            &&& after == sync
            &&& answers.incomplete is None && answers.extra is None
            &&& answers.orphan is None && answers.new_header is None
        },
        !best_block_number_required ==> {
            &&& call_ensures(Q::incomplete_header, (sync,), (after, answers.incomplete))
            &&& answers.incomplete is None ==> call_ensures(
                Q::header,
                (&after, HeaderStatus::Extra),
                answers.extra,
            )
            &&& answers.incomplete is None && answers.extra is None ==> call_ensures(
                Q::header,
                (&after, HeaderStatus::Orphan),
                answers.orphan,
            )
            &&& answers.incomplete is None && answers.extra is None && answers.orphan is None
                ==> call_ensures(
                Q::select_new_header_to_download,
                (&after,),
                answers.new_header,
            )
            &&& answers.incomplete is Some ==> answers.extra is None
            &&& answers.incomplete is Some || answers.extra is Some ==> answers.orphan is None
            &&& answers.incomplete is Some || answers.extra is Some || answers.orphan is Some
                ==> answers.new_header is None
        },
{
}

} // verus!
