//! Laws of the choice of requests, of progress messages and of failures.

use vstd::prelude::*;
use crate::clients::{SourceRequest, TargetRequest};
use crate::failure::{processed, Failure};
use crate::number::{saturating_difference, BlockNumber};
use crate::progress::{number_of, progress_made, ProgressContext, PROGRESS_HEADERS};
use crate::selection::{
    source_choice, target_choice, SourceAnswers, SourceChoice, TargetAnswers,
};
use crate::timing::{time_between, CONNECTION_ERROR_DELAY, PROGRESS_DELAY};
use crate::types::{HeaderIdOf, HeadersSyncPipeline, MaybeConnectionError};

verus! {

/// Place of a request in the order of priority.
pub open spec fn target_rank<P: HeadersSyncPipeline>(request: TargetRequest<P>) -> int {
    match request {
        TargetRequest::BestBlock => 1,
        TargetRequest::IncompleteHeaders => 2,
        TargetRequest::CompleteHeader(_, _) => 3,
        TargetRequest::ExtraCheck(_) => 4,
        TargetRequest::ExistenceStatus(_) => 5,
        TargetRequest::SubmitHeaders(_) => 6,
    }
}

/// Is there something to request at given place of the order of priority?
pub open spec fn target_work<P: HeadersSyncPipeline>(
    best_block_required: bool,
    incomplete_headers_required: bool,
    answers: TargetAnswers<P>,
    rank: int,
) -> bool {
    ||| rank == 1 && best_block_required
    ||| rank == 2 && incomplete_headers_required
    ||| rank == 3 && answers.to_complete is Some
    ||| rank == 4 && answers.maybe_extra is Some
    ||| rank == 5 && answers.maybe_orphan is Some
    ||| rank == 6 && answers.to_submit is Some
}

/// Place of a decision in the order of priority. Nothing comes last.
pub open spec fn source_rank<P: HeadersSyncPipeline>(choice: SourceChoice<P>) -> int {
    match choice {
        SourceChoice::Request(SourceRequest::BestBlockNumber) => 1,
        SourceChoice::Request(SourceRequest::Completion(_)) => 2,
        SourceChoice::Request(SourceRequest::Extra(_, _)) => 3,
        SourceChoice::Request(SourceRequest::OrphanHeader(_)) => 4,
        SourceChoice::Misconfigured => 4,
        SourceChoice::Request(SourceRequest::NewHeader(_)) => 5,
        SourceChoice::Nothing => 6,
    }
}

/// Is there something to request at given place of the order of priority?
pub open spec fn source_work<P: HeadersSyncPipeline>(
    best_block_number_required: bool,
    answers: SourceAnswers<P>,
    rank: int,
) -> bool {
    ||| rank == 1 && best_block_number_required
    ||| rank == 2 && answers.incomplete is Some
    ||| rank == 3 && answers.extra is Some
    ||| rank == 4 && answers.orphan is Some
    ||| rank == 5 && answers.new_header is Some
}

/// The target node gets the request of highest priority, and gets none only if
/// there is no work at all.
pub proof fn law_target_priority<P: HeadersSyncPipeline>(
    best_block_required: bool,
    incomplete_headers_required: bool,
    answers: TargetAnswers<P>,
)
    ensures
        match target_choice(best_block_required, incomplete_headers_required, answers) {
            Some(request) => {
                &&& target_work(
                    best_block_required,
                    incomplete_headers_required,
                    answers,
                    target_rank(request),
                )
                &&& forall|rank: int|
                    rank < target_rank(request) ==> !#[trigger] target_work(
                        best_block_required,
                        incomplete_headers_required,
                        answers,
                        rank,
                    )
            },
            None => forall|rank: int|
                !#[trigger] target_work(
                    best_block_required,
                    incomplete_headers_required,
                    answers,
                    rank,
                ),
        },
{
}

/// The source node gets the request of highest priority, and gets none only if
/// there is no work at all, or if the work of highest priority is to download the
/// genesis header.
pub proof fn law_source_priority<P: HeadersSyncPipeline>(
    best_block_number_required: bool,
    answers: SourceAnswers<P>,
)
    ensures
        ({
            let choice = source_choice(best_block_number_required, answers);
            &&& !(choice is Nothing) ==> source_work(
                best_block_number_required,
                answers,
                source_rank(choice),
            )
            &&& forall|rank: int|
                rank < source_rank(choice) ==> !#[trigger] source_work(
                    best_block_number_required,
                    answers,
                    rank,
                )
            &&& choice is Misconfigured ==> answers.orphan->0.parent_id.0.as_nat() == 0
        }),
{
}

/// No two progress messages come close to each other: between them the delay has
/// passed, or the target has advanced by more headers than the limit.
pub proof fn law_messages_apart<P: HeadersSyncPipeline>(
    context: ProgressContext<P::Number>,
    first_status: (Option<HeaderIdOf<P>>, Option<P::Number>),
    first_time: u128,
    second_status: (Option<HeaderIdOf<P>>, Option<P::Number>),
    second_time: u128,
)
    requires
        progress_made::<P>(context, first_status, first_time).1 is Some,
        progress_made::<P>(
            progress_made::<P>(context, first_status, first_time).0,
            second_status,
            second_time,
        ).1 is Some,
    ensures
        ({
            ||| time_between(first_time, second_time) > PROGRESS_DELAY
            ||| match (number_of::<P>(first_status.0), number_of::<P>(second_status.0)) {
                (Some(first), Some(second)) => saturating_difference(
                    second.as_nat(),
                    first.as_nat(),
                ) > PROGRESS_HEADERS,
                _ => false,
            }
        }),
{
}

/// Without a message the context stays as it is, so the next message is measured
/// against the last one that was printed.
pub proof fn law_no_message_no_change<P: HeadersSyncPipeline>(
    context: ProgressContext<P::Number>,
    status: (Option<HeaderIdOf<P>>, Option<P::Number>),
    now: u128,
)
    requires
        progress_made::<P>(context, status, now).1 is None,
    ensures
        progress_made::<P>(context, status, now).0 == context,
        time_between(context.0, now) <= PROGRESS_DELAY,
{
}

/// A client that comes back is never lost. It is available, unless it brings an error
/// that the connection has caused: exactly then it rests, and whoever was available
/// before still is.
pub proof fn law_client_kept<TClient, TResult, TError: MaybeConnectionError>(
    before: Option<TClient>,
    client: TClient,
    result: Result<TResult, TError>,
    after: Option<TClient>,
    failure: Option<Failure<TClient, TError>>,
)
    requires
        processed(before, client, result, after, failure),
    ensures
        match result {
            Ok(_) => after == Some(client) && failure is None,
            Err(error) => exists|connection_error: bool|
                {
                    &&& #[trigger] call_ensures(
                        TError::is_connection_error,
                        (&error,),
                        connection_error,
                    )
                    &&& connection_error <==> failure == Some(
                        Failure::GoOffline { client, delay: CONNECTION_ERROR_DELAY, error },
                    )
                    &&& connection_error ==> after == before
                    &&& !connection_error <==> failure == Some(
                        Failure::<TClient, TError>::Failed(error),
                    )
                    &&& !connection_error ==> after == Some(client)
                },
        },
{
}

} // verus!
