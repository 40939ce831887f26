//! Which request comes next, for a node whose client is available.

use vstd::prelude::*;
use crate::clients::{SourceRequest, TargetRequest};
use crate::number::BlockNumber;
use crate::queue::HeadersSync;
use crate::stall::Stall;
use crate::timing::{read_from, Clock};
use crate::types::{HeaderIdOf, HeaderStatus, HeadersSyncPipeline, QueuedHeader};

verus! {

/// What the queue has answered when it was asked for work at the target node. A
/// question that was not asked is left at `None`.
pub struct TargetAnswers<P: HeadersSyncPipeline> {
    /// Header to complete, and its completion data.
    pub to_complete: Option<(HeaderIdOf<P>, P::Completion)>,
    /// Header that may require extra data.
    pub maybe_extra: Option<QueuedHeader<P>>,
    /// Header that may be an orphan.
    pub maybe_orphan: Option<QueuedHeader<P>>,
    /// Headers to submit.
    pub to_submit: Option<Vec<QueuedHeader<P>>>,
}

/// What the queue has answered when it was asked for work at the source node. A
/// question that was not asked is left at `None`.
pub struct SourceAnswers<P: HeadersSyncPipeline> {
    /// Header whose completion data is missing.
    pub incomplete: Option<HeaderIdOf<P>>,
    /// Header that requires extra data.
    pub extra: Option<QueuedHeader<P>>,
    /// Header that is an orphan.
    pub orphan: Option<QueuedHeader<P>>,
    /// Number of the header to download.
    pub new_header: Option<P::Number>,
}

/// Decision about the source node.
pub enum SourceChoice<P: HeadersSyncPipeline> {
    /// There is nothing to ask.
    Nothing,
    /// The request to send.
    Request(SourceRequest<P>),
    /// The genesis header is an orphan at the target node: the two nodes do not
    /// belong together, and the synchronization is to stop.
    Misconfigured,
}

/// The questions that the queue is asked about the target node, in order, up to
/// the first one that brings work. None is asked while the loop itself has a
/// request for the node. `silence` is the moment of the last question, which tells
/// the queue whether the target node has been silent for too long.
pub open spec fn target_asked<P: HeadersSyncPipeline, Q: HeadersSync<P>>(
    best_block_required: bool,
    incomplete_headers_required: bool,
    stall: Stall,
    silence: Option<u128>,
    sync: Q,
    after: Q,
    answers: TargetAnswers<P>,
) -> bool {
    if best_block_required || incomplete_headers_required {
        &&& after == sync
        &&& answers.to_complete is None
        &&& answers.maybe_extra is None
        &&& answers.maybe_orphan is None
        &&& answers.to_submit is None
        &&& silence is None
    } else {
        &&& call_ensures(Q::header_to_complete, (sync,), (after, answers.to_complete))
        &&& if answers.to_complete is Some {
            answers.maybe_extra is None
        } else {
            call_ensures(Q::header, (&after, HeaderStatus::MaybeExtra), answers.maybe_extra)
        }
        &&& if answers.to_complete is Some || answers.maybe_extra is Some {
            answers.maybe_orphan is None
        } else {
            call_ensures(Q::header, (&after, HeaderStatus::MaybeOrphan), answers.maybe_orphan)
        }
        &&& if answers.to_complete is Some || answers.maybe_extra is Some
            || answers.maybe_orphan is Some {
            answers.to_submit is None && silence is None
        } else {
            &&& silence is Some
            &&& call_ensures(
                Q::select_headers_to_submit,
                (&after, stall.backup_due(silence->0)),
                answers.to_submit,
            )
        }
    }
}

/// The questions that the queue is asked about the source node, in order, up to
/// the first one that brings work. None is asked while the loop itself has a
/// request for the node.
pub open spec fn source_asked<P: HeadersSyncPipeline, Q: HeadersSync<P>>(
    best_block_number_required: bool,
    sync: Q,
    after: Q,
    answers: SourceAnswers<P>,
) -> bool {
    if best_block_number_required {
        &&& after == sync
        &&& answers.incomplete is None
        &&& answers.extra is None
        &&& answers.orphan is None
        &&& answers.new_header is None
    } else {
        &&& call_ensures(Q::incomplete_header, (sync,), (after, answers.incomplete))
        &&& if answers.incomplete is Some {
            answers.extra is None
        } else {
            call_ensures(Q::header, (&after, HeaderStatus::Extra), answers.extra)
        }
        &&& if answers.incomplete is Some || answers.extra is Some {
            answers.orphan is None
        } else {
            call_ensures(Q::header, (&after, HeaderStatus::Orphan), answers.orphan)
        }
        &&& if answers.incomplete is Some || answers.extra is Some || answers.orphan is Some {
            answers.new_header is None
        } else {
            call_ensures(Q::select_new_header_to_download, (&after,), answers.new_header)
        }
    }
}

/// The request that the target node gets.
///
/// The priority is to:
/// 1) get best block - it stops us from downloading/submitting new blocks + we call it rarely;
/// 2) get incomplete headers - it stops us from submitting new blocks + we call it rarely;
/// 3) complete headers - it stops us from submitting new blocks;
/// 4) check if we need extra data from source - it stops us from downloading/submitting new blocks;
/// 5) check existence (of the parent of a header that may be an orphan) - it stops
///    us from submitting new blocks;
/// 6) submit header.
pub open spec fn target_choice<P: HeadersSyncPipeline>(
    best_block_required: bool,
    incomplete_headers_required: bool,
    answers: TargetAnswers<P>,
) -> Option<TargetRequest<P>> {
    if best_block_required {
        Some(TargetRequest::BestBlock)
    } else if incomplete_headers_required {
        Some(TargetRequest::IncompleteHeaders)
    } else if let Some((id, completion)) = answers.to_complete {
        Some(TargetRequest::CompleteHeader(id, completion))
    } else if let Some(header) = answers.maybe_extra {
        Some(TargetRequest::ExtraCheck(header))
    } else if let Some(header) = answers.maybe_orphan {
        Some(TargetRequest::ExistenceStatus(header.parent_id))
    } else if let Some(headers) = answers.to_submit {
        Some(TargetRequest::SubmitHeaders(headers))
    } else {
        None
    }
}

/// The request that the source node gets.
///
/// The priority is to:
/// 1) get best block - it stops us from downloading new blocks + we call it rarely;
/// 2) download completion data - it stops us from submitting new blocks;
/// 3) download extra data - it stops us from submitting new blocks;
/// 4) download missing headers (the parents of orphans) - it stops us from
///    downloading/submitting new blocks;
/// 5) downloading new headers.
pub open spec fn source_choice<P: HeadersSyncPipeline>(
    best_block_number_required: bool,
    answers: SourceAnswers<P>,
) -> SourceChoice<P> {
    if best_block_number_required {
        SourceChoice::Request(SourceRequest::BestBlockNumber)
    } else if let Some(id) = answers.incomplete {
        SourceChoice::Request(SourceRequest::Completion(id))
    } else if let Some(header) = answers.extra {
        SourceChoice::Request(SourceRequest::Extra(header.id, header))
    } else if let Some(header) = answers.orphan {
        if header.parent_id.0.as_nat() == 0 {
            SourceChoice::Misconfigured
        } else {
            SourceChoice::Request(SourceRequest::OrphanHeader(header.parent_id))
        }
    } else if let Some(number) = answers.new_header {
        SourceChoice::Request(SourceRequest::NewHeader(number))
    } else {
        SourceChoice::Nothing
    }
}

/// Asks the queue for work at the target node.
pub fn ask_about_target<P: HeadersSyncPipeline, Q: HeadersSync<P>, C: Clock>(
    best_block_required: bool,
    incomplete_headers_required: bool,
    stall: &Stall,
    clock: C,
    sync: Q,
) -> (result: (Q, TargetAnswers<P>, C))
    ensures
        exists|silence: Option<u128>|
            {
                &&& read_from(clock, silence, result.2)
                &&& #[trigger] target_asked::<P, Q>(
                    best_block_required,
                    incomplete_headers_required,
                    *stall,
                    silence,
                    sync,
                    result.0,
                    result.1,
                )
            },
{
    let ghost (sync_before, clock_before) = (sync, clock);
    let ghost mut silence: Option<u128> = None;
    let mut clock = clock;
    let mut answers = TargetAnswers {
        to_complete: None,
        maybe_extra: None,
        maybe_orphan: None,
        to_submit: None,
    };
    if best_block_required || incomplete_headers_required {
        let result = (sync, answers, clock);
        assert(target_asked::<P, Q>(
            best_block_required,
            incomplete_headers_required,
            *stall,
            silence,
            sync_before,
            result.0,
            result.1,
        ));
        return result;
    }
    let (sync, to_complete) = sync.header_to_complete();
    answers.to_complete = to_complete;
    if answers.to_complete.is_none() {
        answers.maybe_extra = sync.header(HeaderStatus::MaybeExtra);
        if answers.maybe_extra.is_none() {
            answers.maybe_orphan = sync.header(HeaderStatus::MaybeOrphan);
            if answers.maybe_orphan.is_none() {
                let (clock_after, now) = clock.now();
                clock = clock_after;
                proof {
                    silence = Some(now);
                }
                answers.to_submit = sync.select_headers_to_submit(stall.is_backup_due(now));
            }
        }
    }
    let result = (sync, answers, clock);
    assert(target_asked::<P, Q>(
        best_block_required,
        incomplete_headers_required,
        *stall,
        silence,
        sync_before,
        result.0,
        result.1,
    ));
    assert(read_from(clock_before, silence, result.2));
    result
}

/// Asks the queue for work at the source node.
pub fn ask_about_source<P: HeadersSyncPipeline, Q: HeadersSync<P>>(
    best_block_number_required: bool,
    sync: Q,
) -> (result: (Q, SourceAnswers<P>))
    ensures
        source_asked::<P, Q>(best_block_number_required, sync, result.0, result.1),
{
    let mut answers = SourceAnswers {
        incomplete: None,
        extra: None,
        orphan: None,
        new_header: None,
    };
    if best_block_number_required {
        return (sync, answers);
    }
    let (sync, incomplete) = sync.incomplete_header();
    answers.incomplete = incomplete;
    if answers.incomplete.is_none() {
        answers.extra = sync.header(HeaderStatus::Extra);
        if answers.extra.is_none() {
            answers.orphan = sync.header(HeaderStatus::Orphan);
            if answers.orphan.is_none() {
                answers.new_header = sync.select_new_header_to_download();
            }
        }
    }
    (sync, answers)
}

/// Picks the request that the target node gets.
pub fn choose_target_request<P: HeadersSyncPipeline>(
    best_block_required: bool,
    incomplete_headers_required: bool,
    answers: TargetAnswers<P>,
) -> (request: Option<TargetRequest<P>>)
    ensures
        request == target_choice(best_block_required, incomplete_headers_required, answers),
{
    if best_block_required {
        Some(TargetRequest::BestBlock)
    } else if incomplete_headers_required {
        Some(TargetRequest::IncompleteHeaders)
    } else if let Some((id, completion)) = answers.to_complete {
        Some(TargetRequest::CompleteHeader(id, completion))
    } else if let Some(header) = answers.maybe_extra {
        Some(TargetRequest::ExtraCheck(header))
    } else if let Some(header) = answers.maybe_orphan {
        // for MaybeOrphan we actually ask for parent' header existence
        Some(TargetRequest::ExistenceStatus(header.parent_id))
    } else if let Some(headers) = answers.to_submit {
        Some(TargetRequest::SubmitHeaders(headers))
    } else {
        None
    }
}

/// Picks the request that the source node gets.
pub fn choose_source_request<P: HeadersSyncPipeline>(
    best_block_number_required: bool,
    answers: SourceAnswers<P>,
) -> (choice: SourceChoice<P>)
    ensures
        choice == source_choice(best_block_number_required, answers),
{
    if best_block_number_required {
        SourceChoice::Request(SourceRequest::BestBlockNumber)
    } else if let Some(id) = answers.incomplete {
        SourceChoice::Request(SourceRequest::Completion(id))
    } else if let Some(header) = answers.extra {
        SourceChoice::Request(SourceRequest::Extra(header.id, header))
    } else if let Some(header) = answers.orphan {
        // for Orphan we actually ask for parent' header
        let parent_id = header.parent_id;
        // if we have end up with orphan header#0, then we are misconfigured
        if parent_id.0.is_zero() {
            SourceChoice::Misconfigured
        } else {
            SourceChoice::Request(SourceRequest::OrphanHeader(parent_id))
        }
    } else if let Some(number) = answers.new_header {
        SourceChoice::Request(SourceRequest::NewHeader(number))
    } else {
        SourceChoice::Nothing
    }
}

} // verus!
