//! Clients of the two nodes.

use vstd::prelude::*;
use std::collections::HashSet;
use std::fmt::Debug;
use std::future::Future;
use crate::types::{HeaderIdOf, HeadersSyncPipeline, MaybeConnectionError, QueuedHeader};

verus! {

/// What every future of a source client resolves into: the client, handed back,
/// and the answer.
pub type OwnedSourceFutureOutput<Client, P, T> = (Client, Result<T, <Client as SourceClient<P>>::Error>);

/// What every future of a target client resolves into: the client, handed back,
/// and the answer.
pub type OwnedTargetFutureOutput<Client, P, T> = (Client, Result<T, <Client as TargetClient<P>>::Error>);

/// Source client.
///
/// A request takes the client and gives it back along with the answer, so a
/// client never has two requests in flight.
pub trait SourceClient<P: HeadersSyncPipeline>: Sized {
    /// Type of error this client returns.
    type Error: Debug + MaybeConnectionError;
    /// Future of `best_block_number`.
    type BestBlockNumber: Future<Output = OwnedSourceFutureOutput<Self, P, P::Number>>;
    /// Future of `header_by_hash`.
    type HeaderByHash: Future<Output = OwnedSourceFutureOutput<Self, P, P::Header>>;
    /// Future of `header_by_number`.
    type HeaderByNumber: Future<Output = OwnedSourceFutureOutput<Self, P, P::Header>>;
    /// Future of `header_completion`.
    type HeaderCompletion: Future<Output = OwnedSourceFutureOutput<Self, P, (HeaderIdOf<P>, Option<P::Completion>)>>;
    /// Future of `header_extra`.
    type HeaderExtra: Future<Output = OwnedSourceFutureOutput<Self, P, (HeaderIdOf<P>, P::Extra)>>;

    /// Get best block number.
    fn best_block_number(self) -> Self::BestBlockNumber;

    /// Get header by hash.
    fn header_by_hash(self, hash: P::Hash) -> Self::HeaderByHash;

    /// Get canonical header by number.
    fn header_by_number(self, number: P::Number) -> Self::HeaderByNumber;

    /// Get completion data by header hash.
    fn header_completion(self, id: HeaderIdOf<P>) -> Self::HeaderCompletion;

    /// Get extra data by header hash.
    fn header_extra(self, id: HeaderIdOf<P>, header: QueuedHeader<P>) -> Self::HeaderExtra;
}

/// Target client.
///
/// A request takes the client and gives it back along with the answer, so a
/// client never has two requests in flight.
pub trait TargetClient<P: HeadersSyncPipeline>: Sized {
    /// Type of error this client returns.
    type Error: Debug + MaybeConnectionError;
    /// Future of `best_header_id`.
    type BestHeaderId: Future<Output = OwnedTargetFutureOutput<Self, P, HeaderIdOf<P>>>;
    /// Future of `is_known_header`.
    type IsKnownHeader: Future<Output = OwnedTargetFutureOutput<Self, P, (HeaderIdOf<P>, bool)>>;
    /// Future of `submit_headers`.
    type SubmitHeaders: Future<Output = OwnedTargetFutureOutput<Self, P, Vec<HeaderIdOf<P>>>>;
    /// Future of `incomplete_headers_ids`.
    type IncompleteHeadersIds: Future<Output = OwnedTargetFutureOutput<Self, P, HashSet<HeaderIdOf<P>>>>;
    /// Future of `complete_header`.
    type CompleteHeader: Future<Output = OwnedTargetFutureOutput<Self, P, HeaderIdOf<P>>>;
    /// Future of `requires_extra`.
    type RequiresExtra: Future<Output = OwnedTargetFutureOutput<Self, P, (HeaderIdOf<P>, bool)>>;

    /// Returns ID of best header known to the target node.
    fn best_header_id(self) -> Self::BestHeaderId;

    /// Returns true if header is known to the target node.
    fn is_known_header(self, id: HeaderIdOf<P>) -> Self::IsKnownHeader;

    /// Submit headers.
    fn submit_headers(self, headers: Vec<QueuedHeader<P>>) -> Self::SubmitHeaders;

    /// Returns ID of headers that require to be 'completed' before children can be submitted.
    fn incomplete_headers_ids(self) -> Self::IncompleteHeadersIds;

    /// Submit completion data for header.
    fn complete_header(self, id: HeaderIdOf<P>, completion: P::Completion) -> Self::CompleteHeader;

    /// Returns true if header requires extra data to be submitted.
    fn requires_extra(self, header: QueuedHeader<P>) -> Self::RequiresExtra;
}

/// Request to the source node.
pub enum SourceRequest<P: HeadersSyncPipeline> {
    /// Number of the best block.
    BestBlockNumber,
    /// Completion data of a header.
    Completion(HeaderIdOf<P>),
    /// Extra data of a header.
    Extra(HeaderIdOf<P>, QueuedHeader<P>),
    /// Header that is the missing parent of a queued one.
    OrphanHeader(HeaderIdOf<P>),
    /// Canonical header with given number.
    NewHeader(P::Number),
}

/// Request to the target node.
pub enum TargetRequest<P: HeadersSyncPipeline> {
    /// Identifier of the best header.
    BestBlock,
    /// Identifiers of the headers that are to be completed.
    IncompleteHeaders,
    /// Completion of a header.
    CompleteHeader(HeaderIdOf<P>, P::Completion),
    /// Is extra data required for a header?
    ExtraCheck(QueuedHeader<P>),
    /// Is a header known?
    ExistenceStatus(HeaderIdOf<P>),
    /// Submission of headers.
    SubmitHeaders(Vec<QueuedHeader<P>>),
}

/// The headers of one submission, as a message names them.
#[derive(Debug, PartialEq, Eq)]
pub enum SubmittedIds<Id> {
    /// The only header.
    One(Id),
    /// Both headers.
    Two(Id, Id),
    /// The first and the last one of many.
    Range(Id, Id),
}

/// How a message names the headers of a submission.
pub open spec fn names_of<P: HeadersSyncPipeline>(headers: Seq<QueuedHeader<P>>) -> SubmittedIds<
    HeaderIdOf<P>,
> {
    if headers.len() == 1 {
        SubmittedIds::One(headers[0].id)
    } else if headers.len() == 2 {
        SubmittedIds::Two(headers[0].id, headers[1].id)
    } else {
        SubmittedIds::Range(headers.first().id, headers.last().id)
    }
}

/// How a message names the headers of a submission.
pub fn submitted_ids<P: HeadersSyncPipeline>(headers: &Vec<QueuedHeader<P>>) -> (ids: SubmittedIds<
    HeaderIdOf<P>,
>)
    requires
        headers@.len() > 0,
    ensures
        ids == names_of(headers@),
{
    match headers.len() {
        1 => SubmittedIds::One(headers[0].id),
        2 => SubmittedIds::Two(headers[0].id, headers[1].id),
        len => SubmittedIds::Range(headers[0].id, headers[len - 1].id),
    }
}

/// What a message tells of a request to the source node.
#[derive(Debug, PartialEq, Eq)]
pub enum SourceNote<Id, Number> {
    /// See `SourceRequest::BestBlockNumber`.
    BestBlockNumber,
    /// See `SourceRequest::Completion`.
    Completion(Id),
    /// See `SourceRequest::Extra`.
    Extra(Id),
    /// See `SourceRequest::OrphanHeader`.
    OrphanHeader(Id),
    /// See `SourceRequest::NewHeader`.
    NewHeader(Number),
}

/// What a message tells of a request to the target node.
#[derive(Debug, PartialEq, Eq)]
pub enum TargetNote<Id> {
    /// See `TargetRequest::BestBlock`.
    BestBlock,
    /// See `TargetRequest::IncompleteHeaders`.
    IncompleteHeaders,
    /// See `TargetRequest::CompleteHeader`.
    CompleteHeader(Id),
    /// See `TargetRequest::ExtraCheck`.
    ExtraCheck(Id),
    /// See `TargetRequest::ExistenceStatus`.
    ExistenceStatus(Id),
    /// See `TargetRequest::SubmitHeaders`: how many headers, and which.
    SubmitHeaders(usize, SubmittedIds<Id>),
}

/// What a message tells of a request to the source node.
pub open spec fn source_note<P: HeadersSyncPipeline>(request: SourceRequest<P>) -> SourceNote<
    HeaderIdOf<P>,
    P::Number,
> {
    match request {
        SourceRequest::BestBlockNumber => SourceNote::BestBlockNumber,
        SourceRequest::Completion(id) => SourceNote::Completion(id),
        SourceRequest::Extra(id, _) => SourceNote::Extra(id),
        SourceRequest::OrphanHeader(id) => SourceNote::OrphanHeader(id),
        SourceRequest::NewHeader(number) => SourceNote::NewHeader(number),
    }
}

/// What a message tells of a request to the target node. A submission without
/// headers cannot be told.
pub open spec fn target_note<P: HeadersSyncPipeline>(request: TargetRequest<P>) -> Option<
    TargetNote<HeaderIdOf<P>>,
> {
    match request {
        TargetRequest::BestBlock => Some(TargetNote::BestBlock),
        TargetRequest::IncompleteHeaders => Some(TargetNote::IncompleteHeaders),
        TargetRequest::CompleteHeader(id, _) => Some(TargetNote::CompleteHeader(id)),
        TargetRequest::ExtraCheck(header) => Some(TargetNote::ExtraCheck(header.id)),
        TargetRequest::ExistenceStatus(id) => Some(TargetNote::ExistenceStatus(id)),
        TargetRequest::SubmitHeaders(headers) => if headers@.len() > 0 {
            Some(TargetNote::SubmitHeaders(headers.len(), names_of(headers@)))
        } else {
            None
        },
    }
}

/// Notes what a message tells of a request to the source node.
pub fn note_source_request<P: HeadersSyncPipeline>(request: &SourceRequest<P>) -> (note: SourceNote<
    HeaderIdOf<P>,
    P::Number,
>)
    ensures
        note == source_note(*request),
{
    match request {
        SourceRequest::BestBlockNumber => SourceNote::BestBlockNumber,
        SourceRequest::Completion(id) => SourceNote::Completion(*id),
        SourceRequest::Extra(id, _) => SourceNote::Extra(*id),
        SourceRequest::OrphanHeader(id) => SourceNote::OrphanHeader(*id),
        SourceRequest::NewHeader(number) => SourceNote::NewHeader(*number),
    }
}

/// Notes what a message tells of a request to the target node.
pub fn note_target_request<P: HeadersSyncPipeline>(request: &TargetRequest<P>) -> (note: Option<
    TargetNote<HeaderIdOf<P>>,
>)
    ensures
        note == target_note(*request),
{
    match request {
        TargetRequest::BestBlock => Some(TargetNote::BestBlock),
        TargetRequest::IncompleteHeaders => Some(TargetNote::IncompleteHeaders),
        TargetRequest::CompleteHeader(id, _) => Some(TargetNote::CompleteHeader(*id)),
        TargetRequest::ExtraCheck(header) => Some(TargetNote::ExtraCheck(header.id)),
        TargetRequest::ExistenceStatus(id) => Some(TargetNote::ExistenceStatus(*id)),
        TargetRequest::SubmitHeaders(headers) => if headers.len() > 0 {
            Some(TargetNote::SubmitHeaders(headers.len(), submitted_ids::<P>(headers)))
        } else {
            None
        },
    }
}

/// Request to the source node that is in flight.
pub enum SourceFuture<P: HeadersSyncPipeline, S: SourceClient<P>> {
    /// See `SourceRequest::BestBlockNumber`.
    BestBlockNumber(S::BestBlockNumber),
    /// See `SourceRequest::Completion`.
    Completion(S::HeaderCompletion),
    /// See `SourceRequest::Extra`.
    Extra(S::HeaderExtra),
    /// See `SourceRequest::OrphanHeader`.
    OrphanHeader(S::HeaderByHash),
    /// See `SourceRequest::NewHeader`.
    NewHeader(S::HeaderByNumber),
}

/// Request to the target node that is in flight.
pub enum TargetFuture<P: HeadersSyncPipeline, T: TargetClient<P>> {
    /// See `TargetRequest::BestBlock`.
    BestBlock(T::BestHeaderId),
    /// See `TargetRequest::IncompleteHeaders`.
    IncompleteHeaders(T::IncompleteHeadersIds),
    /// See `TargetRequest::CompleteHeader`.
    CompleteHeader(T::CompleteHeader),
    /// See `TargetRequest::ExtraCheck`.
    ExtraCheck(T::RequiresExtra),
    /// See `TargetRequest::ExistenceStatus`.
    ExistenceStatus(T::IsKnownHeader),
    /// See `TargetRequest::SubmitHeaders`.
    SubmitHeaders(T::SubmitHeaders),
}

/// `future` is what `client` has given for the request.
pub open spec fn source_request_sent<P: HeadersSyncPipeline, S: SourceClient<P>>(
    client: S,
    request: SourceRequest<P>,
    future: SourceFuture<P, S>,
) -> bool {
    match (request, future) {
        (SourceRequest::BestBlockNumber, SourceFuture::BestBlockNumber(f)) => call_ensures(
            S::best_block_number,
            (client,),
            f,
        ),
        (SourceRequest::Completion(id), SourceFuture::Completion(f)) => call_ensures(
            S::header_completion,
            (client, id),
            f,
        ),
        (SourceRequest::Extra(id, header), SourceFuture::Extra(f)) => call_ensures(
            S::header_extra,
            (client, id, header),
            f,
        ),
        (SourceRequest::OrphanHeader(id), SourceFuture::OrphanHeader(f)) => call_ensures(
            S::header_by_hash,
            (client, id.1),
            f,
        ),
        (SourceRequest::NewHeader(number), SourceFuture::NewHeader(f)) => call_ensures(
            S::header_by_number,
            (client, number),
            f,
        ),
        _ => false,
    }
}

/// `future` is what `client` has given for the request.
pub open spec fn target_request_sent<P: HeadersSyncPipeline, T: TargetClient<P>>(
    client: T,
    request: TargetRequest<P>,
    future: TargetFuture<P, T>,
) -> bool {
    match (request, future) {
        (TargetRequest::BestBlock, TargetFuture::BestBlock(f)) => call_ensures(
            T::best_header_id,
            (client,),
            f,
        ),
        (TargetRequest::IncompleteHeaders, TargetFuture::IncompleteHeaders(f)) => call_ensures(
            T::incomplete_headers_ids,
            (client,),
            f,
        ),
        (TargetRequest::CompleteHeader(id, completion), TargetFuture::CompleteHeader(f)) =>
            call_ensures(T::complete_header, (client, id, completion), f),
        (TargetRequest::ExtraCheck(header), TargetFuture::ExtraCheck(f)) => call_ensures(
            T::requires_extra,
            (client, header),
            f,
        ),
        (TargetRequest::ExistenceStatus(id), TargetFuture::ExistenceStatus(f)) => call_ensures(
            T::is_known_header,
            (client, id),
            f,
        ),
        (TargetRequest::SubmitHeaders(headers), TargetFuture::SubmitHeaders(f)) => call_ensures(
            T::submit_headers,
            (client, headers),
            f,
        ),
        _ => false,
    }
}

/// Sends a request to the source node.
pub fn send_source_request<P: HeadersSyncPipeline, S: SourceClient<P>>(
    client: S,
    request: SourceRequest<P>,
) -> (future: SourceFuture<P, S>)
    ensures
        source_request_sent(client, request, future),
{
    match request {
        SourceRequest::BestBlockNumber => SourceFuture::BestBlockNumber(client.best_block_number()),
        SourceRequest::Completion(id) => SourceFuture::Completion(client.header_completion(id)),
        SourceRequest::Extra(id, header) => SourceFuture::Extra(client.header_extra(id, header)),
        SourceRequest::OrphanHeader(id) => SourceFuture::OrphanHeader(client.header_by_hash(id.1)),
        SourceRequest::NewHeader(number) => SourceFuture::NewHeader(
            client.header_by_number(number),
        ),
    }
}

/// Sends a request to the target node.
pub fn send_target_request<P: HeadersSyncPipeline, T: TargetClient<P>>(
    client: T,
    request: TargetRequest<P>,
) -> (future: TargetFuture<P, T>)
    ensures
        target_request_sent(client, request, future),
{
    match request {
        TargetRequest::BestBlock => TargetFuture::BestBlock(client.best_header_id()),
        TargetRequest::IncompleteHeaders => TargetFuture::IncompleteHeaders(
            client.incomplete_headers_ids(),
        ),
        TargetRequest::CompleteHeader(id, completion) => TargetFuture::CompleteHeader(
            client.complete_header(id, completion),
        ),
        TargetRequest::ExtraCheck(header) => TargetFuture::ExtraCheck(
            client.requires_extra(header),
        ),
        TargetRequest::ExistenceStatus(id) => TargetFuture::ExistenceStatus(
            client.is_known_header(id),
        ),
        TargetRequest::SubmitHeaders(headers) => TargetFuture::SubmitHeaders(
            client.submit_headers(headers),
        ),
    }
}

} // verus!
