//! The queue of headers that are on their way from the source to the target.

use vstd::prelude::*;
use std::collections::HashSet;
use crate::types::{HeaderIdOf, HeaderStatus, HeadersSyncPipeline, QueuedHeader};

verus! {

/// Headers queue of one pipeline.
///
/// The loop tells the queue what the nodes have answered and asks it what to do
/// next. An operation that may change the queue takes it by value and hands it
/// back. Nothing is promised of any answer: the loop is correct whatever the
/// queue says.
pub trait HeadersSync<P: HeadersSyncPipeline>: Sized {
    /// Parameters of the queue.
    type Params;

    /// Creates a queue.
    fn new(sync_params: Self::Params) -> Self;

    /// Identifier of the best header known to the target, and number of the best
    /// header of the source.
    fn status(&self) -> (Option<HeaderIdOf<P>>, Option<P::Number>);

    /// Is the target close enough to the source to look for new source headers?
    fn is_almost_synced(&self) -> bool;

    /// Number of the queued headers in given status.
    fn headers_in_status(&self, status: HeaderStatus) -> usize;

    /// Next header in given status, if there is one.
    fn header(&self, status: HeaderStatus) -> Option<QueuedHeader<P>>;

    /// Number of the next header to download, if one is to be downloaded now.
    fn select_new_header_to_download(&self) -> Option<P::Number>;

    /// Headers to submit, if some are to be submitted now. `stalled` says that
    /// the target has not been seen to make progress for a long time.
    fn select_headers_to_submit(&self, stalled: bool) -> Option<Vec<QueuedHeader<P>>>;

    /// Next header to complete, with its completion data.
    fn header_to_complete(self) -> (Self, Option<(HeaderIdOf<P>, P::Completion)>);

    /// Next header whose completion data is missing.
    fn incomplete_header(self) -> (Self, Option<HeaderIdOf<P>>);

    /// The source has told the number of its best header.
    fn source_best_header_number_response(self, number: P::Number) -> Self;

    /// The target has told its best header. The answer is true if that is news.
    fn target_best_header_response(self, id: HeaderIdOf<P>) -> (Self, bool);

    /// Forgets everything and starts the synchronization over.
    fn restart(self) -> Self;

    /// The source has sent a header.
    fn header_response(self, header: P::Header) -> Self;

    /// The target has told whether it knows the header.
    fn maybe_orphan_response(self, id: HeaderIdOf<P>, known: bool) -> Self;

    /// The target has told whether it requires extra data for the header.
    fn maybe_extra_response(self, id: HeaderIdOf<P>, required: bool) -> Self;

    /// The source has sent extra data of the header.
    fn extra_response(self, id: HeaderIdOf<P>, extra: P::Extra) -> Self;

    /// The source has answered with completion data of the header, if it has any.
    fn completion_response(self, id: HeaderIdOf<P>, completion: Option<P::Completion>) -> Self;

    /// The target has told which headers are to be completed.
    fn incomplete_headers_response(self, ids: HashSet<HeaderIdOf<P>>) -> Self;

    /// The target has accepted the headers.
    fn headers_submitted(self, ids: Vec<HeaderIdOf<P>>) -> Self;

    /// The target has accepted completion data of the header.
    fn header_completed(self, id: HeaderIdOf<P>) -> Self;
}

} // verus!
