//! Headers and their identifiers, as the synchronization loop sees them.

use vstd::prelude::*;
use std::fmt::Debug;
use crate::number::BlockNumber;

verus! {

/// The kinds of values that flow from one source chain to one target chain.
pub trait HeadersSyncPipeline: Sized {
    /// Name of the source node.
    const SOURCE_NAME: &'static str;
    /// Name of the target node.
    const TARGET_NAME: &'static str;

    /// Hash of a header.
    type Hash: Copy + Debug;
    /// Number of a header.
    type Number: BlockNumber + Debug;
    /// Header of the source chain.
    type Header;
    /// Extra data that the target may want along with a header.
    type Extra;
    /// Data that completes a header which the target has already accepted.
    type Completion;
}

/// Identifier of a header: its number and its hash.
#[derive(Clone, Copy, Debug, PartialEq, Eq, Hash)]
pub struct HeaderId<Hash, Number>(pub Number, pub Hash);

/// Identifier of a header of the given pipeline.
pub type HeaderIdOf<P> = HeaderId<
    <P as HeadersSyncPipeline>::Hash,
    <P as HeadersSyncPipeline>::Number,
>;

/// The states of a queued header that the loop asks the queue about.
#[derive(Clone, Copy, Debug, PartialEq, Eq)]
pub enum HeaderStatus {
    /// The parent of the header may be unknown to the target.
    MaybeOrphan,
    /// The parent of the header is unknown to the target.
    Orphan,
    /// The target may require extra data for the header.
    MaybeExtra,
    /// The target requires extra data for the header.
    Extra,
    /// The header has been submitted to the target.
    Submitted,
}

/// Header that waits in the queue.
pub struct QueuedHeader<P: HeadersSyncPipeline> {
    /// Identifier of the header.
    pub id: HeaderIdOf<P>,
    /// Identifier of its parent.
    pub parent_id: HeaderIdOf<P>,
    /// The header itself.
    pub header: P::Header,
    /// Extra data, once it has been retrieved.
    pub extra: Option<P::Extra>,
}

/// Error that may come from a lost connection.
pub trait MaybeConnectionError {
    /// Was this error caused by the connection?
    fn is_connection_error(&self) -> bool;
}

} // verus!
