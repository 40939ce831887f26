//! Delays of the loop, and its countdowns.
//!
//! A moment is a number of nanoseconds since some fixed moment in the past, and a
//! delay is a number of nanoseconds.

use vstd::prelude::*;

verus! {

/// Nanoseconds in a second.
pub const NANOS_PER_SEC: u128 = 1_000_000_000;

/// When we submit headers to target node, but see no updates of best
/// source block known to target node during this time, we consider that our
/// headers are rejected because there has been reorg in target chain.
/// This reorg could invalidate our knowledge about sync process (i.e. we have asked if
/// HeaderA is known to target, but then reorg happened and the answer is different
/// now) => we need to reset sync.
/// The other option is to receive **EVERY** best target header and check if it is
/// direct child of previous best header. But: (1) subscription doesn't guarantee that
/// the subscriber will receive every best header (2) reorg won't always lead to sync
/// stall and restart is a heavy operation (we forget all in-memory headers).
pub const STALL_SYNC_TIMEOUT: u128 = 5 * 60 * NANOS_PER_SEC;

/// Delay after we have seen update of best source header at target node,
/// for us to treat sync stalled. ONLY when relay operates in backup mode.
pub const BACKUP_STALL_SYNC_TIMEOUT: u128 = 10 * 60 * NANOS_PER_SEC;

/// Delay after connection-related error happened before we'll try
/// reconnection again.
pub const CONNECTION_ERROR_DELAY: u128 = 10 * NANOS_PER_SEC;

/// A progress message is due once the last one is older than this.
pub const PROGRESS_DELAY: u128 = 10 * NANOS_PER_SEC;

/// The clock of the relay. It is read afresh whenever the loop needs the present
/// moment; nothing is promised of what it shows. Each reading takes the clock and
/// hands it back, so one reading can be told from the next.
pub trait Clock: Sized {
    /// The present moment.
    fn now(self) -> (Self, u128);
}

/// `moment` was read from the clock if there is one; otherwise the clock was not
/// read.
pub open spec fn read_from<C: Clock>(clock: C, moment: Option<u128>, after: C) -> bool {
    match moment {
        Some(now) => call_ensures(C::now, (clock,), (after, now)),
        None => after == clock,
    }
}

/// The moments that are read when the target node tells its best header. One that
/// is not needed is not read.
pub struct HeadMoments {
    /// When that header was seen to be news.
    pub update: Option<u128>,
    /// When the countdown was started over.
    pub countdown: Option<u128>,
    /// When the countdown was looked at.
    pub expiry: Option<u128>,
}

impl HeadMoments {
    /// Nothing was read.
    pub open spec fn none() -> HeadMoments {
        HeadMoments { update: None, countdown: None, expiry: None }
    }

    /// All of them were read from the clock, in this order, and nothing else was.
    pub open spec fn read_from<C: Clock>(self, clock: C, after: C) -> bool {
        exists|updated: C, counted: C|
            {
                &&& #[trigger] read_from(clock, self.update, updated)
                &&& #[trigger] read_from(updated, self.countdown, counted)
                &&& read_from(counted, self.expiry, after)
            }
    }
}

/// Reading nothing leaves the clock as it is.
pub proof fn lemma_nothing_read<C: Clock>(clock: C)
    ensures
        HeadMoments::none().read_from(clock, clock),
{
    assert(read_from(clock, HeadMoments::none().update, clock));
    assert(read_from(clock, HeadMoments::none().countdown, clock));
}

/// The moments that are read in the turn of the target client. One that is not
/// needed is not read.
pub struct TurnMoments {
    /// When it was looked at how long the target node has been silent.
    pub silence: Option<u128>,
    /// When a submission started the countdown.
    pub submission: Option<u128>,
}

impl TurnMoments {
    /// Nothing was read.
    pub open spec fn none() -> TurnMoments {
        TurnMoments { silence: None, submission: None }
    }

    /// All of them were read from the clock, in this order, and nothing else was.
    pub open spec fn read_from<C: Clock>(self, clock: C, after: C) -> bool {
        exists|asked: C|
            {
                &&& #[trigger] read_from(clock, self.silence, asked)
                &&& read_from(asked, self.submission, after)
            }
    }
}

/// The moments that are read in one iteration of the loop.
pub struct Moments {
    /// Moments of the event.
    pub head: HeadMoments,
    /// When it was looked at whether a progress message is due.
    pub progress: u128,
    /// Moments of the turn of the target client.
    pub turn: TurnMoments,
}

impl Moments {
    /// All of them were read from the clock, in this order, and nothing else was.
    pub open spec fn read_from<C: Clock>(self, clock: C, after: C) -> bool {
        exists|informed: C, printed: C|
            {
                &&& #[trigger] self.head.read_from(clock, informed)
                &&& read_from(informed, Some(self.progress), printed)
                &&& #[trigger] self.turn.read_from(printed, after)
            }
    }
}

/// Time from `since` to `now`, or zero if `since` is the later moment.
pub open spec fn time_between(since: u128, now: u128) -> int {
    if since <= now {
        now - since
    } else {
        0
    }
}

/// Time that has passed since given moment.
pub fn elapsed(since: u128, now: u128) -> (time: u128)
    ensures
        time == time_between(since, now),
{
    if since <= now {
        now - since
    } else {
        0
    }
}

} // verus!
