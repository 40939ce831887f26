//! Detection of a synchronization that does not move any more.

use vstd::prelude::*;
use crate::timing::{elapsed, time_between, BACKUP_STALL_SYNC_TIMEOUT, STALL_SYNC_TIMEOUT};

verus! {

/// What is known about the progress of the target node.
#[derive(Clone, Copy, Debug, PartialEq, Eq)]
pub struct Stall {
    /// When the countdown to a restart of the synchronization was started, if it
    /// is running.
    pub countdown: Option<u128>,
    /// When the best header of the target node was last seen to change.
    pub last_update_time: u128,
}

impl Stall {
    /// Has the countdown run out?
    pub open spec fn expired(self, now: u128) -> bool {
        self.countdown matches Some(since) && time_between(since, now) >= STALL_SYNC_TIMEOUT
    }

    /// Has the target node not been seen to change for so long that a backup
    /// relay steps in?
    pub open spec fn backup_due(self, now: u128) -> bool {
        time_between(self.last_update_time, now) > BACKUP_STALL_SYNC_TIMEOUT
    }

    /// The countdown starts over at given moment, or stops if there is none.
    pub open spec fn after_head_update(self, update: u128, countdown: Option<u128>) -> Stall {
        Stall { countdown, last_update_time: update }
    }

    /// A countdown that has run out stops; any other goes on.
    pub open spec fn after_same_head(self, now: u128) -> Stall {
        if self.expired(now) {
            Stall { countdown: None, ..self }
        } else {
            self
        }
    }

    /// The countdown runs, since now or since it was started.
    pub open spec fn after_submission(self, now: u128) -> Stall {
        if self.countdown is None {
            Stall { countdown: Some(now), ..self }
        } else {
            self
        }
    }

    /// Nothing has been submitted yet.
    pub fn new(now: u128) -> (stall: Stall)
        ensures
            stall == (Stall { countdown: None, last_update_time: now }),
    {
        Stall { countdown: None, last_update_time: now }
    }

    /// The best header of the target node was seen to change at the moment `update`.
    /// The countdown starts over at the moment `countdown`, or stops if there is
    /// none.
    pub fn head_updated(&mut self, update: u128, countdown: Option<u128>)
        ensures
            *final(self) == old(self).after_head_update(update, countdown),
    {
        self.last_update_time = update;
        self.countdown = countdown;
    }

    /// The best header of the target node is the one that we know already. Is the
    /// synchronization to be restarted?
    pub fn head_unchanged(&mut self, now: u128) -> (restart: bool)
        ensures
            restart == old(self).expired(now),
            *final(self) == old(self).after_same_head(now),
    {
        let restart = match self.countdown {
            Some(since) => elapsed(since, now) >= STALL_SYNC_TIMEOUT,
            None => false,
        };
        if restart {
            self.countdown = None;
        }
        restart
    }

    /// We are submitting some headers.
    pub fn headers_submitted(&mut self, now: u128)
        ensures
            *final(self) == old(self).after_submission(now),
    {
        if self.countdown.is_none() {
            self.countdown = Some(now);
        }
    }

    /// Has the target node been silent for so long that a backup relay steps in?
    pub fn is_backup_due(&self, now: u128) -> (due: bool)
        ensures
            due == self.backup_due(now),
    {
        elapsed(self.last_update_time, now) > BACKUP_STALL_SYNC_TIMEOUT
    }
}

} // verus!
