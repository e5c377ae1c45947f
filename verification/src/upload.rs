//! The asset upload pipeline's decision logic: an upload submission either
//! completes immediately or hands back an operation, which is polled at a
//! fixed interval up to a bounded number of attempts. The caller performs
//! the poll calls and the sleeps; what each response means is decided here.

use vstd::prelude::*;
use crate::errors::SyncError;
use crate::json::PollRaw;

verus! {

/// How many poll attempts an upload is given before it times out.
pub const MAX_POLL_ATTEMPTS: u64 = 30;

/// How many seconds the caller sleeps between poll attempts: the loop
/// waits, it does not busy-poll.
pub const POLL_INTERVAL_SECS: u64 = 2;

/// What one poll response means for the loop.
pub enum PollStep {
    /// The operation completed; the asset identifier it produced.
    Done(u64),
    /// The operation failed terminally, or the attempts are exhausted.
    Fail(SyncError),
    /// Not finished: poll once more after the fixed interval.
    Again,
}

/// The poll loop's state: the attempts that remain.
pub struct UploadPoller {
    pub attempts_left: u64,
}

impl UploadPoller {
    /// A fresh poll loop with the full attempt budget.
    pub fn new() -> (r: Self)
        ensures
            r.attempts_left == MAX_POLL_ATTEMPTS,
    {
        UploadPoller { attempts_left: MAX_POLL_ATTEMPTS }
    }

    /// Decides what one poll response means. An embedded error fails the
    /// upload with its message; a finished operation yields its asset
    /// identifier, or fails if it reported none; an unfinished operation
    /// is polled again until the attempts run out, then times out.
    pub fn step(&mut self, raw: PollRaw) -> (r: PollStep)
        requires
            old(self).attempts_left > 0,
        ensures
            final(self).attempts_left == old(self).attempts_left - 1,
            match raw.error_message {
                Some(m) => r == PollStep::Fail(SyncError::UploadFailed(m)),
                None => if raw.done {
                    match raw.asset_id {
                        Some(a) => r == PollStep::Done(a),
                        None => r matches PollStep::Fail(e) && e matches SyncError::UploadFailed(m)
                            && m@ == "operation completed but returned no asset identifier"@,
                    }
                } else if old(self).attempts_left == 1 {
                    r == PollStep::Fail(SyncError::UploadTimeout)
                } else {
                    r == PollStep::Again
                },
            },
    {
        self.attempts_left = self.attempts_left - 1;
        match raw.error_message {
            Some(m) => PollStep::Fail(SyncError::UploadFailed(m)),
            None => {
                if raw.done {
                    match raw.asset_id {
                        Some(a) => PollStep::Done(a),
                        None => PollStep::Fail(
                            SyncError::UploadFailed(
                                String::from_str(
                                    "operation completed but returned no asset identifier",
                                ),
                            ),
                        ),
                    }
                } else if self.attempts_left == 0 {
                    PollStep::Fail(SyncError::UploadTimeout)
                } else {
                    PollStep::Again
                }
            },
        }
    }
}

} // verus!
