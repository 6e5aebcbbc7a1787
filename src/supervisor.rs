//! The supervisor's decisions: when to reconnect a session and after what
//! delay, and how long to wait before retrying a failed snapshot fetch.
use crate::backoff::{backoff_delay, BackoffPolicy};
use vstd::prelude::*;

verus! {

/// What the supervisor does after a session ends.
#[derive(Clone, Copy, Debug, PartialEq, Eq, Structural)]
pub enum SupervisorDecision {
    /// The session ended cleanly: stop.
    Stop,
    /// Reconnect after `delay_ms`.
    Reconnect { delay_ms: u64 },
}

/// The abstract supervisor.
pub struct SupervisorModel {
    pub policy: BackoffPolicy,
    pub sustained_ms: u64,
    pub session_failures: u32,
    pub snapshot_failures: u32,
}

/// One more failure, saturating.
pub open spec fn one_more(n: u32) -> u32 {
    if n < u32::MAX {
        (n + 1) as u32
    } else {
        n
    }
}

/// The consecutive session failures after a failed session that lasted
/// `duration_ms`: a session that lasted at least `sustained_ms` resets the
/// count before this failure is counted.
pub open spec fn failures_after(m: SupervisorModel, duration_ms: u64) -> u32 {
    if duration_ms >= m.sustained_ms {
        1
    } else {
        one_more(m.session_failures)
    }
}

/// Owns the reconnect policy and the counts of consecutive failures.
pub struct SyncSupervisor {
    policy: BackoffPolicy,
    sustained_ms: u64,
    session_failures: u32,
    snapshot_failures: u32,
}

impl View for SyncSupervisor {
    type V = SupervisorModel;

    closed spec fn view(&self) -> SupervisorModel {
        SupervisorModel {
            policy: self.policy,
            sustained_ms: self.sustained_ms,
            session_failures: self.session_failures,
            snapshot_failures: self.snapshot_failures,
        }
    }
}

impl SyncSupervisor {
    /// A supervisor with no failure counted; a session that lasts at least
    /// `sustained_ms` counts as a success for the backoff.
    pub fn new(policy: BackoffPolicy, sustained_ms: u64) -> (r: SyncSupervisor)
        ensures
            r@ == (SupervisorModel { policy, sustained_ms, session_failures: 0, snapshot_failures: 0 }),
    {
        SyncSupervisor { policy, sustained_ms, session_failures: 0, snapshot_failures: 0 }
    }

    /// Decides what follows a session that lasted `duration_ms`: stop after a
    /// clean end, else reconnect after the backoff delay for the consecutive
    /// failures.
    pub fn on_session_end(&mut self, failed: bool, duration_ms: u64) -> (r: SupervisorDecision)
        ensures
            !failed ==> r == SupervisorDecision::Stop && final(self)@ == (SupervisorModel {
                session_failures: 0,
                ..old(self)@
            }),
            failed ==> {
                let n = failures_after(old(self)@, duration_ms);
                &&& final(self)@ == (SupervisorModel { session_failures: n, ..old(self)@ })
                &&& r == SupervisorDecision::Reconnect {
                    delay_ms: backoff_delay(old(self)@.policy, n as nat) as u64,
                }
            },
    {
        if !failed {
            self.session_failures = 0;
            return SupervisorDecision::Stop;
        }
        let n: u32 = if duration_ms >= self.sustained_ms {
            1
        } else if self.session_failures < u32::MAX {
            self.session_failures + 1
        } else {
            self.session_failures
        };
        self.session_failures = n;
        SupervisorDecision::Reconnect { delay_ms: self.policy.delay_ms(n) }
    }

    /// The delay before retrying a snapshot fetch that failed.
    pub fn on_snapshot_failed(&mut self) -> (r: u64)
        ensures
            final(self)@ == (SupervisorModel { snapshot_failures: one_more(old(self)@.snapshot_failures), ..old(self)@ }),
            r == backoff_delay(old(self)@.policy, one_more(old(self)@.snapshot_failures) as nat),
    {
        if self.snapshot_failures < u32::MAX {
            self.snapshot_failures = self.snapshot_failures + 1;
        }
        self.policy.delay_ms(self.snapshot_failures)
    }

    /// A snapshot was installed: the next failed fetch starts from the base
    /// delay again.
    pub fn on_snapshot_installed(&mut self)
        ensures
            final(self)@ == (SupervisorModel { snapshot_failures: 0, ..old(self)@ }),
    {
        self.snapshot_failures = 0;
    }
}

} // verus!
