//! Decisions of the accept loop and of the dispatcher that isolates sessions.
//!
//! A failed accept is recorded and the loop goes on at once; a successful one
//! is handed to the dispatcher, which either detaches the session or tracks it
//! so that a shutdown can wait for every session in flight.
use vstd::prelude::*;

verus! {

/// How spawned sessions are kept.
#[derive(Clone, Copy, Debug, PartialEq, Eq, Structural)]
pub enum DrainPolicy {
    /// Fire and forget: nothing waits for a session.
    Detached,
    /// Every session is tracked until it ends, so a shutdown can drain them.
    Drain,
}

/// What the accept loop does after one accept.
#[derive(Clone, Copy, Debug, PartialEq, Eq, Structural)]
pub enum AcceptAction {
    /// Spawn a session for the new connection and accept again.
    Dispatch,
    /// Record the failure and accept again, with no backoff.
    Resume,
}

/// The state of one rule's accept loop and dispatcher.
#[derive(Clone, Copy, Debug, PartialEq, Eq, Structural)]
pub struct Listener {
    pub policy: DrainPolicy,
    /// Sessions spawned and not yet ended; kept under [`DrainPolicy::Drain`] only.
    pub in_flight: u64,
    /// Accept failures since the last success.
    pub failures: u64,
}

/// The state after one accept (`ok` when it yielded a connection).
pub open spec fn after_accept(s: Listener, ok: bool) -> Listener {
    if ok {
        Listener {
            in_flight: if s.policy == DrainPolicy::Drain {
                (s.in_flight + 1) as u64
            } else {
                s.in_flight
            },
            failures: 0,
            ..s
        }
    } else {
        Listener { failures: if s.failures < u64::MAX { (s.failures + 1) as u64 } else { s.failures }, ..s }
    }
}

/// The state after `n` accepts in a row have failed.
pub open spec fn after_failures(s: Listener, n: nat) -> Listener
    decreases n,
{
    if n == 0 {
        s
    } else {
        after_accept(after_failures(s, (n - 1) as nat), false)
    }
}

impl Listener {
    /// A fresh loop under `policy`, with nothing in flight.
    pub fn new(policy: DrainPolicy) -> (r: Listener)
        ensures
            r.policy == policy,
            r.in_flight == 0,
            r.failures == 0,
    {
        Listener { policy, in_flight: 0, failures: 0 }
    }

    /// Decides on one accept: a connection is dispatched, a failure is recorded
    /// and the loop resumes. Either way the loop keeps accepting.
    pub fn on_accept(&mut self, ok: bool) -> (r: AcceptAction)
        requires
            old(self).in_flight < u64::MAX,
        ensures
            r == (if ok {
                AcceptAction::Dispatch
            } else {
                AcceptAction::Resume
            }),
            *final(self) == after_accept(*old(self), ok),
    {
        if ok {
            if self.policy == DrainPolicy::Drain {
                self.in_flight = self.in_flight + 1;
            }
            self.failures = 0;
            AcceptAction::Dispatch
        } else {
            if self.failures < u64::MAX {
                self.failures = self.failures + 1;
            }
            AcceptAction::Resume
        }
    }

    /// Records that a session ended, whatever its outcome.
    pub fn on_session_end(&mut self)
        ensures
            final(self).policy == old(self).policy,
            final(self).failures == old(self).failures,
            final(self).in_flight == if old(self).policy == DrainPolicy::Drain
                && old(self).in_flight > 0 {
                (old(self).in_flight - 1) as u64
            } else {
                old(self).in_flight
            },
    {
        if self.policy == DrainPolicy::Drain && self.in_flight > 0 {
            self.in_flight = self.in_flight - 1;
        }
    }

    /// Whether a shutdown may exit now: always when detached; once every
    /// tracked session has ended otherwise.
    pub fn drained(&self) -> (r: bool)
        ensures
            r == (self.policy == DrainPolicy::Detached || self.in_flight == 0),
    {
        match self.policy {
            DrainPolicy::Detached => true,
            DrainPolicy::Drain => self.in_flight == 0,
        }
    }
}

/// Failed accepts never wedge the loop: after any number of failures in a row
/// the policy and the sessions in flight are untouched, and the next accept
/// that yields a connection is dispatched.
pub proof fn lemma_failures_do_not_wedge(s: Listener, n: nat)
    ensures
        after_failures(s, n).policy == s.policy,
        after_failures(s, n).in_flight == s.in_flight,
        after_accept(after_failures(s, n), true).failures == 0,
        after_accept(after_failures(s, n), true).in_flight == if s.policy == DrainPolicy::Drain {
            (s.in_flight + 1) as u64
        } else {
            s.in_flight
        },
    decreases n,
{
    if n > 0 {
        lemma_failures_do_not_wedge(s, (n - 1) as nat);
    }
}

} // verus!
