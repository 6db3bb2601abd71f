//! The bounded confirmation runner.  After a toggle of the socket-exposing
//! protocol, a background routine polls the control socket once per second
//! and compares reachability against the expectation.  Consecutive expected
//! outcomes up to a per-direction threshold confirm the toggle; five
//! unexpected outcomes abandon it, publish the opposite status and reverse
//! the service action.
use crate::types::Status;
use vstd::prelude::*;

verus! {

/// Unexpected polls tolerated before the confirmation is abandoned.
pub const MAX_FAILED_TRIES: u8 = 5;

/// What one poll decided.
#[derive(Debug, Clone, Copy, PartialEq, Eq, Structural)]
pub enum ConfirmOutcome {
    /// Poll again after the fixed delay.
    Continue,
    /// The expected state held long enough: publish the confirmed status.
    Confirmed,
    /// The retry budget is spent: publish the opposite status and reverse
    /// the service action.
    Abandoned,
}

/// The service action that reconciles the supervised service with the
/// status published after an abandoned confirmation.
#[derive(Debug, Clone, Copy, PartialEq, Eq, Structural)]
pub enum ReverseAction {
    StopService,
    StartService,
}

/// The counters of one confirmation run.
#[derive(Debug, Clone, Copy, PartialEq, Eq, Structural)]
pub struct ConfirmRunner {
    /// Whether the toggle being confirmed was a connect (socket expected
    /// reachable) or a disconnect (socket expected unreachable).
    pub expected_success: bool,
    /// Unexpected polls so far; never reset.
    pub failed_tries: u8,
    /// Consecutive expected polls; reset by any unexpected poll.
    pub successful_tries: u8,
}

/// Consecutive expected polls required to confirm: daemon readiness after a
/// start is slow and noisy, socket disappearance after a stop is immediate.
pub open spec fn spec_threshold(expected_success: bool) -> u8 {
    if expected_success {
        4
    } else {
        1
    }
}

/// A runner that has neither confirmed nor abandoned yet.
pub open spec fn spec_live(s: ConfirmRunner) -> bool {
    s.failed_tries < MAX_FAILED_TRIES && s.successful_tries < spec_threshold(s.expected_success)
}

/// A fresh runner for one toggle.
pub open spec fn spec_new_runner(expected_success: bool) -> ConfirmRunner {
    ConfirmRunner { expected_success, failed_tries: 0, successful_tries: 0 }
}

/// The status published when the toggle is confirmed.
pub open spec fn spec_confirmed_status(expected_success: bool) -> Status {
    if expected_success {
        Status::Connected
    } else {
        Status::Disconnected
    }
}

/// The status published when the confirmation is abandoned: the opposite of
/// what the toggle asked for.
pub open spec fn spec_abandoned_status(expected_success: bool) -> Status {
    if expected_success {
        Status::Disconnected
    } else {
        Status::Connected
    }
}

/// The service action taken on abandonment, reversing the toggle.
pub open spec fn spec_reverse_action(expected_success: bool) -> ReverseAction {
    if expected_success {
        ReverseAction::StopService
    } else {
        ReverseAction::StartService
    }
}

/// One poll: the next counters and the decision.
pub open spec fn spec_observe(s: ConfirmRunner, reachable: bool) -> (ConfirmRunner, ConfirmOutcome) {
    if reachable == s.expected_success {
        let n = ConfirmRunner {
            expected_success: s.expected_success,
            failed_tries: s.failed_tries,
            successful_tries: (s.successful_tries + 1) as u8,
        };
        if n.successful_tries >= spec_threshold(s.expected_success) {
            (n, ConfirmOutcome::Confirmed)
        } else {
            (n, ConfirmOutcome::Continue)
        }
    } else {
        let n = ConfirmRunner {
            expected_success: s.expected_success,
            failed_tries: (s.failed_tries + 1) as u8,
            successful_tries: 0,
        };
        if n.failed_tries >= MAX_FAILED_TRIES {
            (n, ConfirmOutcome::Abandoned)
        } else {
            (n, ConfirmOutcome::Continue)
        }
    }
}

impl ConfirmRunner {
    /// Start confirming one toggle.
    pub fn new(expected_success: bool) -> (r: Self)
        ensures
            r == spec_new_runner(expected_success),
            spec_live(r),
    {
        ConfirmRunner { expected_success, failed_tries: 0, successful_tries: 0 }
    }

    /// Record one poll of the control socket.
    pub fn observe(&mut self, reachable: bool) -> (r: ConfirmOutcome)
        requires
            spec_live(*old(self)),
        ensures
            (*final(self), r) == spec_observe(*old(self), reachable),
            r is Continue ==> spec_live(*final(self)),
    {
        if reachable == self.expected_success {
            self.successful_tries = self.successful_tries + 1;
            let threshold: u8 = if self.expected_success {
                4
            } else {
                1
            };
            if self.successful_tries >= threshold {
                ConfirmOutcome::Confirmed
            } else {
                ConfirmOutcome::Continue
            }
        } else {
            self.failed_tries = self.failed_tries + 1;
            self.successful_tries = 0;
            if self.failed_tries >= MAX_FAILED_TRIES {
                ConfirmOutcome::Abandoned
            } else {
                ConfirmOutcome::Continue
            }
        }
    }

    /// The status published when the toggle is confirmed.
    pub fn confirmed_status(&self) -> (r: Status)
        ensures
            r == spec_confirmed_status(self.expected_success),
    {
        if self.expected_success {
            Status::Connected
        } else {
            Status::Disconnected
        }
    }

    /// The status published when the confirmation is abandoned.
    pub fn abandoned_status(&self) -> (r: Status)
        ensures
            r == spec_abandoned_status(self.expected_success),
    {
        if self.expected_success {
            Status::Disconnected
        } else {
            Status::Connected
        }
    }

    /// The service action taken on abandonment, reversing the toggle being
    /// confirmed.
    pub fn reverse_action(&self) -> (r: ReverseAction)
        ensures
            r == spec_reverse_action(self.expected_success),
    {
        if self.expected_success {
            ReverseAction::StopService
        } else {
            ReverseAction::StartService
        }
    }

    /// Whether a confirmed toggle also clears the structured management
    /// sample at once (a confirmed disconnect does).
    pub fn clears_sample_on_confirm(&self) -> (r: bool)
        ensures
            r == !self.expected_success,
    {
        !self.expected_success
    }
}

/// The counters and decision after polling through `polls` in order,
/// stopping at the first poll that confirms or abandons.
pub open spec fn spec_run(s: ConfirmRunner, polls: Seq<bool>) -> (ConfirmRunner, ConfirmOutcome)
    decreases polls.len(),
{
    if polls.len() == 0 {
        (s, ConfirmOutcome::Continue)
    } else {
        let (n, o) = spec_observe(s, polls[0]);
        if o is Continue {
            spec_run(n, polls.skip(1))
        } else {
            (n, o)
        }
    }
}

proof fn lemma_connect_unreachable_run(s: ConfirmRunner, polls: Seq<bool>)
    requires
        s.expected_success,
        s.successful_tries == 0,
        s.failed_tries < 5,
        forall|i: int| 0 <= i < polls.len() ==> !polls[i],
    ensures
        s.failed_tries + polls.len() < 5 ==> spec_run(s, polls).1 is Continue,
        s.failed_tries + polls.len() >= 5 ==> spec_run(s, polls).1 is Abandoned && spec_run(
            s,
            polls,
        ).0.failed_tries == 5,
    decreases polls.len(),
{
    if polls.len() > 0 {
        let (n, o) = spec_observe(s, polls[0]);
        if o is Continue {
            lemma_connect_unreachable_run(n, polls.skip(1));
        }
    }
}

/// A connect confirmation that never finds the socket reachable polls
/// exactly five times and then abandons: the counters reach the ceiling of
/// five failed tries, the published status is Disconnected and the service
/// is stopped.
pub proof fn lemma_connect_confirmation_abandons_after_five(polls: Seq<bool>)
    requires
        forall|i: int| 0 <= i < polls.len() ==> !polls[i],
    ensures
        polls.len() < 5 ==> spec_run(spec_new_runner(true), polls).1 is Continue,
        polls.len() >= 5 ==> spec_run(spec_new_runner(true), polls).1 is Abandoned && spec_run(
            spec_new_runner(true),
            polls,
        ).0.failed_tries == 5,
        spec_abandoned_status(true) is Disconnected,
        spec_reverse_action(true) is StopService,
{
    lemma_connect_unreachable_run(spec_new_runner(true), polls);
}

/// Polls a live runner can still consume before it must confirm or abandon.
pub open spec fn spec_polls_left(s: ConfirmRunner) -> int {
    (MAX_FAILED_TRIES - s.failed_tries) * spec_threshold(s.expected_success)
        - s.successful_tries
}

proof fn lemma_confirm_terminates_aux(s: ConfirmRunner, polls: Seq<bool>)
    requires
        spec_live(s),
        polls.len() >= spec_polls_left(s),
    ensures
        !(spec_run(s, polls).1 is Continue),
    decreases polls.len(),
{
    let th = spec_threshold(s.expected_success) as int;
    let f = s.failed_tries as int;
    assert(spec_polls_left(s) >= 1) by (nonlinear_arith)
        requires
            th >= 1,
            f <= 4,
            s.successful_tries < th,
            spec_polls_left(s) == (5 - f) * th - s.successful_tries,
    ;
    let (n, o) = spec_observe(s, polls[0]);
    if o is Continue {
        assert(spec_polls_left(n) <= spec_polls_left(s) - 1) by (nonlinear_arith)
            requires
                th >= 1,
                n.expected_success == s.expected_success,
                spec_polls_left(s) == (5 - f) * th - s.successful_tries,
                spec_polls_left(n) == (5 - n.failed_tries as int) * th
                    - n.successful_tries as int,
                s.successful_tries < th,
                (n.failed_tries == s.failed_tries && n.successful_tries == s.successful_tries
                    + 1) || (n.failed_tries == s.failed_tries + 1 && n.successful_tries == 0),
        ;
        lemma_confirm_terminates_aux(n, polls.skip(1));
    }
}

/// The confirmation runner never leaves the optimistic status in flight
/// indefinitely: within five times the confirmation threshold many polls it
/// either confirms or abandons, whatever the socket does.
pub proof fn lemma_confirmation_bounded(expected_success: bool, polls: Seq<bool>)
    requires
        polls.len() >= 5 * spec_threshold(expected_success),
    ensures
        !(spec_run(spec_new_runner(expected_success), polls).1 is Continue),
{
    lemma_confirm_terminates_aux(spec_new_runner(expected_success), polls);
}

/// A disconnect confirmation that finds the socket unreachable on its very
/// first poll is confirmed at once, after one successful try.
pub proof fn lemma_disconnect_confirms_immediately()
    ensures
        spec_observe(spec_new_runner(false), false).1 is Confirmed,
        spec_observe(spec_new_runner(false), false).0.successful_tries == 1,
        spec_confirmed_status(false) is Disconnected,
{
}

} // verus!
