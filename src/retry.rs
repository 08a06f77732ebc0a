//! The retry supervisor's policy: exponential backoff between connection
//! attempts, reset by any attempt that got as far as streaming.

use vstd::prelude::*;

verus! {

/// Wait before the first retry, and after an attempt that reached streaming.
pub const INITIAL_DELAY_SECS: u64 = 1;

/// Longest wait between two attempts.
pub const MAX_DELAY_SECS: u64 = 60;

/// The delay that follows a wait of `d`: doubled, capped.
pub open spec fn spec_next_delay(d: nat) -> nat {
    if 2 * d > MAX_DELAY_SECS {
        MAX_DELAY_SECS as nat
    } else {
        2 * d
    }
}

/// The wait after an attempt, given the current delay and whether the
/// attempt reached streaming.
pub open spec fn spec_wait(delay: nat, reached_streaming: bool) -> nat {
    if reached_streaming {
        INITIAL_DELAY_SECS as nat
    } else {
        delay
    }
}

/// The waits after consecutive attempts with the given outcomes, starting
/// from `delay` (true: the attempt reached streaming).
pub open spec fn waits(delay: nat, outcomes: Seq<bool>) -> Seq<nat>
    decreases outcomes.len(),
{
    if outcomes.len() == 0 {
        Seq::empty()
    } else {
        let w = spec_wait(delay, outcomes[0]);
        seq![w] + waits(spec_next_delay(w), outcomes.drop_first())
    }
}

/// What the background task does once an attempt has ended.
#[derive(Debug, Clone, Copy, PartialEq, Eq, Structural)]
pub enum SupervisorAction {
    /// Wait this many seconds, then connect again.
    Retry { after_secs: u64 },
    /// Cancellation was requested: stop.
    Stop,
}

/// Backoff state of the reconnect loop.
#[derive(Debug, Clone, Copy, PartialEq, Eq, Structural)]
pub struct Supervisor {
    delay_secs: u64,
}

impl Supervisor {
    /// The wait the next failed attempt would be followed by.
    pub closed spec fn delay(&self) -> nat {
        self.delay_secs as nat
    }

    pub closed spec fn wf(&self) -> bool {
        INITIAL_DELAY_SECS <= self.delay_secs <= MAX_DELAY_SECS
    }

    pub fn new() -> (r: Supervisor)
        ensures
            r.wf(),
            r.delay() == INITIAL_DELAY_SECS,
    {
        Supervisor { delay_secs: INITIAL_DELAY_SECS }
    }

    pub fn current_delay(&self) -> (r: u64)
        ensures
            r == self.delay(),
    {
        self.delay_secs
    }

    /// Records the end of an attempt and returns the wait before the next
    /// one: the initial delay after an attempt that reached streaming, the
    /// current delay otherwise; the delay after that is doubled, capped.
    pub fn after_attempt(&mut self, reached_streaming: bool) -> (wait: u64)
        requires
            old(self).wf(),
        ensures
            final(self).wf(),
            wait == spec_wait(old(self).delay(), reached_streaming),
            final(self).delay() == spec_next_delay(wait as nat),
    {
        let wait = if reached_streaming {
            INITIAL_DELAY_SECS
        } else {
            self.delay_secs
        };
        self.delay_secs = if wait > MAX_DELAY_SECS / 2 {
            MAX_DELAY_SECS
        } else {
            2 * wait
        };
        wait
    }

    /// Decides what follows an attempt: stop when cancellation was requested
    /// (the delay is then left as it was), else retry after the backoff wait.
    pub fn on_attempt_end(&mut self, reached_streaming: bool, cancelled: bool) -> (r: SupervisorAction)
        requires
            old(self).wf(),
        ensures
            final(self).wf(),
            cancelled ==> r == SupervisorAction::Stop && *final(self) == *old(self),
            !cancelled ==> r == (SupervisorAction::Retry {
                after_secs: spec_wait(old(self).delay(), reached_streaming) as u64,
            }) && final(self).delay() == spec_next_delay(spec_wait(old(self).delay(), reached_streaming)),
    {
        if cancelled {
            SupervisorAction::Stop
        } else {
            let after_secs = self.after_attempt(reached_streaming);
            SupervisorAction::Retry { after_secs }
        }
    }
}

/// Over consecutive failed attempts the first wait is the starting delay and
/// each wait is double the one before, capped at the maximum.
pub proof fn lemma_failures_double_the_wait(delay: nat, outcomes: Seq<bool>, k: int)
    requires
        forall|i: int| 0 <= i < outcomes.len() ==> !#[trigger] outcomes[i],
        0 <= k,
        k + 1 < outcomes.len(),
    ensures
        waits(delay, outcomes).len() == outcomes.len(),
        waits(delay, outcomes)[0] == delay,
        waits(delay, outcomes)[k + 1] == spec_next_delay(waits(delay, outcomes)[k]),
    decreases k,
{
    lemma_waits_len(delay, outcomes);
    let rest = outcomes.drop_first();
    lemma_waits_len(spec_next_delay(delay), rest);
    if k > 0 {
        lemma_failures_double_the_wait(spec_next_delay(delay), rest, k - 1);
    } else {
        assert(!outcomes[1]);
        lemma_waits_len(spec_next_delay(spec_next_delay(delay)), rest.drop_first());
    }
}

/// Starting from a fresh supervisor, `n` consecutive failures are followed by
/// waits of 1, 2, 4, ... seconds, capped at the maximum.
pub proof fn lemma_backoff_from_fresh(n: nat, k: int)
    requires
        0 <= k,
        k + 1 < n,
    ensures
        waits(INITIAL_DELAY_SECS as nat, Seq::new(n, |i: int| false))[0] == INITIAL_DELAY_SECS,
        waits(INITIAL_DELAY_SECS as nat, Seq::new(n, |i: int| false))[k + 1] == spec_next_delay(
            waits(INITIAL_DELAY_SECS as nat, Seq::new(n, |i: int| false))[k],
        ),
{
    lemma_failures_double_the_wait(INITIAL_DELAY_SECS as nat, Seq::new(n, |i: int| false), k);
}

/// An attempt that reached streaming restarts the schedule: whatever the
/// delay was, the waits that follow are those of a fresh supervisor.
pub proof fn lemma_streaming_resets_backoff(delay: nat, rest: Seq<bool>)
    ensures
        waits(delay, seq![true] + rest) == waits(INITIAL_DELAY_SECS as nat, seq![false] + rest),
{
    assert((seq![true] + rest).drop_first() =~= rest);
    assert((seq![false] + rest).drop_first() =~= rest);
}

proof fn lemma_waits_len(delay: nat, outcomes: Seq<bool>)
    ensures
        waits(delay, outcomes).len() == outcomes.len(),
    decreases outcomes.len(),
{
    if outcomes.len() > 0 {
        lemma_waits_len(spec_next_delay(spec_wait(delay, outcomes[0])), outcomes.drop_first());
    }
}

} // verus!
