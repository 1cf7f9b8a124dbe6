//! The heartbeat loop's failure counter: consecutive failures are counted, any
//! success clears the count, and reaching the threshold ends the loop.

use vstd::prelude::*;

verus! {

/// What one heartbeat outcome does to the count of consecutive failures:
/// the new count, and whether the loop gives up. A loop that gives up starts
/// its next life with a fresh count.
pub open spec fn observe(failures: nat, threshold: nat, success: bool) -> (nat, bool) {
    if success {
        (0, false)
    } else if failures + 1 >= threshold {
        (0, true)
    } else {
        (failures + 1, false)
    }
}

/// The count of consecutive failures after `outcomes` were met in order,
/// starting from `failures`.
pub open spec fn failures_after(failures: nat, threshold: nat, outcomes: Seq<bool>) -> nat
    decreases outcomes.len(),
{
    if outcomes.len() == 0 {
        failures
    } else {
        failures_after(observe(failures, threshold, outcomes[0]).0, threshold, outcomes.drop_first())
    }
}

/// The number of heartbeats after which the loop gives up for the first time
/// while it meets `outcomes` in order, starting from `failures`; `None` if it
/// is still running after the last of them.
pub open spec fn gives_up_after(failures: nat, threshold: nat, outcomes: Seq<bool>) -> Option<nat>
    decreases outcomes.len(),
{
    if outcomes.len() == 0 {
        None
    } else if observe(failures, threshold, outcomes[0]).1 {
        Some(1)
    } else {
        match gives_up_after(
            observe(failures, threshold, outcomes[0]).0,
            threshold,
            outcomes.drop_first(),
        ) {
            Some(sent) => Some(sent + 1),
            None => None,
        }
    }
}

/// The number of failures at the end of `outcomes` since the last success.
pub open spec fn trailing_failures(outcomes: Seq<bool>) -> nat
    decreases outcomes.len(),
{
    if outcomes.len() == 0 || outcomes.last() {
        0
    } else {
        1 + trailing_failures(outcomes.drop_last())
    }
}

/// `count` failed heartbeats in a row.
pub open spec fn failing(count: nat) -> Seq<bool> {
    Seq::new(count, |i: int| false)
}

/// The failure counter of one node's heartbeat loop.
#[derive(Clone, Copy, Debug)]
pub struct HeartbeatMonitor {
    failures: u32,
    threshold: u32,
}

impl HeartbeatMonitor {
    /// The current count of consecutive failures.
    pub closed spec fn count(&self) -> nat {
        self.failures as nat
    }

    /// The number of consecutive failures at which the loop gives up.
    pub closed spec fn limit(&self) -> nat {
        self.threshold as nat
    }

    /// A running loop has not reached its threshold.
    pub open spec fn wf(&self) -> bool {
        self.count() == 0 || self.count() < self.limit()
    }

    /// A fresh counter for a loop that gives up at `threshold` consecutive
    /// failures.
    pub fn new(threshold: u32) -> (monitor: HeartbeatMonitor)
        ensures
            monitor.wf(),
            monitor.count() == 0,
            monitor.limit() == threshold,
    {
        HeartbeatMonitor { failures: 0, threshold }
    }

    /// The current count of consecutive failures.
    pub fn failures(&self) -> (failures: u32)
        ensures
            failures == self.count(),
    {
        self.failures
    }

    /// The number of consecutive failures at which the loop gives up.
    pub fn threshold(&self) -> (threshold: u32)
        ensures
            threshold == self.limit(),
    {
        self.threshold
    }

    /// Records one heartbeat outcome and says whether the loop gives up.
    pub fn record(&mut self, success: bool) -> (give_up: bool)
        requires
            old(self).wf(),
        ensures
            final(self).wf(),
            final(self).limit() == old(self).limit(),
            (final(self).count(), give_up) == observe(old(self).count(), old(self).limit(), success),
    {
        if success {
            self.failures = 0;
            false
        } else if self.failures + 1 >= self.threshold {
            self.failures = 0;
            true
        } else {
            self.failures = self.failures + 1;
            false
        }
    }
}

/// While fewer failures have come in a row than the threshold allows, the loop
/// keeps running and has counted each of them.
pub proof fn lemma_failures_below_threshold(failures: nat, threshold: nat, count: nat)
    requires
        failures + count < threshold,
    ensures
        gives_up_after(failures, threshold, failing(count)) is None,
        failures_after(failures, threshold, failing(count)) == failures + count,
    decreases count,
{
    if count > 0 {
        assert(failing(count).drop_first() =~= failing((count - 1) as nat));
        lemma_failures_below_threshold(failures + 1, threshold, (count - 1) as nat);
    }
}

/// What a loop does with two runs of outcomes, one after the other: if it
/// survives the first, it goes through the second from the count it has then.
pub proof fn lemma_outcomes_in_sequence(
    failures: nat,
    threshold: nat,
    first: Seq<bool>,
    second: Seq<bool>,
)
    ensures
        failures_after(failures, threshold, first + second) == failures_after(
            failures_after(failures, threshold, first),
            threshold,
            second,
        ),
        gives_up_after(failures, threshold, first + second) == match gives_up_after(
            failures,
            threshold,
            first,
        ) {
            Some(sent) => Some(sent),
            None => match gives_up_after(
                failures_after(failures, threshold, first),
                threshold,
                second,
            ) {
                Some(sent) => Some(first.len() + sent),
                None => None,
            },
        },
    decreases first.len(),
{
    if first.len() > 0 {
        assert((first + second).drop_first() =~= first.drop_first() + second);
        lemma_outcomes_in_sequence(
            observe(failures, threshold, first[0]).0,
            threshold,
            first.drop_first(),
            second,
        );
    }
}

/// A heartbeat that always fails ends the loop with the heartbeat that
/// brings the count to the threshold, and with no earlier one.
pub proof fn law_restart_bound(threshold: nat, sent: nat)
    requires
        threshold >= 1,
    ensures
        sent < threshold ==> gives_up_after(0, threshold, failing(sent)) is None,
        sent >= threshold ==> gives_up_after(0, threshold, failing(sent)) == Some(threshold),
{
    if sent < threshold {
        lemma_failures_below_threshold(0, threshold, sent);
    } else {
        let before = failing((threshold - 1) as nat);
        let rest = failing((sent - threshold + 1) as nat);
        assert(failing(sent) =~= before + rest);
        lemma_failures_below_threshold(0, threshold, (threshold - 1) as nat);
        lemma_outcomes_in_sequence(0, threshold, before, rest);
    }
}

/// One success after fewer failures than the threshold clears the count,
/// and the loop then survives a run of failures one short of the threshold.
pub proof fn law_failure_reset(threshold: nat, k: nat)
    requires
        k < threshold,
    ensures
        failures_after(0, threshold, failing(k).push(true)) == 0,
        gives_up_after(
            0,
            threshold,
            failing(k).push(true) + failing((threshold - 1) as nat),
        ) is None,
        failures_after(0, threshold, failing(k).push(true) + failing((threshold - 1) as nat))
            == threshold - 1,
{
    let cleared = failing(k).push(true);
    let tail = failing((threshold - 1) as nat);
    let success = seq![true];
    assert(cleared =~= failing(k) + success);
    assert(failures_after(k, threshold, success) == 0 && gives_up_after(k, threshold, success)
        is None) by {
        reveal_with_fuel(failures_after, 2);
        reveal_with_fuel(gives_up_after, 2);
    }
    lemma_failures_below_threshold(0, threshold, k);
    lemma_outcomes_in_sequence(0, threshold, failing(k), success);
    lemma_failures_below_threshold(0, threshold, (threshold - 1) as nat);
    lemma_outcomes_in_sequence(0, threshold, cleared, tail);
}

/// The loop in one sentence: it gives up with the first heartbeat that
/// completes a run of `threshold` failures, and until then its count is the
/// number of failures since the last success.
pub proof fn law_loop_ends_with_first_full_run(threshold: nat, outcomes: Seq<bool>)
    requires
        threshold >= 1,
    ensures
        match gives_up_after(0, threshold, outcomes) {
            Some(sent) => {
                &&& 1 <= sent <= outcomes.len()
                &&& trailing_failures(outcomes.take(sent as int)) == threshold
                &&& forall|earlier: int|
                    0 <= earlier < sent ==> trailing_failures(#[trigger] outcomes.take(earlier))
                        < threshold
            },
            None => {
                &&& failures_after(0, threshold, outcomes) == trailing_failures(outcomes)
                &&& forall|earlier: int|
                    0 <= earlier <= outcomes.len() ==> trailing_failures(
                        #[trigger] outcomes.take(earlier),
                    ) < threshold
            },
        },
    decreases outcomes.len(),
{
    if outcomes.len() > 0 {
        let before = outcomes.drop_last();
        let last = seq![outcomes.last()];
        let count = failures_after(0, threshold, before);
        law_loop_ends_with_first_full_run(threshold, before);
        assert(outcomes =~= before + last);
        lemma_outcomes_in_sequence(0, threshold, before, last);
        assert(failures_after(count, threshold, last) == observe(count, threshold, last[0]).0) by {
            reveal_with_fuel(failures_after, 2);
        }
        assert(gives_up_after(count, threshold, last) == if observe(count, threshold, last[0]).1 {
            Some(1nat)
        } else {
            None
        }) by {
            reveal_with_fuel(gives_up_after, 2);
        }
        assert(outcomes.take(outcomes.len() as int) =~= outcomes);
        assert(before.take(before.len() as int) =~= before);
        assert forall|earlier: int| 0 <= earlier <= before.len() implies #[trigger] outcomes.take(
            earlier,
        ) == before.take(earlier) by {}
    }
}

} // verus!
