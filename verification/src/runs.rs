use vstd::prelude::*;
use crate::interrupts::{Latches, NMI};
use crate::laws::nmi_rises;
use crate::model::{Cycle, State};

verus! {

/// The number of bus cycles of `trace`, from `from` up to, not including, `to`, in which
/// the NMI line rose.
pub open spec fn nmi_rise_count(trace: Seq<Cycle>, from: int, to: int) -> nat
    decreases to - from,
{
    if to <= from {
        0
    } else {
        nmi_rise_count(trace, from, to - 1) + if nmi_rises(trace, to - 1) {
            1nat
        } else {
            0
        }
    }
}

/// One if `held` holds, zero if not.
pub open spec fn one_if(held: bool) -> nat {
    if held {
        1
    } else {
        0
    }
}

impl Latches {
    /// Whether the latches can stand at the end of a step: an edge of the NMI line that
    /// was held one cycle earlier is held still.
    pub open spec fn settled(self) -> bool {
        self.prev_need_nmi ==> self.need_nmi
    }
}

impl State {
    /// The processor after `steps` steps.
    pub open spec fn run(self, steps: nat, log: Seq<Cycle>) -> State
        decreases steps,
    {
        if steps == 0 {
            self
        } else {
            self.step(log).run((steps - 1) as nat, log)
        }
    }

    /// The number of the next `steps` steps that are entries into the non-maskable
    /// interrupt.
    pub open spec fn nmi_entries(self, steps: nat, log: Seq<Cycle>) -> nat
        decreases steps,
    {
        if steps == 0 {
            0
        } else {
            one_if(self.latch.due() == Some(NMI)) + self.step(log).nmi_entries((steps - 1) as nat, log)
        }
    }

    /// Whether `self` has run every bus cycle of `earlier`, and as its first cycles.
    pub open spec fn continues(self, earlier: State) -> bool {
        &&& earlier.now() <= self.now()
        &&& forall|k: int| 0 <= k < earlier.now() ==> #[trigger] self.trace[k] == earlier.trace[k]
    }

    /// A run keeps the bus cycles that were run before it.
    proof fn lemma_run_continues(self, steps: nat, log: Seq<Cycle>)
        ensures
            self.run(steps, log).continues(self),
        decreases steps,
    {
        if steps > 0 {
            self.law_step(log);
            self.step(log).lemma_run_continues((steps - 1) as nat, log);
        }
    }

    /// The rises of the NMI line in a range of bus cycles are the same in every state that
    /// has run these cycles.
    proof fn lemma_rises_stand(self, later: State, from: int, to: int)
        requires
            later.continues(self),
            0 <= from,
            to <= self.now(),
        ensures
            nmi_rise_count(self.trace, from, to) == nmi_rise_count(later.trace, from, to),
        decreases to - from,
    {
        if to > from {
            self.lemma_rises_stand(later, from, to - 1);
            assert(later.trace[to - 1] == self.trace[to - 1]);
        }
    }

    /// A step ends with the latches settled, and of the edges of the NMI line none is
    /// lost and none is served twice: what the step enters and what is held at its end is
    /// what was held at its start or rose during it.
    proof fn lemma_step_accounts_for_edges(self, log: Seq<Cycle>)
        requires
            self.latch.settled(),
        ensures
            self.step(log).latch.settled(),
            one_if(self.latch.due() == Some(NMI)) + one_if(self.step(log).latch.need_nmi) <= one_if(
                self.latch.need_nmi,
            ) + nmi_rise_count(self.step(log).trace, self.now(), self.step(log).now()),
            self.latch.need_nmi || nmi_rise_count(self.step(log).trace, self.now(), self.step(log).now()) > 0
                ==> self.latch.due() == Some(NMI) || self.step(log).latch.need_nmi,
    {
        let after = self.step(log);
        let taken = self.acknowledged();
        self.law_step(log);
        self.law_step_takes_two_to_eight_cycles(log);
        assert(after.latch.settled()) by {
            reveal(Latches::poll);
        }
        if nmi_rise_count(after.trace, self.now(), after.now()) == 0 {
            assert forall|k: int| self.now() <= k < after.now() implies !nmi_rises(after.trace, k) by {
                lemma_no_rise_where_none_is_counted(after.trace, self.now(), after.now(), k);
            }
            taken.law_nmi_level_is_not_served(after, self.step_cycles(log));
        } else {
            let k = lemma_a_rise_where_one_is_counted(after.trace, self.now(), after.now());
            taken.law_nmi_edge_is_served(after, self.step_cycles(log), k);
        }
    }

    /// Over any run that starts with the latches settled, as every step leaves them, the
    /// non-maskable interrupt is entered no more often than the NMI line rises: the
    /// entries of the run, and the edge still held at its end, are at most the rises of
    /// the line in the bus cycles of the run, and the edge held at its start. And no edge
    /// is lost: if an edge was held at the start or the line rose during the run, the
    /// interrupt is entered during the run or the edge is held at its end.
    pub proof fn law_nmi_is_entered_once_for_each_edge(self, steps: nat, log: Seq<Cycle>)
        requires
            self.latch.settled(),
        ensures
            self.run(steps, log).latch.settled(),
            self.nmi_entries(steps, log) + one_if(self.run(steps, log).latch.need_nmi) <= one_if(
                self.latch.need_nmi,
            ) + nmi_rise_count(self.run(steps, log).trace, self.now(), self.run(steps, log).now()),
            self.latch.need_nmi || nmi_rise_count(
                self.run(steps, log).trace,
                self.now(),
                self.run(steps, log).now(),
            ) > 0 ==> self.nmi_entries(steps, log) + one_if(self.run(steps, log).latch.need_nmi) >= 1,
        decreases steps,
    {
        if steps > 0 {
            let next = self.step(log);
            let last = self.run(steps, log);
            self.lemma_step_accounts_for_edges(log);
            next.law_nmi_is_entered_once_for_each_edge((steps - 1) as nat, log);
            next.lemma_run_continues((steps - 1) as nat, log);
            self.law_step(log);
            next.lemma_rises_stand(last, self.now(), next.now());
            lemma_rises_add_up(last.trace, self.now(), next.now(), last.now());
        }
    }

    /// A line that rises once is served once: over a run that starts with no edge held,
    /// in whose bus cycles the NMI line rises exactly once, however long it stays high
    /// after, exactly one step enters the non-maskable interrupt, unless the edge is
    /// still held when the run ends, and then none does. A second entry needs a second
    /// rise, for which the line must have been sampled low in between.
    pub proof fn law_nmi_held_high_is_served_once(self, steps: nat, log: Seq<Cycle>)
        requires
            self.latch.settled(),
            !self.latch.need_nmi,
            nmi_rise_count(self.run(steps, log).trace, self.now(), self.run(steps, log).now()) == 1,
        ensures
            self.nmi_entries(steps, log) + one_if(self.run(steps, log).latch.need_nmi) == 1,
    {
        self.law_nmi_is_entered_once_for_each_edge(steps, log);
    }
}

impl State {
    /// An edge that is held when a cycle begins is held when the cycle ends.
    proof fn lemma_held_edge_stays(self, after: State, n: nat, j: int)
        requires
            self.advances(after, n),
            self.latch.need_nmi,
            self.now() <= j < after.now(),
        ensures
            after.trace[j].sampled().need_nmi,
        decreases j - self.now(),
    {
        reveal(Latches::poll);
        if j > self.now() {
            self.lemma_held_edge_stays(after, n, j - 1);
            assert(after.trace[j].latch == after.trace[j - 1].sampled());
        }
    }

    /// An edge that is held at the start of a step that does not serve it is due at the
    /// end of the step.
    proof fn lemma_held_edge_comes_due(self, log: Seq<Cycle>)
        requires
            self.latch.need_nmi,
            self.latch.due() != Some(NMI),
        ensures
            self.step(log).latch.prev_need_nmi,
            self.step(log).latch.need_nmi,
    {
        let after = self.step(log);
        let taken = self.acknowledged();
        self.law_step(log);
        self.law_step_takes_two_to_eight_cycles(log);
        taken.lemma_held_edge_stays(after, self.step_cycles(log), after.now() - 1);
        taken.lemma_held_edge_stays(after, self.step_cycles(log), after.now() - 2);
        assert(after.trace[after.now() - 1].latch == after.trace[after.now() - 2].sampled());
        reveal(Latches::poll);
    }

    /// A run of one step more is the run of the step's successor.
    proof fn lemma_run_unfolds(self, steps: nat, log: Seq<Cycle>)
        ensures
            self.run(steps + 1, log) == self.step(log).run(steps, log),
    {
    }

    /// Where one step of a run enters the non-maskable interrupt, the run counts an entry.
    proof fn lemma_an_entry_is_counted(self, steps: nat, at: nat, log: Seq<Cycle>)
        requires
            at < steps,
            self.run(at, log).latch.due() == Some(NMI),
        ensures
            self.nmi_entries(steps, log) >= 1,
        decreases steps,
    {
        if at > 0 {
            self.lemma_run_unfolds((at - 1) as nat, log);
            self.step(log).lemma_an_entry_is_counted((steps - 1) as nat, (at - 1) as nat, log);
        }
    }

    /// No edge waits for more than one instruction: if the NMI line rises in a bus cycle
    /// of a run, no reset comes due in the run, and the run goes on for two steps after
    /// the step of the rise, then a step of the run enters the non-maskable interrupt.
    pub proof fn law_nmi_edge_is_served_within_two_steps(self, steps: nat, log: Seq<Cycle>, k: int)
        requires
            forall|i: nat| i <= steps ==> !(#[trigger] self.run(i, log)).latch.rst,
            steps >= 2,
            self.now() <= k < self.run((steps - 2) as nat, log).now(),
            nmi_rises(self.run(steps, log).trace, k),
        ensures
            self.nmi_entries(steps, log) >= 1,
        decreases steps,
    {
        let next = self.step(log);
        let last = self.run(steps, log);
        self.law_step(log);
        assert(self.run(0, log) == self);
        assert(self.run(1, log) == next) by {
            self.lemma_run_unfolds(0, log);
            assert(next.run(0, log) == next);
        }
        if k < next.now() {
            next.lemma_run_continues((steps - 1) as nat, log);
            assert(last.trace[k] == next.trace[k]);
            assert(nmi_rises(next.trace, k));
            assert(!next.latch.rst);
            if k < next.now() - 1 {
                self.acknowledged().law_nmi_edge_is_served(next, self.step_cycles(log), k);
                self.lemma_an_entry_is_counted(steps, 1, log);
            } else {
                self.acknowledged().law_nmi_edge_is_served(next, self.step_cycles(log), k);
                if next.latch.due() == Some(NMI) {
                    self.lemma_an_entry_is_counted(steps, 1, log);
                } else {
                    next.lemma_held_edge_comes_due(log);
                    let third = next.step(log);
                    assert(self.run(2, log) == third) by {
                        self.lemma_run_unfolds(1, log);
                        next.lemma_run_unfolds(0, log);
                        assert(third.run(0, log) == third);
                    }
                    assert(steps >= 3) by {
                        if steps == 2 {
                            assert(self.run(0, log).now() == self.now());
                        }
                    }
                    assert(!third.latch.rst);
                    self.lemma_an_entry_is_counted(steps, 2, log);
                }
            }
        } else {
            assert(steps >= 4) by {
                if steps == 2 {
                    assert(self.run(0, log).now() == self.now());
                } else if steps == 3 {
                    assert(self.run(1, log).now() == next.now());
                }
            }
            assert forall|i: nat| i <= (steps - 1) as nat implies !(#[trigger] next.run(i, log)).latch.rst by {
                self.lemma_run_unfolds(i, log);
                assert(!self.run(i + 1, log).latch.rst);
            }
            self.lemma_run_unfolds((steps - 3) as nat, log);
            next.law_nmi_edge_is_served_within_two_steps((steps - 1) as nat, log, k);
        }
    }

    /// A line that rises once and then stays high is served exactly once: over a run that
    /// starts with no edge held, in whose bus cycles the NMI line rises exactly once, in
    /// which no reset comes due, and which goes on for two steps after the step of the
    /// rise, exactly one step enters the non-maskable interrupt, and no edge is held at
    /// the end. Every other step of the run is an instruction or another interrupt.
    pub proof fn law_nmi_line_held_high_is_served_exactly_once(self, steps: nat, log: Seq<Cycle>, k: int)
        requires
            self.latch.settled(),
            !self.latch.need_nmi,
            forall|i: nat| i <= steps ==> !(#[trigger] self.run(i, log)).latch.rst,
            steps >= 2,
            self.now() <= k < self.run((steps - 2) as nat, log).now(),
            nmi_rises(self.run(steps, log).trace, k),
            nmi_rise_count(self.run(steps, log).trace, self.now(), self.run(steps, log).now()) == 1,
        ensures
            self.nmi_entries(steps, log) == 1,
            !self.run(steps, log).latch.need_nmi,
    {
        self.law_nmi_is_entered_once_for_each_edge(steps, log);
        self.law_nmi_edge_is_served_within_two_steps(steps, log, k);
    }
}

/// Where no rise is counted in a range, the line rises in none of its cycles.
proof fn lemma_no_rise_where_none_is_counted(trace: Seq<Cycle>, from: int, to: int, k: int)
    requires
        nmi_rise_count(trace, from, to) == 0,
        from <= k < to,
    ensures
        !nmi_rises(trace, k),
    decreases to - from,
{
    if k < to - 1 {
        lemma_no_rise_where_none_is_counted(trace, from, to - 1, k);
    }
}

/// Where a rise is counted in a range, the line rises in one of its cycles.
proof fn lemma_a_rise_where_one_is_counted(trace: Seq<Cycle>, from: int, to: int) -> (k: int)
    requires
        nmi_rise_count(trace, from, to) > 0,
    ensures
        from <= k < to,
        nmi_rises(trace, k),
    decreases to - from,
{
    if nmi_rises(trace, to - 1) {
        to - 1
    } else {
        lemma_a_rise_where_one_is_counted(trace, from, to - 1)
    }
}

/// The rises of two ranges that meet add up.
proof fn lemma_rises_add_up(trace: Seq<Cycle>, from: int, middle: int, to: int)
    requires
        from <= middle <= to,
    ensures
        nmi_rise_count(trace, from, to) == nmi_rise_count(trace, from, middle) + nmi_rise_count(trace, middle, to),
    decreases to - middle,
{
    if to > middle {
        lemma_rises_add_up(trace, from, middle, to - 1);
    }
}

} // verus!
