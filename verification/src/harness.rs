//! An executable host: it calls the entry points, carries their platform
//! calls out on the model, and records what reaches the logging sink.

use crate::entry::{invoke, Entry, Step, STATUS};
use crate::model::{lemma_call_is_its_steps, Stage, State};
use vstd::prelude::*;

verus! {

/// The texts of the captured lines `lines`, in order.
pub open spec fn lines_text(lines: Seq<&'static str>) -> Seq<Seq<char>> {
    Seq::new(lines.len(), |i: int| lines[i]@)
}

/// A host with a recording sink.
pub struct Harness {
    stage: Stage,
    records: Vec<&'static str>,
}

impl View for Harness {
    type V = State;

    closed spec fn view(&self) -> State {
        State { stage: self.stage, records: lines_text(self.records@) }
    }
}

impl Harness {
    /// A host at power-up: no sink installed, nothing captured.
    pub fn new() -> (host: Harness)
        ensures
            host@ == State::cold(),
    {
        let host = Harness { stage: Stage::Uninitialized, records: Vec::new() };
        assert(lines_text(host.records@) =~= Seq::<Seq<char>>::empty());
        host
    }

    /// Whether the sink is installed.
    pub fn stage(&self) -> (stage: Stage)
        ensures
            stage == self@.stage,
    {
        self.stage
    }

    /// The records that have reached the sink, oldest first.
    pub fn records(&self) -> (lines: &Vec<&'static str>)
        ensures
            lines_text(lines@) == self@.records,
    {
        &self.records
    }

    /// Carries out one platform call.
    pub fn perform(&mut self, step: Step)
        ensures
            final(self)@ == old(self)@.after_step(step),
    {
        match step {
            Step::LinkPatches => {},
            Step::InstallLogger => {
                self.stage = Stage::Initialized;
            },
            Step::Inform(entry) => {
                match self.stage {
                    Stage::Uninitialized => {},
                    Stage::Initialized => {
                        self.records.push(entry.message());
                        assert(lines_text(self.records@) =~= lines_text(old(self).records@).push(
                            entry.text(),
                        ));
                    },
                }
            },
        }
    }

    /// Carries out the platform calls `steps`, in order.
    pub fn perform_all(&mut self, steps: &Vec<Step>)
        ensures
            final(self)@ == old(self)@.after_steps(steps@),
    {
        let mut done: usize = 0;
        while done < steps.len()
            invariant
                done <= steps.len(),
                self@ == old(self)@.after_steps(steps@.take(done as int)),
            decreases steps.len() - done,
        {
            proof {
                let next = steps@.take(done + 1);
                assert(next.drop_last() =~= steps@.take(done as int));
                assert(next.last() == steps@[done as int]);
            }
            self.perform(steps[done]);
            done = done + 1;
        }
        assert(steps@.take(done as int) =~= steps@);
    }

    /// Calls one entry point and carries out what it asks for; returns the
    /// status that the host gets.
    pub fn call(&mut self, entry: Entry) -> (status: i32)
        ensures
            status == STATUS,
            final(self)@ == old(self)@.after_call(entry),
    {
        let outcome = invoke(entry);
        self.perform_all(&outcome.calls);
        proof {
            lemma_call_is_its_steps(old(self)@, entry);
        }
        outcome.status
    }

    /// Calls the entry points `calls` in order; returns the status of each.
    pub fn replay(&mut self, calls: &Vec<Entry>) -> (statuses: Vec<i32>)
        ensures
            final(self)@ == old(self)@.after_calls(calls@),
            statuses@ == Seq::new(calls@.len(), |i: int| STATUS),
    {
        let mut statuses: Vec<i32> = Vec::new();
        let mut done: usize = 0;
        while done < calls.len()
            invariant
                done <= calls.len(),
                self@ == old(self)@.after_calls(calls@.take(done as int)),
                statuses@ == Seq::new(done as nat, |i: int| STATUS),
            decreases calls.len() - done,
        {
            proof {
                let next = calls@.take(done + 1);
                assert(next.drop_last() =~= calls@.take(done as int));
                assert(next.last() == calls@[done as int]);
            }
            let status = self.call(calls[done]);
            statuses.push(status);
            done = done + 1;
        }
        assert(calls@.take(done as int) =~= calls@);
        statuses
    }
}

} // verus!
