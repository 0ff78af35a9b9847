//! The platform as the stub sees it: a transition system with two stages and
//! the records that have reached the logging sink.
//!
//! A record that is emitted before the sink is installed reaches nothing and
//! is dropped; from the first installation on, every record is captured.

use crate::entry::{Entry, Step};
use vstd::prelude::*;

verus! {

/// Whether the logging sink has been installed.
///
/// The platform starts `Uninitialized`. It becomes `Initialized` the first
/// time the sink is installed, and stays so.
#[derive(Clone, Copy, Debug, PartialEq, Eq, Structural)]
pub enum Stage {
    Uninitialized,
    Initialized,
}

/// What can be observed of the platform between two calls.
pub struct State {
    /// Whether the sink is installed.
    pub stage: Stage,
    /// The texts that have reached the sink, oldest first.
    pub records: Seq<Seq<char>>,
}

/// The texts of the records of `calls`, one for each call, in call order.
pub open spec fn texts(calls: Seq<Entry>) -> Seq<Seq<char>> {
    Seq::new(calls.len(), |i: int| calls[i].text())
}

impl State {
    /// The platform at power-up: no sink, nothing captured.
    pub open spec fn cold() -> State {
        State { stage: Stage::Uninitialized, records: Seq::empty() }
    }

    /// The state after one platform call.
    ///
    /// The patch installer acts on what is linked into the image and changes
    /// nothing that can be observed here. Installing the sink where one is
    /// installed already changes nothing either.
    pub open spec fn after_step(self, step: Step) -> State {
        match step {
            Step::LinkPatches => self,
            Step::InstallLogger => State { stage: Stage::Initialized, records: self.records },
            Step::Inform(entry) => match self.stage {
                Stage::Uninitialized => self,
                Stage::Initialized => State {
                    stage: self.stage,
                    records: self.records.push(entry.text()),
                },
            },
        }
    }

    /// The state after the platform calls `steps`, made in order.
    pub open spec fn after_steps(self, steps: Seq<Step>) -> State
        decreases steps.len(),
    {
        if steps.len() == 0 {
            self
        } else {
            self.after_steps(steps.drop_last()).after_step(steps.last())
        }
    }

    /// The state after one call of `entry`.
    ///
    /// The startup entry leaves the sink installed and its record captured,
    /// whatever the stage was. The greeting entry has its record captured
    /// where the sink is installed, and dropped where it is not.
    pub open spec fn after_call(self, entry: Entry) -> State {
        match entry {
            Entry::Main => State {
                stage: Stage::Initialized,
                records: self.records.push(Entry::Main.text()),
            },
            Entry::Greeting => match self.stage {
                Stage::Uninitialized => self,
                Stage::Initialized => State {
                    stage: Stage::Initialized,
                    records: self.records.push(Entry::Greeting.text()),
                },
            },
        }
    }

    /// The state after the entry points `calls`, called in order.
    pub open spec fn after_calls(self, calls: Seq<Entry>) -> State
        decreases calls.len(),
    {
        if calls.len() == 0 {
            self
        } else {
            self.after_calls(calls.drop_last()).after_call(calls.last())
        }
    }
}

/// The two records differ, so a record tells which entry emitted it.
pub proof fn lemma_text_identifies_entry(a: Entry, b: Entry)
    requires
        a.text() == b.text(),
    ensures
        a == b,
{
    reveal_strlit("Hello world from Rust's `app_main()`!");
    reveal_strlit("Hello from Rust!");
    assert(Entry::Main.text().len() == 37);
    assert(Entry::Greeting.text().len() == 16);
}

/// Making the platform calls of an entry one by one leads to the state that
/// `after_call` gives for the entry as a whole.
pub proof fn lemma_call_is_its_steps(s: State, entry: Entry)
    ensures
        s.after_steps(entry.calls()) == s.after_call(entry),
{
    reveal_with_fuel(State::after_steps, 4);
    match entry {
        Entry::Main => {
            let c = entry.calls();
            assert(c.drop_last() =~= seq![Step::LinkPatches, Step::InstallLogger]);
            assert(c.drop_last().drop_last() =~= seq![Step::LinkPatches]);
            assert(c.drop_last().drop_last().drop_last() =~= Seq::<Step>::empty());
        },
        Entry::Greeting => {
            assert(entry.calls().drop_last() =~= Seq::<Step>::empty());
        },
    }
}

/// The stage never goes back: once the sink is installed, it is installed
/// after any further platform calls, and nothing captured is lost or altered.
pub proof fn lemma_steps_keep_what_is_there(s: State, steps: Seq<Step>)
    ensures
        s.stage is Initialized ==> s.after_steps(steps).stage is Initialized,
        s.records.is_prefix_of(s.after_steps(steps).records),
    decreases steps.len(),
{
    if steps.len() > 0 {
        lemma_steps_keep_what_is_there(s, steps.drop_last());
    }
}

/// The same over whole calls: the sink stays installed, and what was captured
/// stays captured, in place.
pub proof fn lemma_calls_keep_what_is_there(s: State, calls: Seq<Entry>)
    ensures
        s.stage is Initialized ==> s.after_calls(calls).stage is Initialized,
        s.records.is_prefix_of(s.after_calls(calls).records),
        s.after_calls(calls).records.len() <= s.records.len() + calls.len(),
    decreases calls.len(),
{
    if calls.len() > 0 {
        lemma_calls_keep_what_is_there(s, calls.drop_last());
    }
}

/// Where the sink is installed at the start, or the first call is the startup
/// entry, every call has exactly one record captured, in call order; and the
/// sink is installed at the end unless nothing was called.
pub proof fn lemma_one_record_per_call(s: State, calls: Seq<Entry>)
    requires
        s.stage is Initialized || calls.len() == 0 || calls[0] == Entry::Main,
    ensures
        s.after_calls(calls).records == s.records + texts(calls),
        calls.len() > 0 ==> s.after_calls(calls).stage is Initialized,
        calls.len() == 0 ==> s.after_calls(calls) == s,
    decreases calls.len(),
{
    if calls.len() == 0 {
        assert(s.records + texts(calls) =~= s.records);
    } else {
        let before = calls.drop_last();
        lemma_one_record_per_call(s, before);
        assert(s.after_calls(before).stage is Initialized || calls.last() == Entry::Main);
        assert(s.records + texts(calls) =~= (s.records + texts(before)).push(calls.last().text()));
    }
}

/// The startup entry can be called again: the sink stays installed, each call
/// has its record captured, nothing else changes, and a greeting that
/// follows is captured as after a single startup.
pub proof fn lemma_main_is_reentrant(s: State)
    ensures
        s.after_call(Entry::Main).after_call(Entry::Main).stage == s.after_call(Entry::Main).stage,
        s.after_call(Entry::Main).after_call(Entry::Main).records == s.after_call(
            Entry::Main,
        ).records.push(Entry::Main.text()),
        s.after_call(Entry::Main).after_call(Entry::Main).after_call(Entry::Greeting).records
            == s.after_call(Entry::Main).after_call(Entry::Main).records.push(
            Entry::Greeting.text(),
        ),
{
}

/// A greeting that comes before any startup is harmless: its record is
/// dropped and the state is as before.
pub proof fn lemma_greeting_before_main_is_dropped(s: State)
    requires
        s.stage is Uninitialized,
    ensures
        s.after_call(Entry::Greeting) == s,
{
}

/// Once the sink is installed, `n` greetings in a row have `n` records
/// captured, all with the same text.
pub proof fn lemma_repeated_greetings(s: State, n: nat)
    requires
        s.stage is Initialized,
    ensures
        s.after_calls(Seq::new(n, |i: int| Entry::Greeting)).stage is Initialized,
        s.after_calls(Seq::new(n, |i: int| Entry::Greeting)).records == s.records + Seq::new(
            n,
            |i: int| Entry::Greeting.text(),
        ),
{
    let calls = Seq::new(n, |i: int| Entry::Greeting);
    lemma_one_record_per_call(s, calls);
    lemma_calls_keep_what_is_there(s, calls);
    assert(texts(calls) =~= Seq::new(n, |i: int| Entry::Greeting.text()));
}

} // verus!
