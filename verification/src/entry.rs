//! The entry points: what each asks of the platform, and what it returns.

use vstd::prelude::*;

verus! {

/// The status that every entry point hands back to the host firmware.
///
/// It is a sentinel: the host takes any return as success, and the number
/// says nothing beyond "the call completed".
pub const STATUS: i32 = 42;

/// An entry point that the host firmware calls by symbol.
#[derive(Clone, Copy, Debug, PartialEq, Eq, Structural)]
pub enum Entry {
    /// The startup entry, reached from the host's startup path.
    Main,
    /// The greeting entry, callable at any time afterwards.
    Greeting,
}

/// One call into the platform.
#[derive(Clone, Copy, Debug, PartialEq, Eq, Structural)]
pub enum Step {
    /// Run the runtime-patch installer, which keeps the symbols that the
    /// platform needs in the linked image. It comes before any other use of
    /// the platform.
    LinkPatches,
    /// Install the default logging sink: bind the logging facade to the
    /// platform's log backend.
    InstallLogger,
    /// Emit the informational record of the given entry.
    Inform(Entry),
}

/// What one call of an entry point amounts to.
#[derive(Debug)]
pub struct Outcome {
    /// The platform calls to make, in this order.
    pub calls: Vec<Step>,
    /// The status to hand back to the host.
    pub status: i32,
}

impl Entry {
    /// The text of the informational record by which this entry is told from
    /// the other.
    pub open spec fn text(self) -> Seq<char> {
        match self {
            Entry::Main => "Hello world from Rust's `app_main()`!"@,
            Entry::Greeting => "Hello from Rust!"@,
        }
    }

    /// The platform calls that this entry makes, in order.
    pub open spec fn calls(self) -> Seq<Step> {
        match self {
            Entry::Main => seq![Step::LinkPatches, Step::InstallLogger, Step::Inform(Entry::Main)],
            Entry::Greeting => seq![Step::Inform(Entry::Greeting)],
        }
    }

    /// The text of this entry's record.
    pub fn message(self) -> (text: &'static str)
        ensures
            text@ == self.text(),
    {
        match self {
            Entry::Main => "Hello world from Rust's `app_main()`!",
            Entry::Greeting => "Hello from Rust!",
        }
    }
}

/// The startup entry: install the runtime patches, then the logging sink,
/// then emit the startup record; the host gets the fixed status.
pub fn rust_main() -> (out: Outcome)
    ensures
        out.status == STATUS,
        out.calls@ == seq![Step::LinkPatches, Step::InstallLogger, Step::Inform(Entry::Main)],
{
    let mut calls: Vec<Step> = Vec::new();
    calls.push(Step::LinkPatches);
    calls.push(Step::InstallLogger);
    calls.push(Step::Inform(Entry::Main));
    Outcome { calls, status: STATUS }
}

/// The greeting entry: emit the greeting record; the host gets the fixed
/// status.
pub fn hello_from_rust() -> (out: Outcome)
    ensures
        out.status == STATUS,
        out.calls@ == seq![Step::Inform(Entry::Greeting)],
{
    let mut calls: Vec<Step> = Vec::new();
    calls.push(Step::Inform(Entry::Greeting));
    Outcome { calls, status: STATUS }
}

/// Calls the entry point that `entry` names.
pub fn invoke(entry: Entry) -> (out: Outcome)
    ensures
        out.status == STATUS,
        out.calls@ == entry.calls(),
{
    match entry {
        Entry::Main => rust_main(),
        Entry::Greeting => hello_from_rust(),
    }
}

} // verus!
