//! One time of a request, ready for its place in the diagram.
use crate::format::Format;
use crate::template::Process;
use vstd::prelude::*;

verus! {

/// A time in milliseconds, what it measures, and the style to show it in.
pub struct Progress {
    formatter: Format,
    process: Process,
    ms: i128,
}

impl Progress {
    /// The style to show the time in.
    pub closed spec fn formatter(&self) -> Format {
        self.formatter
    }

    /// What the time measures.
    pub closed spec fn process(&self) -> Process {
        self.process
    }

    /// The time in milliseconds.
    pub closed spec fn ms(&self) -> int {
        self.ms as int
    }

    /// The time as the diagram shows it: aligned for its place, then styled.
    /// A negative time keeps its sign.
    pub open spec fn text(&self) -> Seq<char> {
        self.formatter().styled(self.process().aligned(self.ms()))
    }

    /// Returns the time `ms` of `process`, to be shown in the style
    /// `formatter`.
    pub fn new(process: Process, ms: i128, formatter: Format) -> (p: Progress)
        ensures
            p.process() == process,
            p.ms() == ms,
            p.formatter() == formatter,
    {
        Progress { formatter: formatter, process: process, ms: ms }
    }

    /// Returns the name of the place in the diagram and the text to put
    /// there.
    pub fn output(&self) -> (r: (String, String))
        ensures
            r.0@ == self.process().slot(),
            r.1@ == self.text(),
    {
        let index: String = self.process.index();
        let aligned: String = self.process.align(self.ms);
        (index, self.formatter.tty(aligned.as_str()))
    }
}

} // verus!
