//! The slot that keeps the engine's most recent diagnostic message.

use vstd::prelude::*;
use vstd::string::StringExecFns;

use crate::options::Jbig2Severity;

verus! {

/// Holds at most one message: the last one the engine reported and that has
/// not been taken since.
pub struct DiagnosticsSink {
    last: Option<String>,
}

impl View for DiagnosticsSink {
    type V = Option<Seq<char>>;

    closed spec fn view(&self) -> Option<Seq<char>> {
        match self.last {
            Some(m) => Some(m@),
            None => None,
        }
    }
}

/// The text that an error built from the slot's content carries: the message,
/// or nothing where the slot is empty.
pub open spec fn diagnostic_text(slot: Option<Seq<char>>) -> Seq<char> {
    match slot {
        Some(m) => m,
        None => Seq::empty(),
    }
}

/// The slot's content after the engine has reported `message`. A report
/// without text leaves the slot as it was.
pub open spec fn after_report(slot: Option<Seq<char>>, message: Option<Seq<char>>) -> Option<
    Seq<char>,
> {
    match message {
        Some(m) => Some(m),
        None => slot,
    }
}

impl DiagnosticsSink {
    /// An empty slot.
    pub fn new() -> (sink: Self)
        ensures
            sink@ is None,
    {
        DiagnosticsSink { last: None }
    }

    /// Stores the text of one diagnostic event, replacing what was there.
    /// Severity and segment index are not kept. An event without text
    /// changes nothing.
    pub fn record(&mut self, message: Option<&str>, severity: Jbig2Severity, segment: u32)
        ensures
            final(self)@ == after_report(
                old(self)@,
                match message {
                    Some(m) => Some(m@),
                    None => None,
                },
            ),
    {
        match message {
            Some(m) => {
                self.last = Some(String::from_str(m));
            },
            None => {},
        }
    }

    /// Whether a message is waiting.
    pub fn is_empty(&self) -> (empty: bool)
        ensures
            empty == (self@ is None),
    {
        self.last.is_none()
    }

    /// Hands out the waiting message, or the empty string where there is
    /// none, and leaves the slot empty.
    pub fn take(&mut self) -> (text: String)
        ensures
            text@ == diagnostic_text(old(self)@),
            final(self)@ is None,
    {
        match self.last.take() {
            Some(m) => m,
            None => String::new(),
        }
    }
}

} // verus!
