//! What a step of a script asks of the world outside, and how a script fails.

use vstd::prelude::*;

verus! {

/// Why a script stops. Every failure is final: nothing is retried.
#[derive(Debug, Clone, Copy, PartialEq, Eq, Structural)]
pub enum ScriptError {
    /// A line source reported a fault.
    Io,
    /// A line is not valid UTF-8.
    InvalidUtf8,
    /// The interactive input ended where `READ` wanted a line.
    EndOfInput,
    /// The command name is not in the table of the mode that runs.
    UnknownCommand,
    /// The command is known, but has no shell form yet.
    Unimplemented,
    /// `FIRST`, `LAST`, `STOREFIRST` or `STORELAST` on a variable that holds
    /// the empty string.
    EmptyValue,
    /// The argument of `WAIT`, `SLEEP` or `SLEEP_SECS` is no number of seconds.
    BadDuration,
    /// The runtime was handed a line while it waited for none, or none while
    /// it waited for one.
    OutOfTurn,
}

/// What the driver of a script has to do after a step.
#[derive(Debug, Clone, PartialEq, Eq)]
pub enum Action {
    /// Nothing: go on with the next step.
    Continue,
    /// Write `text` to standard output, and flush it afterwards if `flush`.
    Write { text: String, flush: bool },
    /// Flush standard output.
    Flush,
    /// Suspend the process for `secs` seconds.
    Sleep { secs: u64 },
    /// Append `line` to the shell script that is being compiled.
    Emit { line: String },
    /// Stop: the script has ended.
    Halt,
}

/// An `Action` with its strings as sequences of characters.
pub enum ActionView {
    Continue,
    Write { text: Seq<char>, flush: bool },
    Flush,
    Sleep { secs: u64 },
    Emit { line: Seq<char> },
    Halt,
}

impl View for Action {
    type V = ActionView;

    open spec fn view(&self) -> ActionView {
        match *self {
            Action::Continue => ActionView::Continue,
            Action::Write { text, flush } => ActionView::Write { text: text@, flush },
            Action::Flush => ActionView::Flush,
            Action::Sleep { secs } => ActionView::Sleep { secs },
            Action::Emit { line } => ActionView::Emit { line: line@ },
            Action::Halt => ActionView::Halt,
        }
    }
}

/// The result of a step, with the action taken by its view.
pub open spec fn outcome_view(r: Result<Action, ScriptError>) -> Result<ActionView, ScriptError> {
    match r {
        Ok(action) => Ok(action@),
        Err(e) => Err(e),
    }
}

/// A line of text, or none, or a failure, with the line taken by its view.
pub open spec fn line_view(r: Result<Option<String>, ScriptError>) -> Result<
    Option<Seq<char>>,
    ScriptError,
> {
    match r {
        Ok(Some(line)) => Ok(Some(line@)),
        Ok(None) => Ok(None),
        Err(e) => Err(e),
    }
}

} // verus!
