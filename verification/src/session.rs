//! A script run, one step at a time, in either mode.
//!
//! The runtime never reads or writes by itself. After each step it says, by
//! the action it returns, what is to be written or waited for, and by
//! [`Runtime::need`] what the next step has to be given. [`step`] pulls the
//! lines from two readers; [`Runtime::advance`] takes them as values.

use vstd::prelude::*;
use vstd::string::*;
use crate::action::{Action, ActionView, ScriptError, outcome_view};
use crate::command::{Command, parse_line};
use crate::interp::{
    Runtime,
    RuntimeView,
    collect_line,
    interpret,
    replay_step,
    run_command,
    take_input,
};
use crate::shell::{compile_command, shell_text};
use crate::source::{InputReader, decode_line};

verus! {

/// How a script is run. The mode is chosen once and holds for the whole run.
#[derive(Debug, Clone, Copy, PartialEq, Eq, Structural)]
pub enum RunMode {
    /// Perform what the commands say.
    Interpret,
    /// Emit shell text that does what the commands say.
    Compile,
}

/// What the runtime has to be given for its next step.
#[derive(Debug, Clone, Copy, PartialEq, Eq, Structural)]
pub enum Need {
    /// The next line of the script, which is run as a command.
    Command,
    /// The next line of the script, which goes to the body of the loop that
    /// was opened last.
    BlockLine,
    /// The next line of the interactive input.
    Input,
    /// Nothing: the next step replays a line of a loop.
    Replay,
}

/// What the runtime is given for a step.
#[derive(Debug, Clone, PartialEq, Eq)]
pub enum Event {
    /// Nothing.
    Tick,
    /// The next line of the source that the runtime waits for, or `None`
    /// where that source has ended.
    Line(Option<String>),
}

/// An `Event` with its line as a sequence of characters.
pub enum EventView {
    Tick,
    Line(Option<Seq<char>>),
}

impl View for Event {
    type V = EventView;

    open spec fn view(&self) -> EventView {
        match *self {
            Event::Tick => EventView::Tick,
            Event::Line(Some(l)) => EventView::Line(Some(l@)),
            Event::Line(None) => EventView::Line(None),
        }
    }
}

/// What a runtime in this state waits for: a line of input where a `READ`
/// is pending; else a command where no loop is open; else a line of the body
/// where the innermost loop is still being read; else nothing.
pub open spec fn need_of(rt: RuntimeView) -> Need {
    if rt.awaiting is Some {
        Need::Input
    } else if rt.loops.len() == 0 {
        Need::Command
    } else if rt.loops.last().filling {
        Need::BlockLine
    } else {
        Need::Replay
    }
}

/// What a line of the script does at the top level. Interpreted, it is run
/// as a command. Compiled, it leaves the runtime alone and asks for its shell
/// text to be emitted, or for nothing where it has none.
pub open spec fn process_line(mode: RunMode, line: Seq<char>, rt: RuntimeView) -> (
    RuntimeView,
    Result<ActionView, ScriptError>,
) {
    match mode {
        RunMode::Interpret => interpret(parse_line(line), rt),
        RunMode::Compile => match shell_text(parse_line(line)) {
            Ok(Some(text)) => (rt, Ok(ActionView::Emit { line: text })),
            Ok(None) => (rt, Ok(ActionView::Continue)),
            Err(e) => (rt, Err(e)),
        },
    }
}

/// Processes one line of the script at the top level.
pub fn proc_file_line(mode: RunMode, line: &String, runtime: &mut Runtime) -> (r: Result<
    Action,
    ScriptError,
>)
    ensures
        final(runtime)@ == process_line(mode, line@, old(runtime)@).0,
        outcome_view(r) == process_line(mode, line@, old(runtime)@).1,
{
    let cmd = Command::new(line);
    match mode {
        RunMode::Interpret => run_command(cmd, runtime),
        RunMode::Compile => match compile_command(&cmd) {
            Ok(Some(text)) => Ok(Action::Emit { line: text }),
            Ok(None) => Ok(Action::Continue),
            Err(e) => Err(e),
        },
    }
}

/// One step of a run: the runtime after it, and the action that it asks for
/// or the error that it fails with.
///
/// | the runtime waits for | the event | the step |
/// |---|---|---|
/// | nothing | a tick | replays a line of the innermost loop |
/// | input | a line, or the end | gives the line to the variable that waits |
/// | a line of a body | a line, or the end | adds the line to the body, or ends it |
/// | a command | a line | processes the line at the top level |
/// | a command | the end | halts |
///
/// Any other event is out of turn: the step fails and changes nothing.
pub open spec fn advance_of(rt: RuntimeView, mode: RunMode, event: EventView) -> (
    RuntimeView,
    Result<ActionView, ScriptError>,
) {
    match (need_of(rt), event) {
        (Need::Replay, EventView::Tick) => replay_step(rt),
        (Need::Input, EventView::Line(line)) => take_input(rt, line),
        (Need::BlockLine, EventView::Line(line)) => (
            collect_line(rt, line),
            Ok(ActionView::Continue),
        ),
        (Need::Command, EventView::Line(Some(line))) => process_line(mode, line, rt),
        (Need::Command, EventView::Line(None)) => (rt, Ok(ActionView::Halt)),
        _ => (rt, Err(ScriptError::OutOfTurn)),
    }
}

/// Whether an event comes in turn: a tick where the runtime waits for
/// nothing, a line or the end of a source where it waits for a line.
pub open spec fn in_turn(need: Need, event: EventView) -> bool {
    (need is Replay) == (event is Tick)
}

/// An event that comes in turn is never refused as out of turn.
pub proof fn lemma_in_turn_is_served(rt: RuntimeView, mode: RunMode, event: EventView)
    requires
        in_turn(need_of(rt), event),
    ensures
        advance_of(rt, mode, event).1 != Err::<ActionView, ScriptError>(ScriptError::OutOfTurn),
{
}

impl Runtime {
    /// What the next step has to be given.
    pub fn need(&self) -> (need: Need)
        ensures
            need == need_of(self@),
    {
        if self.awaiting.is_some() {
            Need::Input
        } else if self.loops.len() == 0 {
            Need::Command
        } else if self.loops[self.loops.len() - 1].filling {
            Need::BlockLine
        } else {
            Need::Replay
        }
    }

    /// Takes one step, given what the runtime waited for.
    pub fn advance(&mut self, mode: RunMode, event: Event) -> (r: Result<Action, ScriptError>)
        ensures
            final(self)@ == advance_of(old(self)@, mode, event@).0,
            outcome_view(r) == advance_of(old(self)@, mode, event@).1,
    {
        match (self.need(), event) {
            (Need::Replay, Event::Tick) => self.replay(),
            (Need::Input, Event::Line(Some(line))) => self.accept_input(Some(line.as_str())),
            (Need::Input, Event::Line(None)) => self.accept_input(None),
            (Need::BlockLine, Event::Line(Some(line))) => {
                self.collect(Some(line.as_str()));
                Ok(Action::Continue)
            },
            (Need::BlockLine, Event::Line(None)) => {
                self.collect(None);
                Ok(Action::Continue)
            },
            (Need::Command, Event::Line(Some(line))) => proc_file_line(mode, &line, self),
            (Need::Command, Event::Line(None)) => Ok(Action::Halt),
            _ => Err(ScriptError::OutOfTurn),
        }
    }
}

/// Takes one step of a run, pulling the line that the runtime waits for, if
/// it waits for one, from the script or from the interactive input.
///
/// Where the runtime waits for nothing, no reader is asked and the step is
/// the replay step. Otherwise one reader is asked once. If its answer cannot
/// be decoded the run fails and the runtime is unchanged; else the step is
/// the one that `advance` takes on the line that came.
pub fn step<S: InputReader, I: InputReader>(
    runtime: &mut Runtime,
    mode: RunMode,
    script: &mut S,
    input: &mut I,
) -> (r: Result<Action, ScriptError>)
    ensures
        r != Err::<Action, ScriptError>(ScriptError::OutOfTurn),
        need_of(old(runtime)@) is Replay ==> final(runtime)@ == advance_of(
            old(runtime)@,
            mode,
            EventView::Tick,
        ).0 && outcome_view(r) == advance_of(old(runtime)@, mode, EventView::Tick).1,
        !(need_of(old(runtime)@) is Replay) ==> {
            ||| final(runtime)@ == old(runtime)@ && (r == Err::<Action, ScriptError>(ScriptError::Io) || r == Err::<
                Action,
                ScriptError,
            >(ScriptError::InvalidUtf8))
            ||| exists|line: Option<Seq<char>>|
                final(runtime)@ == (#[trigger] advance_of(
                    old(runtime)@,
                    mode,
                    EventView::Line(line),
                )).0 && outcome_view(r) == advance_of(old(runtime)@, mode, EventView::Line(line)).1
        },
{
    let raw = match runtime.need() {
        Need::Replay => {
            proof {
                lemma_in_turn_is_served(runtime@, mode, EventView::Tick);
            }
            return runtime.advance(mode, Event::Tick);
        },
        Need::Input => input.next_line(),
        Need::Command | Need::BlockLine => script.next_line(),
    };
    match decode_line(raw) {
        Err(e) => Err(e),
        Ok(line) => {
            let event = Event::Line(line);
            proof {
                lemma_in_turn_is_served(runtime@, mode, event@);
            }
            runtime.advance(mode, event)
        },
    }
}

} // verus!
