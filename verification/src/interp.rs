//! The interpreter: what each command does to the variables and to the loops
//! that are open, and what it asks of the driver.

use vstd::prelude::*;
use vstd::string::*;
use crate::action::{Action, ActionView, ScriptError, outcome_view};
use crate::command::{Command, CommandView, parse_line};
use crate::store::{VariableStore, getvar, lookup, setvar};
use crate::text::{parse_seconds, seconds_of, str_eq, trim, trim_end, trim_end_of, trim_of};

verus! {

/// The commands that the interpreter knows.
#[derive(Debug, Clone, Copy, PartialEq, Eq, Structural)]
pub enum Opcode {
    /// `READ`
    Read,
    /// `ECHO`
    Echo,
    /// `__RBGN_NONL`
    WriteRaw,
    /// `__RBGN_FLUSH`
    FlushRaw,
    /// `WAIT`, `SLEEP`, `SLEEP_SECS`
    Wait,
    /// `NONL`
    Nonl,
    /// `FIRST`
    First,
    /// `STOREFIRST`
    StoreFirst,
    /// `LAST`
    Last,
    /// `STORELAST`
    StoreLast,
    /// `FOREVER`
    Forever,
    /// `STRGET`
    StrGet,
    /// `STATIC_STR_VAR`
    StaticStrVar,
    /// `STATIC_STR_SPACE`
    StaticStrSpace,
    /// `CONST_SET`
    ConstSet,
    /// `CONST_WRITE`
    ConstWrite,
    /// `_OPT`, and the empty name of a comment or a blank line
    Nop,
    /// Any other name
    Unknown,
}

/// The command that a name stands for.
pub open spec fn opcode_of(name: Seq<char>) -> Opcode {
    if name == "READ"@ {
        Opcode::Read
    } else if name == "ECHO"@ {
        Opcode::Echo
    } else if name == "__RBGN_NONL"@ {
        Opcode::WriteRaw
    } else if name == "__RBGN_FLUSH"@ {
        Opcode::FlushRaw
    } else if name == "WAIT"@ || name == "SLEEP"@ || name == "SLEEP_SECS"@ {
        Opcode::Wait
    } else if name == "NONL"@ {
        Opcode::Nonl
    } else if name == "FIRST"@ {
        Opcode::First
    } else if name == "STOREFIRST"@ {
        Opcode::StoreFirst
    } else if name == "LAST"@ {
        Opcode::Last
    } else if name == "STORELAST"@ {
        Opcode::StoreLast
    } else if name == "FOREVER"@ {
        Opcode::Forever
    } else if name == "STRGET"@ {
        Opcode::StrGet
    } else if name == "STATIC_STR_VAR"@ {
        Opcode::StaticStrVar
    } else if name == "STATIC_STR_SPACE"@ {
        Opcode::StaticStrSpace
    } else if name == "CONST_SET"@ {
        Opcode::ConstSet
    } else if name == "CONST_WRITE"@ {
        Opcode::ConstWrite
    } else if name == "_OPT"@ || name.len() == 0 {
        Opcode::Nop
    } else {
        Opcode::Unknown
    }
}

/// Looks a command name up in the interpreter's table.
pub fn decode(name: &str) -> (op: Opcode)
    ensures
        op == opcode_of(name@),
{
    if str_eq(name, "READ") {
        Opcode::Read
    } else if str_eq(name, "ECHO") {
        Opcode::Echo
    } else if str_eq(name, "__RBGN_NONL") {
        Opcode::WriteRaw
    } else if str_eq(name, "__RBGN_FLUSH") {
        Opcode::FlushRaw
    } else if str_eq(name, "WAIT") || str_eq(name, "SLEEP") || str_eq(name, "SLEEP_SECS") {
        Opcode::Wait
    } else if str_eq(name, "NONL") {
        Opcode::Nonl
    } else if str_eq(name, "FIRST") {
        Opcode::First
    } else if str_eq(name, "STOREFIRST") {
        Opcode::StoreFirst
    } else if str_eq(name, "LAST") {
        Opcode::Last
    } else if str_eq(name, "STORELAST") {
        Opcode::StoreLast
    } else if str_eq(name, "FOREVER") {
        Opcode::Forever
    } else if str_eq(name, "STRGET") {
        Opcode::StrGet
    } else if str_eq(name, "STATIC_STR_VAR") {
        Opcode::StaticStrVar
    } else if str_eq(name, "STATIC_STR_SPACE") {
        Opcode::StaticStrSpace
    } else if str_eq(name, "CONST_SET") {
        Opcode::ConstSet
    } else if str_eq(name, "CONST_WRITE") {
        Opcode::ConstWrite
    } else if str_eq(name, "_OPT") || name.unicode_len() == 0 {
        Opcode::Nop
    } else {
        Opcode::Unknown
    }
}

/// A loop that is open: the lines between the command that opened it and its
/// `DONE`, and where the replay of them stands.
pub struct LoopBlock {
    /// The variable that keeps the loop going while it is not empty; `None`
    /// for a loop that goes on forever.
    pub guard: Option<String>,
    /// The lines of the body, trimmed, in the order in which they were read.
    /// The `DONE` that ends the body is not among them.
    pub lines: Vec<String>,
    /// The line that the replay runs next. At the end of the body, or past
    /// it, a pass is over and the guard is looked at.
    pub pos: usize,
    /// Whether the body is still being read.
    pub filling: bool,
}

/// A `LoopBlock` as plain values.
#[verifier::ext_equal]
pub struct LoopBlockView {
    pub guard: Option<Seq<char>>,
    pub lines: Seq<Seq<char>>,
    pub pos: nat,
    pub filling: bool,
}

/// An optional string slice as an optional sequence of characters.
pub open spec fn option_str_view(s: Option<&str>) -> Option<Seq<char>> {
    match s {
        Some(s) => Some(s@),
        None => None,
    }
}

/// An optional string as an optional sequence of characters.
pub open spec fn option_view(s: Option<String>) -> Option<Seq<char>> {
    match s {
        Some(s) => Some(s@),
        None => None,
    }
}

impl View for LoopBlock {
    type V = LoopBlockView;

    open spec fn view(&self) -> LoopBlockView {
        LoopBlockView {
            guard: option_view(self.guard),
            lines: self.lines@.map_values(|l: String| l@),
            pos: self.pos as nat,
            filling: self.filling,
        }
    }
}

/// The state of a script run: its variables, the loops that are open,
/// innermost last, and the variable that waits for a line of input.
pub struct Runtime {
    /// The runtime variables of the script.
    pub vars: VariableStore,
    /// The loops that are open, innermost last.
    pub loops: Vec<LoopBlock>,
    /// The variable that the next line of interactive input goes to.
    pub awaiting: Option<String>,
}

/// A `Runtime` as plain values.
#[verifier::ext_equal]
pub struct RuntimeView {
    pub vars: Map<Seq<char>, Seq<char>>,
    pub loops: Seq<LoopBlockView>,
    pub awaiting: Option<Seq<char>>,
}

impl View for Runtime {
    type V = RuntimeView;

    open spec fn view(&self) -> RuntimeView {
        RuntimeView {
            vars: self.vars@,
            loops: self.loops@.map_values(|b: LoopBlock| b@),
            awaiting: option_view(self.awaiting),
        }
    }
}

/// The variable that holds the constant `name`. Constants live in the same
/// store as the variables, under names that begin with a reserved prefix.
pub open spec fn const_slot(name: Seq<char>) -> Seq<char> {
    "_RBGN_INTERNAL_CONST_"@ + name
}

/// A loop that was just opened: no line read yet.
pub open spec fn opened_loop(guard: Option<Seq<char>>) -> LoopBlockView {
    LoopBlockView { guard, lines: Seq::empty(), pos: 0, filling: true }
}

/// `rt` with other variables.
pub open spec fn with_vars(rt: RuntimeView, vars: Map<Seq<char>, Seq<char>>) -> RuntimeView {
    RuntimeView { vars, ..rt }
}

/// What running one command does: the runtime after it, and the action that
/// it asks for or the error that it fails with. A command that fails leaves
/// the runtime as it was.
///
/// In the table, `v` is the value of the variable `arg1`, which is the empty
/// string where the variable is not set.
///
/// | name | effect |
/// |---|---|
/// | `READ` | the next line of input will go to `arg1` |
/// | `ECHO` | writes `v` and a newline |
/// | `NONL` | writes `v` and flushes |
/// | `__RBGN_NONL` | writes `v` |
/// | `__RBGN_FLUSH` | flushes |
/// | `WAIT`, `SLEEP`, `SLEEP_SECS` | sleeps for `arg1` seconds |
/// | `FIRST` | writes the first character of `v` and a newline; `arg1` keeps the rest |
/// | `STOREFIRST` | `arg2` gets the first character of `v`; then `arg1` gets the rest |
/// | `LAST` | writes the last character of `v` and a newline; `arg1` keeps the rest |
/// | `STORELAST` | `arg2` gets the last character of `v`; then `arg1` gets the rest |
/// | `FOREVER` | opens a loop without a guard |
/// | `STRGET` | opens a loop that runs while `arg1` is not empty |
/// | `STATIC_STR_VAR` | `arg1` gets the text `arg2` |
/// | `STATIC_STR_SPACE` | `arg1` gets one space |
/// | `CONST_SET` | the constant `arg1` gets the text `arg2` |
/// | `CONST_WRITE` | `arg2` gets the value of the constant `arg1` |
/// | `_OPT`, empty | nothing |
pub open spec fn interpret(cmd: CommandView, rt: RuntimeView) -> (
    RuntimeView,
    Result<ActionView, ScriptError>,
) {
    let v = lookup(rt.vars, cmd.arg1);
    let newline = seq!['\n'];
    match opcode_of(cmd.name) {
        Opcode::Read => (RuntimeView { awaiting: Some(cmd.arg1), ..rt }, Ok(ActionView::Continue)),
        Opcode::Echo => (rt, Ok(ActionView::Write { text: v + newline, flush: false })),
        Opcode::WriteRaw => (rt, Ok(ActionView::Write { text: v, flush: false })),
        Opcode::FlushRaw => (rt, Ok(ActionView::Flush)),
        Opcode::Wait => match seconds_of(cmd.arg1) {
            Some(secs) => (rt, Ok(ActionView::Sleep { secs })),
            None => (rt, Err(ScriptError::BadDuration)),
        },
        Opcode::Nonl => (rt, Ok(ActionView::Write { text: v, flush: true })),
        Opcode::First => if v.len() == 0 {
            (rt, Err(ScriptError::EmptyValue))
        } else {
            (
                with_vars(rt, rt.vars.insert(cmd.arg1, v.skip(1))),
                Ok(ActionView::Write { text: v.take(1) + newline, flush: false }),
            )
        },
        Opcode::StoreFirst => if v.len() == 0 {
            (rt, Err(ScriptError::EmptyValue))
        } else {
            (
                with_vars(rt, rt.vars.insert(cmd.arg2, v.take(1)).insert(cmd.arg1, v.skip(1))),
                Ok(ActionView::Continue),
            )
        },
        Opcode::Last => if v.len() == 0 {
            (rt, Err(ScriptError::EmptyValue))
        } else {
            (
                with_vars(rt, rt.vars.insert(cmd.arg1, v.drop_last())),
                Ok(ActionView::Write { text: v.skip(v.len() - 1) + newline, flush: false }),
            )
        },
        Opcode::StoreLast => if v.len() == 0 {
            (rt, Err(ScriptError::EmptyValue))
        } else {
            (
                with_vars(
                    rt,
                    rt.vars.insert(cmd.arg2, v.skip(v.len() - 1)).insert(cmd.arg1, v.drop_last()),
                ),
                Ok(ActionView::Continue),
            )
        },
        Opcode::Forever => (
            RuntimeView { loops: rt.loops.push(opened_loop(None)), ..rt },
            Ok(ActionView::Continue),
        ),
        Opcode::StrGet => (
            RuntimeView { loops: rt.loops.push(opened_loop(Some(cmd.arg1))), ..rt },
            Ok(ActionView::Continue),
        ),
        Opcode::StaticStrVar => (
            with_vars(rt, rt.vars.insert(cmd.arg1, cmd.arg2)),
            Ok(ActionView::Continue),
        ),
        Opcode::StaticStrSpace => (
            with_vars(rt, rt.vars.insert(cmd.arg1, seq![' '])),
            Ok(ActionView::Continue),
        ),
        Opcode::ConstSet => (
            with_vars(rt, rt.vars.insert(const_slot(cmd.arg1), cmd.arg2)),
            Ok(ActionView::Continue),
        ),
        Opcode::ConstWrite => (
            with_vars(rt, rt.vars.insert(cmd.arg2, lookup(rt.vars, const_slot(cmd.arg1)))),
            Ok(ActionView::Continue),
        ),
        Opcode::Nop => (rt, Ok(ActionView::Continue)),
        Opcode::Unknown => (rt, Err(ScriptError::UnknownCommand)),
    }
}

impl Runtime {
    /// A runtime at the start of a script: no variable set, no loop open.
    pub fn new() -> (runtime: Runtime)
        ensures
            runtime@.vars == Map::<Seq<char>, Seq<char>>::empty(),
            runtime@.loops.len() == 0,
            runtime@.awaiting is None,
    {
        Runtime { vars: VariableStore::new(), loops: Vec::new(), awaiting: None }
    }

    /// Opens a loop with the given guard.
    fn open_loop(&mut self, guard: Option<String>)
        ensures
            final(self)@ == (RuntimeView {
                loops: old(self)@.loops.push(opened_loop(option_view(guard))),
                ..old(self)@
            }),
    {
        let block = LoopBlock { guard, lines: Vec::new(), pos: 0, filling: true };
        proof {
            assert(block@.lines =~= Seq::<Seq<char>>::empty());
        }
        self.loops.push(block);
    }
}

/// The name of the variable that holds the constant `name`.
fn const_name(name: &str) -> (slot: String)
    ensures
        slot@ == const_slot(name@),
{
    String::from_str("_RBGN_INTERNAL_CONST_").concat(name)
}

/// Runs one command.
pub fn run_command(cmd: Command, runtime: &mut Runtime) -> (r: Result<Action, ScriptError>)
    ensures
        final(runtime)@ == interpret(cmd@, old(runtime)@).0,
        outcome_view(r) == interpret(cmd@, old(runtime)@).1,
{
    proof {
        reveal_strlit("\n");
        reveal_strlit(" ");
    }
    match decode(cmd.name) {
        Opcode::Read => {
            runtime.awaiting = Some(String::from_str(cmd.arg1));
            Ok(Action::Continue)
        },
        Opcode::Echo => {
            let mut text = getvar(&runtime.vars, cmd.arg1);
            text.append("\n");
            assert(text@ =~= lookup(runtime.vars@, cmd.arg1@) + seq!['\n']);
            Ok(Action::Write { text, flush: false })
        },
        Opcode::WriteRaw => Ok(Action::Write { text: getvar(&runtime.vars, cmd.arg1), flush: false }),
        Opcode::FlushRaw => Ok(Action::Flush),
        Opcode::Wait => match parse_seconds(cmd.arg1) {
            Some(secs) => Ok(Action::Sleep { secs }),
            None => Err(ScriptError::BadDuration),
        },
        Opcode::Nonl => Ok(Action::Write { text: getvar(&runtime.vars, cmd.arg1), flush: true }),
        Opcode::First => {
            let value = getvar(&runtime.vars, cmd.arg1);
            let n = value.as_str().unicode_len();
            if n == 0 {
                return Err(ScriptError::EmptyValue);
            }
            let mut text = String::from_str(value.as_str().substring_char(0, 1));
            text.append("\n");
            let rest = String::from_str(value.as_str().substring_char(1, n));
            assert(text@ =~= value@.take(1) + seq!['\n']);
            setvar(&mut runtime.vars, cmd.arg1, rest);
            Ok(Action::Write { text, flush: false })
        },
        Opcode::StoreFirst => {
            let value = getvar(&runtime.vars, cmd.arg1);
            let n = value.as_str().unicode_len();
            if n == 0 {
                return Err(ScriptError::EmptyValue);
            }
            let first = String::from_str(value.as_str().substring_char(0, 1));
            let rest = String::from_str(value.as_str().substring_char(1, n));
            setvar(&mut runtime.vars, cmd.arg2, first);
            setvar(&mut runtime.vars, cmd.arg1, rest);
            Ok(Action::Continue)
        },
        Opcode::Last => {
            let value = getvar(&runtime.vars, cmd.arg1);
            let n = value.as_str().unicode_len();
            if n == 0 {
                return Err(ScriptError::EmptyValue);
            }
            let mut text = String::from_str(value.as_str().substring_char(n - 1, n));
            text.append("\n");
            let rest = String::from_str(value.as_str().substring_char(0, n - 1));
            assert(text@ =~= value@.skip(n - 1) + seq!['\n']);
            setvar(&mut runtime.vars, cmd.arg1, rest);
            Ok(Action::Write { text, flush: false })
        },
        Opcode::StoreLast => {
            let value = getvar(&runtime.vars, cmd.arg1);
            let n = value.as_str().unicode_len();
            if n == 0 {
                return Err(ScriptError::EmptyValue);
            }
            let last = String::from_str(value.as_str().substring_char(n - 1, n));
            let rest = String::from_str(value.as_str().substring_char(0, n - 1));
            setvar(&mut runtime.vars, cmd.arg2, last);
            setvar(&mut runtime.vars, cmd.arg1, rest);
            Ok(Action::Continue)
        },
        Opcode::Forever => {
            runtime.open_loop(None);
            Ok(Action::Continue)
        },
        Opcode::StrGet => {
            runtime.open_loop(Some(String::from_str(cmd.arg1)));
            Ok(Action::Continue)
        },
        Opcode::StaticStrVar => {
            setvar(&mut runtime.vars, cmd.arg1, String::from_str(cmd.arg2));
            Ok(Action::Continue)
        },
        Opcode::StaticStrSpace => {
            let space = String::from_str(" ");
            assert(space@ =~= seq![' ']);
            setvar(&mut runtime.vars, cmd.arg1, space);
            Ok(Action::Continue)
        },
        Opcode::ConstSet => {
            let slot = const_name(cmd.arg1);
            setvar(&mut runtime.vars, slot.as_str(), String::from_str(cmd.arg2));
            Ok(Action::Continue)
        },
        Opcode::ConstWrite => {
            let slot = const_name(cmd.arg1);
            let value = getvar(&runtime.vars, slot.as_str());
            setvar(&mut runtime.vars, cmd.arg2, value);
            Ok(Action::Continue)
        },
        Opcode::Nop => Ok(Action::Continue),
        Opcode::Unknown => Err(ScriptError::UnknownCommand),
    }
}

/// Whether a loop with this guard runs another pass: always without a guard,
/// and with one while the variable it names is not empty.
pub open spec fn guard_holds(guard: Option<Seq<char>>, vars: Map<Seq<char>, Seq<char>>) -> bool {
    match guard {
        None => true,
        Some(x) => lookup(vars, x).len() > 0,
    }
}

/// `rt` with `block` in the place of its innermost loop.
pub open spec fn with_innermost(rt: RuntimeView, block: LoopBlockView) -> RuntimeView {
    RuntimeView { loops: rt.loops.update(rt.loops.len() - 1, block), ..rt }
}

/// What a line of the script does to the innermost loop while its body is
/// being read. The line is trimmed. `DONE`, or the end of the script, ends
/// the body: the loop is then ready for its first look at the guard. Any
/// other line joins the body. `DONE` itself is used up and never stored.
/// Where no loop is open, nothing changes.
pub open spec fn collect_line(rt: RuntimeView, line: Option<Seq<char>>) -> RuntimeView {
    if rt.loops.len() == 0 {
        rt
    } else {
        let top = rt.loops.last();
        match line {
            Some(l) if trim_of(l) != "DONE"@ => with_innermost(
                rt,
                LoopBlockView { lines: top.lines.push(trim_of(l)), ..top },
            ),
            _ => with_innermost(rt, LoopBlockView { filling: false, pos: top.lines.len(), ..top }),
        }
    }
}

/// One step of the replay of the innermost loop.
///
/// Between two passes (at the end of the body, which is also where a loop
/// starts) the guard is looked at: if it holds the next pass begins at the
/// first line, else the loop is closed. Within a pass the line at `pos` is
/// run as a command, after `pos` has moved on; the lines run in the order in
/// which they were read. Where no loop is open, nothing changes.
pub open spec fn replay_step(rt: RuntimeView) -> (RuntimeView, Result<ActionView, ScriptError>) {
    if rt.loops.len() == 0 {
        (rt, Ok(ActionView::Continue))
    } else {
        let top = rt.loops.last();
        if top.pos >= top.lines.len() {
            if guard_holds(top.guard, rt.vars) {
                (with_innermost(rt, LoopBlockView { pos: 0, ..top }), Ok(ActionView::Continue))
            } else {
                (RuntimeView { loops: rt.loops.drop_last(), ..rt }, Ok(ActionView::Continue))
            }
        } else {
            interpret(
                parse_line(top.lines[top.pos as int]),
                with_innermost(rt, LoopBlockView { pos: top.pos + 1, ..top }),
            )
        }
    }
}

/// What a line of interactive input does: the variable that waits for it
/// gets the line without its trailing whitespace. Where the input has ended
/// the script fails. Where no variable waits, nothing changes.
pub open spec fn take_input(rt: RuntimeView, line: Option<Seq<char>>) -> (
    RuntimeView,
    Result<ActionView, ScriptError>,
) {
    match rt.awaiting {
        None => (rt, Ok(ActionView::Continue)),
        Some(var) => match line {
            None => (rt, Err(ScriptError::EndOfInput)),
            Some(l) => (
                RuntimeView { vars: rt.vars.insert(var, trim_end_of(l)), awaiting: None, ..rt },
                Ok(ActionView::Continue),
            ),
        },
    }
}

impl Runtime {
    /// Puts `block` back as the innermost loop, after it was taken off.
    fn restore(&mut self, block: LoopBlock, Ghost(before): Ghost<RuntimeView>)
        requires
            before.loops.len() > 0,
            old(self)@ == (RuntimeView { loops: before.loops.drop_last(), ..before }),
        ensures
            final(self)@ == with_innermost(before, block@),
    {
        self.loops.push(block);
        assert(self@.loops =~= old(self)@.loops.push(block@));
    }

    /// Takes the innermost loop off.
    fn take_innermost(&mut self) -> (block: LoopBlock)
        requires
            old(self)@.loops.len() > 0,
        ensures
            block@ == old(self)@.loops.last(),
            final(self)@ == (RuntimeView { loops: old(self)@.loops.drop_last(), ..old(self)@ }),
    {
        self.loops.pop().unwrap()
    }

    /// Hands the next line of the script, or its end, to the loop whose body
    /// is being read.
    pub fn collect(&mut self, line: Option<&str>)
        ensures
            final(self)@ == collect_line(old(self)@, option_str_view(line)),
    {
        if self.loops.len() == 0 {
            return ;
        }
        let ghost before = self@;
        let mut top = self.take_innermost();
        match line {
            Some(l) => {
                let t = trim(l);
                if !str_eq(t, "DONE") {
                    let owned = String::from_str(t);
                    proof {
                        assert(top.lines@.push(owned).map_values(|l: String| l@)
                            =~= top.lines@.map_values(|l: String| l@).push(owned@));
                    }
                    top.lines.push(owned);
                    self.restore(top, Ghost(before));
                    return ;
                }
            },
            None => {},
        }
        top.filling = false;
        top.pos = top.lines.len();
        self.restore(top, Ghost(before));
    }

    /// Runs one step of the replay of the innermost loop.
    pub fn replay(&mut self) -> (r: Result<Action, ScriptError>)
        ensures
            final(self)@ == replay_step(old(self)@).0,
            outcome_view(r) == replay_step(old(self)@).1,
    {
        if self.loops.len() == 0 {
            return Ok(Action::Continue);
        }
        let ghost before = self@;
        let mut top = self.take_innermost();
        if top.pos >= top.lines.len() {
            let again = match &top.guard {
                None => true,
                Some(x) => match self.vars.get(x.as_str()) {
                    Some(value) => !value.as_str().is_empty(),
                    None => false,
                },
            };
            if again {
                top.pos = 0;
                self.restore(top, Ghost(before));
            }
            Ok(Action::Continue)
        } else {
            let line = top.lines[top.pos].clone();
            top.pos = top.pos + 1;
            self.restore(top, Ghost(before));
            let cmd = Command::new(&line);
            run_command(cmd, self)
        }
    }

    /// Hands a line of interactive input, or its end, to the variable that
    /// waits for it.
    pub fn accept_input(&mut self, line: Option<&str>) -> (r: Result<Action, ScriptError>)
        ensures
            final(self)@ == take_input(old(self)@, option_str_view(line)).0,
            outcome_view(r) == take_input(old(self)@, option_str_view(line)).1,
    {
        let var = match &self.awaiting {
            None => {
                return Ok(Action::Continue);
            },
            Some(var) => var.clone(),
        };
        match line {
            None => Err(ScriptError::EndOfInput),
            Some(l) => {
                setvar(&mut self.vars, var.as_str(), String::from_str(trim_end(l)));
                self.awaiting = None;
                Ok(Action::Continue)
            },
        }
    }
}

} // verus!
