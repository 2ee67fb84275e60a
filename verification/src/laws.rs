//! What holds of every script: laws of the commands, stated over the
//! functions that say what the commands do.

use vstd::prelude::*;
use vstd::string::*;
use crate::action::{ActionView, ScriptError};
use crate::command::{CommandView, empty_command, is_comment, parse_line};
use crate::interp::{
    LoopBlockView,
    Opcode,
    RuntimeView,
    const_slot,
    interpret,
    opcode_of,
    replay_step,
    with_innermost,
};
use crate::session::{EventView, RunMode, advance_of, process_line};
use crate::shell::{ShellForm, shell_form_of, shell_text};
use crate::store::lookup;
use crate::text::{head_of, lemma_trim_of_trimmed, trim_of};

verus! {

/// What tells the names of the tables apart: the length of a name and its
/// first two characters.
spec fn stamp(name: Seq<char>) -> (nat, char, char) {
    (name.len(), name[0], name[1])
}

/// Every name of the interpreter's table stands for its own command, and the
/// empty name for none.
pub proof fn lemma_opcode_names()
    ensures
        opcode_of("READ"@) == Opcode::Read,
        opcode_of("ECHO"@) == Opcode::Echo,
        opcode_of("__RBGN_NONL"@) == Opcode::WriteRaw,
        opcode_of("__RBGN_FLUSH"@) == Opcode::FlushRaw,
        opcode_of("WAIT"@) == Opcode::Wait,
        opcode_of("SLEEP"@) == Opcode::Wait,
        opcode_of("SLEEP_SECS"@) == Opcode::Wait,
        opcode_of("NONL"@) == Opcode::Nonl,
        opcode_of("FIRST"@) == Opcode::First,
        opcode_of("STOREFIRST"@) == Opcode::StoreFirst,
        opcode_of("LAST"@) == Opcode::Last,
        opcode_of("STORELAST"@) == Opcode::StoreLast,
        opcode_of("FOREVER"@) == Opcode::Forever,
        opcode_of("STRGET"@) == Opcode::StrGet,
        opcode_of("STATIC_STR_VAR"@) == Opcode::StaticStrVar,
        opcode_of("STATIC_STR_SPACE"@) == Opcode::StaticStrSpace,
        opcode_of("CONST_SET"@) == Opcode::ConstSet,
        opcode_of("CONST_WRITE"@) == Opcode::ConstWrite,
        opcode_of("_OPT"@) == Opcode::Nop,
        opcode_of(Seq::empty()) == Opcode::Nop,
{
    reveal_strlit("READ");
    assert(stamp("READ"@) == (4nat, 'R', 'E'));
    reveal_strlit("ECHO");
    assert(stamp("ECHO"@) == (4nat, 'E', 'C'));
    reveal_strlit("__RBGN_NONL");
    assert(stamp("__RBGN_NONL"@) == (11nat, '_', '_'));
    reveal_strlit("__RBGN_FLUSH");
    assert(stamp("__RBGN_FLUSH"@) == (12nat, '_', '_'));
    reveal_strlit("WAIT");
    assert(stamp("WAIT"@) == (4nat, 'W', 'A'));
    reveal_strlit("SLEEP");
    assert(stamp("SLEEP"@) == (5nat, 'S', 'L'));
    reveal_strlit("SLEEP_SECS");
    assert(stamp("SLEEP_SECS"@) == (10nat, 'S', 'L'));
    reveal_strlit("NONL");
    assert(stamp("NONL"@) == (4nat, 'N', 'O'));
    reveal_strlit("FIRST");
    assert(stamp("FIRST"@) == (5nat, 'F', 'I'));
    reveal_strlit("STOREFIRST");
    assert(stamp("STOREFIRST"@) == (10nat, 'S', 'T'));
    reveal_strlit("LAST");
    assert(stamp("LAST"@) == (4nat, 'L', 'A'));
    reveal_strlit("STORELAST");
    assert(stamp("STORELAST"@) == (9nat, 'S', 'T'));
    reveal_strlit("FOREVER");
    assert(stamp("FOREVER"@) == (7nat, 'F', 'O'));
    reveal_strlit("STRGET");
    assert(stamp("STRGET"@) == (6nat, 'S', 'T'));
    reveal_strlit("STATIC_STR_VAR");
    assert(stamp("STATIC_STR_VAR"@) == (14nat, 'S', 'T'));
    reveal_strlit("STATIC_STR_SPACE");
    assert(stamp("STATIC_STR_SPACE"@) == (16nat, 'S', 'T'));
    reveal_strlit("CONST_SET");
    assert(stamp("CONST_SET"@) == (9nat, 'C', 'O'));
    reveal_strlit("CONST_WRITE");
    assert(stamp("CONST_WRITE"@) == (11nat, 'C', 'O'));
    reveal_strlit("_OPT");
    assert(stamp("_OPT"@) == (4nat, '_', 'O'));
}

/// `STATIC_STR_VAR x s` leaves `x` holding exactly `s`, whatever `s` is, and
/// touches nothing else of the runtime but the variables.
pub proof fn lemma_static_str_var_sets(rt: RuntimeView, x: Seq<char>, s: Seq<char>)
    ensures
        ({
            let cmd = CommandView { name: "STATIC_STR_VAR"@, arg1: x, arg2: s };
            let (after, r) = interpret(cmd, rt);
            &&& r == Ok::<ActionView, ScriptError>(ActionView::Continue)
            &&& lookup(after.vars, x) == s
            &&& after.vars == rt.vars.insert(x, s)
            &&& after.loops == rt.loops
            &&& after.awaiting == rt.awaiting
        }),
{
    lemma_opcode_names();
}

/// The runtime after `cmd` has been run `n` times in a row, each run taken
/// whether or not it failed.
pub open spec fn repeated(cmd: CommandView, rt: RuntimeView, n: nat) -> RuntimeView
    decreases n,
{
    if n == 0 {
        rt
    } else {
        interpret(cmd, repeated(cmd, rt, (n - 1) as nat)).0
    }
}

/// `FIRST x` on a variable that holds a non-empty `s` writes the first
/// character of `s` and a newline, and leaves `x` holding the rest of `s`.
pub proof fn lemma_first_takes_one(rt: RuntimeView, cmd: CommandView)
    requires
        cmd.name == "FIRST"@,
        lookup(rt.vars, cmd.arg1).len() > 0,
    ensures
        ({
            let s = lookup(rt.vars, cmd.arg1);
            let (after, r) = interpret(cmd, rt);
            &&& r == Ok::<ActionView, ScriptError>(
                ActionView::Write { text: seq![s[0], '\n'], flush: false },
            )
            &&& lookup(after.vars, cmd.arg1) == s.skip(1)
        }),
{
    lemma_opcode_names();
    let s = lookup(rt.vars, cmd.arg1);
    assert(s.take(1) + seq!['\n'] =~= seq![s[0], '\n']);
}

/// `FIRST x` run `k` times on a variable that holds `s`, with `k` no more
/// than the length of `s`, leaves `x` holding `s` without its first `k`
/// characters. The next run writes the character of `s` at `k`, if there is
/// one. If there is none, which is after as many runs as `s` has characters,
/// `x` is empty and the next run fails.
pub proof fn lemma_first_drains(rt: RuntimeView, cmd: CommandView, k: nat)
    requires
        cmd.name == "FIRST"@,
        k <= lookup(rt.vars, cmd.arg1).len(),
    ensures
        ({
            let s = lookup(rt.vars, cmd.arg1);
            let before = repeated(cmd, rt, k);
            let r = interpret(cmd, before).1;
            &&& lookup(before.vars, cmd.arg1) == s.skip(k as int)
            &&& k < s.len() ==> r == Ok::<ActionView, ScriptError>(
                ActionView::Write { text: seq![s[k as int], '\n'], flush: false },
            )
            &&& k == s.len() ==> lookup(before.vars, cmd.arg1).len() == 0 && r == Err::<
                ActionView,
                ScriptError,
            >(ScriptError::EmptyValue)
        }),
    decreases k,
{
    lemma_opcode_names();
    if k > 0 {
        let j = (k - 1) as nat;
        lemma_first_drains(rt, cmd, j);
        lemma_first_takes_one(repeated(cmd, rt, j), cmd);
    }
    if k < lookup(rt.vars, cmd.arg1).len() {
        lemma_first_takes_one(repeated(cmd, rt, k), cmd);
    }
}

/// The variable that holds a constant is never the variable of the same name.
pub proof fn lemma_const_slot_apart(name: Seq<char>)
    ensures
        const_slot(name) != name,
{
    reveal_strlit("_RBGN_INTERNAL_CONST_");
}

/// `CONST_SET k v` followed by `CONST_WRITE k y` leaves `y` holding `v`. The
/// variable named `k` has no part in it: `CONST_SET` leaves it as it was, and
/// setting it between the two commands changes nothing of the outcome.
pub proof fn lemma_const_round_trip(
    rt: RuntimeView,
    k: Seq<char>,
    v: Seq<char>,
    y: Seq<char>,
    w: Seq<char>,
)
    ensures
        ({
            let set = CommandView { name: "CONST_SET"@, arg1: k, arg2: v };
            let write = CommandView { name: "CONST_WRITE"@, arg1: k, arg2: y };
            let assign = CommandView { name: "STATIC_STR_VAR"@, arg1: k, arg2: w };
            let after_set = interpret(set, rt).0;
            let after_assign = interpret(assign, after_set).0;
            &&& lookup(interpret(write, after_set).0.vars, y) == v
            &&& lookup(interpret(write, after_assign).0.vars, y) == v
            &&& lookup(after_set.vars, k) == lookup(rt.vars, k)
            &&& interpret(set, rt).1 == Ok::<ActionView, ScriptError>(ActionView::Continue)
            &&& interpret(write, after_set).1 == Ok::<ActionView, ScriptError>(
                ActionView::Continue,
            )
        }),
{
    lemma_opcode_names();
    lemma_const_slot_apart(k);
}

/// Every name of the transpiler's table stands for its own shell form: three
/// commands compile, the empty name compiles to nothing, and the commands
/// that are not built yet are refused as such.
pub proof fn lemma_shell_names()
    ensures
        shell_form_of("READ"@) == ShellForm::Read,
        shell_form_of("ECHO"@) == ShellForm::Echo,
        shell_form_of("COPY"@) == ShellForm::Copy,
        shell_form_of(Seq::empty()) == ShellForm::Nop,
        shell_form_of("STDIN"@) == ShellForm::Unbuilt,
        shell_form_of("STRGET"@) == ShellForm::Unbuilt,
        shell_form_of("FIRST"@) == ShellForm::Unbuilt,
        shell_form_of("STOREFIRST"@) == ShellForm::Unbuilt,
        shell_form_of("LAST"@) == ShellForm::Unbuilt,
        shell_form_of("STORELAST"@) == ShellForm::Unbuilt,
        shell_form_of("NONL"@) == ShellForm::Unbuilt,
        shell_form_of("STOP"@) == ShellForm::Unbuilt,
        shell_form_of("KILL"@) == ShellForm::Unbuilt,
        shell_form_of("DONE"@) == ShellForm::Unbuilt,
        shell_form_of("REPEAT"@) == ShellForm::Unbuilt,
        shell_form_of("CHINC"@) == ShellForm::Unbuilt,
        shell_form_of("CHDEC"@) == ShellForm::Unbuilt,
        shell_form_of("STORECHINC"@) == ShellForm::Unbuilt,
        shell_form_of("STORECHDEC"@) == ShellForm::Unbuilt,
        shell_form_of("STRRANGE"@) == ShellForm::Unbuilt,
        shell_form_of("STRRANGELESS"@) == ShellForm::Unbuilt,
        shell_form_of("STRCAT"@) == ShellForm::Unbuilt,
{
    reveal_strlit("READ");
    assert(stamp("READ"@) == (4nat, 'R', 'E'));
    reveal_strlit("ECHO");
    assert(stamp("ECHO"@) == (4nat, 'E', 'C'));
    reveal_strlit("COPY");
    assert(stamp("COPY"@) == (4nat, 'C', 'O'));
    reveal_strlit("STDIN");
    assert(stamp("STDIN"@) == (5nat, 'S', 'T'));
    reveal_strlit("STRGET");
    assert(stamp("STRGET"@) == (6nat, 'S', 'T'));
    reveal_strlit("FIRST");
    assert(stamp("FIRST"@) == (5nat, 'F', 'I'));
    reveal_strlit("STOREFIRST");
    assert(stamp("STOREFIRST"@) == (10nat, 'S', 'T'));
    reveal_strlit("LAST");
    assert(stamp("LAST"@) == (4nat, 'L', 'A'));
    reveal_strlit("STORELAST");
    assert(stamp("STORELAST"@) == (9nat, 'S', 'T'));
    reveal_strlit("NONL");
    assert(stamp("NONL"@) == (4nat, 'N', 'O'));
    reveal_strlit("STOP");
    assert(stamp("STOP"@) == (4nat, 'S', 'T'));
    reveal_strlit("KILL");
    assert(stamp("KILL"@) == (4nat, 'K', 'I'));
    reveal_strlit("DONE");
    assert(stamp("DONE"@) == (4nat, 'D', 'O'));
    reveal_strlit("REPEAT");
    assert(stamp("REPEAT"@) == (6nat, 'R', 'E'));
    reveal_strlit("CHINC");
    assert(stamp("CHINC"@) == (5nat, 'C', 'H'));
    reveal_strlit("CHDEC");
    assert(stamp("CHDEC"@) == (5nat, 'C', 'H'));
    reveal_strlit("STORECHINC");
    assert(stamp("STORECHINC"@) == (10nat, 'S', 'T'));
    reveal_strlit("STORECHDEC");
    assert(stamp("STORECHDEC"@) == (10nat, 'S', 'T'));
    reveal_strlit("STRRANGE");
    assert(stamp("STRRANGE"@) == (8nat, 'S', 'T'));
    reveal_strlit("STRRANGELESS");
    assert(stamp("STRRANGELESS"@) == (12nat, 'S', 'T'));
    reveal_strlit("STRCAT");
    assert(stamp("STRCAT"@) == (6nat, 'S', 'T'));
}

/// A command that is not built yet fails to compile, whatever its arguments:
/// `FIRST x` is one.
pub proof fn lemma_first_does_not_compile(arg1: Seq<char>, arg2: Seq<char>)
    ensures
        shell_text(CommandView { name: "FIRST"@, arg1, arg2 }) == Err::<
            Option<Seq<char>>,
            ScriptError,
        >(ScriptError::Unimplemented),
{
    lemma_shell_names();
}

/// A comment, which is a line whose first character after trimming is `-`,
/// does nothing in either mode: the runtime stays as it is and nothing is
/// written, emitted or waited for.
pub proof fn lemma_comment_does_nothing(mode: RunMode, line: Seq<char>, rt: RuntimeView)
    requires
        is_comment(trim_of(line)),
    ensures
        parse_line(line) == empty_command(),
        process_line(mode, line, rt) == (rt, Ok::<ActionView, ScriptError>(ActionView::Continue)),
{
    lemma_opcode_names();
    lemma_shell_names();
}

/// A blank line, which is one that holds nothing but whitespace, does
/// nothing in either mode.
pub proof fn lemma_blank_line_does_nothing(mode: RunMode, line: Seq<char>, rt: RuntimeView)
    requires
        trim_of(line).len() == 0,
    ensures
        parse_line(line) == empty_command(),
        process_line(mode, line, rt) == (rt, Ok::<ActionView, ScriptError>(ActionView::Continue)),
{
    lemma_opcode_names();
    lemma_shell_names();
    assert(head_of(trim_of(line)) =~= Seq::<char>::empty());
}

/// Whether the bodies of all open loops are as they are meant to be: every
/// line in them is trimmed, and none of them is the `DONE` that ends a body.
pub open spec fn bodies_are_clean(rt: RuntimeView) -> bool {
    forall|i: int, j: int|
        0 <= i < rt.loops.len() && 0 <= j < rt.loops[i].lines.len() ==> {
            let line = #[trigger] rt.loops[i].lines[j];
            line != "DONE"@ && trim_of(line) == line
        }
}

/// No command puts a line into the body of a loop.
pub proof fn lemma_interpret_keeps_bodies_clean(cmd: CommandView, rt: RuntimeView)
    requires
        bodies_are_clean(rt),
    ensures
        bodies_are_clean(interpret(cmd, rt).0),
{
}

/// `DONE` is used up where it is read: whatever a run is handed, no step of it
/// stores a `DONE` in the body of a loop, nor a line that is not trimmed.
pub proof fn lemma_done_is_never_stored(rt: RuntimeView, mode: RunMode, event: EventView)
    requires
        bodies_are_clean(rt),
    ensures
        bodies_are_clean(advance_of(rt, mode, event).0),
{
    match event {
        EventView::Tick => {
            if rt.loops.len() > 0 && rt.loops.last().pos < rt.loops.last().lines.len() {
                let top = rt.loops.last();
                let moved = with_innermost(rt, LoopBlockView { pos: top.pos + 1, ..top });
                lemma_interpret_keeps_bodies_clean(parse_line(top.lines[top.pos as int]), moved);
            }
        },
        EventView::Line(Some(line)) => {
            lemma_trim_of_trimmed(line);
            lemma_interpret_keeps_bodies_clean(parse_line(line), rt);
        },
        EventView::Line(None) => {},
    }
}

/// The text that a step asked to be written, if it asked for any.
pub open spec fn written(r: Result<ActionView, ScriptError>) -> Seq<Seq<char>> {
    match r {
        Ok(ActionView::Write { text, flush }) => seq![text],
        _ => Seq::empty(),
    }
}

/// The runtime after `n` steps of replay, and the texts that these steps
/// asked to be written, in order.
pub open spec fn replayed(rt: RuntimeView, n: nat) -> (RuntimeView, Seq<Seq<char>>)
    decreases n,
{
    if n == 0 {
        (rt, Seq::empty())
    } else {
        let (next, r) = replay_step(rt);
        let (last, rest) = replayed(next, (n - 1) as nat);
        (last, written(r) + rest)
    }
}

/// The characters of `s`, each on a line of its own.
pub open spec fn spelled(s: Seq<char>) -> Seq<Seq<char>> {
    Seq::new(s.len(), |i: int| seq![s[i], '\n'])
}

/// A `STRGET x` loop whose body is the one line `FIRST x` spells `x`: from
/// the moment its body has been read, it writes the characters of the value
/// of `x` one by one, in order, each followed by a newline. It takes two
/// steps for each character and one more to find `x` empty; then the loop is
/// closed, `x` is empty, and nothing else has changed.
pub proof fn lemma_strget_first_spells(rt: RuntimeView, x: Seq<char>)
    requires
        rt.loops.len() > 0,
        rt.loops.last().guard == Some(x),
        rt.loops.last().lines.len() == 1,
        parse_line(rt.loops.last().lines[0]).name == "FIRST"@,
        parse_line(rt.loops.last().lines[0]).arg1 == x,
        rt.loops.last().pos >= 1,
    ensures
        ({
            let s = lookup(rt.vars, x);
            let (after, out) = replayed(rt, 2 * s.len() + 1);
            &&& out == spelled(s)
            &&& lookup(after.vars, x).len() == 0
            &&& after.vars.remove(x) == rt.vars.remove(x)
            &&& after.loops == rt.loops.drop_last()
            &&& after.awaiting == rt.awaiting
        }),
    decreases lookup(rt.vars, x).len(),
{
    lemma_opcode_names();
    let s = lookup(rt.vars, x);
    let (checked, r0) = replay_step(rt);
    if s.len() == 0 {
        // The guard fails at once: one step closes the loop.
        assert(replayed(checked, 0) == (checked, Seq::<Seq<char>>::empty()));
    } else {
        // One step finds the guard to hold, the next takes a character; what
        // is left is the same loop on a shorter string.
        let (taken, r1) = replay_step(checked);
        lemma_first_takes_one(checked, parse_line(rt.loops.last().lines[0]));
        lemma_strget_first_spells(taken, x);
        let m = (2 * (s.len() - 1) + 1) as nat;
        let (after, rest) = replayed(taken, m);
        assert(replayed(checked, (m + 1) as nat) == (after, written(r1) + rest));
    }
}

} // verus!
