//! The transpiler: the line of shell text that stands for a command.
//!
//! Only a few commands have a shell form. The others that the language
//! names are refused as not yet built, which is another failure than a name
//! that nobody knows.

use vstd::prelude::*;
use vstd::string::*;
use crate::action::{ScriptError, line_view};
use crate::command::{Command, CommandView};
use crate::text::str_eq;

verus! {

/// What the transpiler makes of a command name.
#[derive(Debug, Clone, Copy, PartialEq, Eq, Structural)]
pub enum ShellForm {
    /// `READ`
    Read,
    /// `ECHO`
    Echo,
    /// `COPY`, which only the transpiler knows
    Copy,
    /// The empty name of a comment or a blank line
    Nop,
    /// A command of the language that has no shell form yet
    Unbuilt,
    /// Any other name
    Unknown,
}

/// Whether `name` is a command that the language names but the transpiler
/// cannot compile yet.
pub open spec fn is_unbuilt(name: Seq<char>) -> bool {
    ||| name == "STDIN"@
    ||| name == "STRGET"@
    ||| name == "FIRST"@
    ||| name == "STOREFIRST"@
    ||| name == "LAST"@
    ||| name == "STORELAST"@
    ||| name == "NONL"@
    ||| name == "STOP"@
    ||| name == "KILL"@
    ||| name == "DONE"@
    ||| name == "REPEAT"@
    ||| name == "CHINC"@
    ||| name == "CHDEC"@
    ||| name == "STORECHINC"@
    ||| name == "STORECHDEC"@
    ||| name == "STRRANGE"@
    ||| name == "STRRANGELESS"@
    ||| name == "STRCAT"@
}

/// The shell form that a name stands for.
pub open spec fn shell_form_of(name: Seq<char>) -> ShellForm {
    if name == "READ"@ {
        ShellForm::Read
    } else if name == "ECHO"@ {
        ShellForm::Echo
    } else if name == "COPY"@ {
        ShellForm::Copy
    } else if name.len() == 0 {
        ShellForm::Nop
    } else if is_unbuilt(name) {
        ShellForm::Unbuilt
    } else {
        ShellForm::Unknown
    }
}

/// Looks a command name up in the transpiler's table.
pub fn shell_form(name: &str) -> (form: ShellForm)
    ensures
        form == shell_form_of(name@),
{
    if str_eq(name, "READ") {
        ShellForm::Read
    } else if str_eq(name, "ECHO") {
        ShellForm::Echo
    } else if str_eq(name, "COPY") {
        ShellForm::Copy
    } else if name.unicode_len() == 0 {
        ShellForm::Nop
    } else if str_eq(name, "STDIN") || str_eq(name, "STRGET") || str_eq(name, "FIRST") || str_eq(
        name,
        "STOREFIRST",
    ) || str_eq(name, "LAST") || str_eq(name, "STORELAST") || str_eq(name, "NONL") || str_eq(
        name,
        "STOP",
    ) || str_eq(name, "KILL") || str_eq(name, "DONE") || str_eq(name, "REPEAT") || str_eq(
        name,
        "CHINC",
    ) || str_eq(name, "CHDEC") || str_eq(name, "STORECHINC") || str_eq(name, "STORECHDEC")
        || str_eq(name, "STRRANGE") || str_eq(name, "STRRANGELESS") || str_eq(name, "STRCAT") {
        ShellForm::Unbuilt
    } else {
        ShellForm::Unknown
    }
}

/// The shell variable that stands for the script variable `name`.
pub open spec fn shell_var(name: Seq<char>) -> Seq<char> {
    "RUNTIME_"@ + name
}

/// The line of shell text that a command compiles to, if it compiles to one.
///
/// | name | shell text |
/// |---|---|
/// | `READ` | `read RUNTIME_arg1` |
/// | `ECHO` | `echo "$RUNTIME_arg1"` |
/// | `COPY` | `RUNTIME_arg1="$RUNTIME_arg2"` |
/// | empty | none |
pub open spec fn shell_text(cmd: CommandView) -> Result<Option<Seq<char>>, ScriptError> {
    match shell_form_of(cmd.name) {
        ShellForm::Read => Ok(Some("read "@ + shell_var(cmd.arg1))),
        ShellForm::Echo => Ok(Some("echo \"$"@ + shell_var(cmd.arg1) + "\""@)),
        ShellForm::Copy => Ok(
            Some(shell_var(cmd.arg1) + "=\"$"@ + shell_var(cmd.arg2) + "\""@),
        ),
        ShellForm::Nop => Ok(None),
        ShellForm::Unbuilt => Err(ScriptError::Unimplemented),
        ShellForm::Unknown => Err(ScriptError::UnknownCommand),
    }
}

/// The name of the shell variable that stands for `name`.
fn shell_name(name: &str) -> (var: String)
    ensures
        var@ == shell_var(name@),
{
    String::from_str("RUNTIME_").concat(name)
}

/// Compiles one command to shell text.
pub fn compile_command(cmd: &Command) -> (r: Result<Option<String>, ScriptError>)
    ensures
        line_view(r) == shell_text(cmd@),
{
    match shell_form(cmd.name) {
        ShellForm::Read => {
            let line = String::from_str("read ").concat(shell_name(cmd.arg1).as_str());
            Ok(Some(line))
        },
        ShellForm::Echo => {
            let line = String::from_str("echo \"$").concat(shell_name(cmd.arg1).as_str()).concat(
                "\"",
            );
            Ok(Some(line))
        },
        ShellForm::Copy => {
            let line = shell_name(cmd.arg1).concat("=\"$").concat(
                shell_name(cmd.arg2).as_str(),
            ).concat("\"");
            Ok(Some(line))
        },
        ShellForm::Nop => Ok(None),
        ShellForm::Unbuilt => Err(ScriptError::Unimplemented),
        ShellForm::Unknown => Err(ScriptError::UnknownCommand),
    }
}

/// A line as it is shown on the console: behind a fixed tag.
pub open spec fn tagged(line: Seq<char>) -> Seq<char> {
    "HRO | "@ + line
}

/// Puts the console tag before a compiled line.
pub fn tag_line(line: &str) -> (shown: String)
    ensures
        shown@ == tagged(line@),
{
    String::from_str("HRO | ").concat(line)
}

} // verus!
