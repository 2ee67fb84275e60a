//! One line of a script, taken apart into a name and two arguments.

use vstd::prelude::*;
use vstd::string::*;
use crate::text::{head_of, lemma_first_space, split_space, tail_of, trim, trim_of};

verus! {

/// One script instruction: a name and two arguments, each a part of the line
/// it was read from.
#[derive(Debug, Clone, Copy)]
pub struct Command<'a> {
    /// The command name (e.g. `ECHO`).
    pub name: &'a str,
    /// The first argument of the command.
    pub arg1: &'a str,
    /// The second argument of the command.
    pub arg2: &'a str,
}

/// What a `Command` holds, as sequences of characters.
pub struct CommandView {
    pub name: Seq<char>,
    pub arg1: Seq<char>,
    pub arg2: Seq<char>,
}

impl<'a> View for Command<'a> {
    type V = CommandView;

    open spec fn view(&self) -> CommandView {
        CommandView { name: self.name@, arg1: self.arg1@, arg2: self.arg2@ }
    }
}

/// The command with an empty name and no arguments, which does nothing.
pub open spec fn empty_command() -> CommandView {
    CommandView { name: Seq::empty(), arg1: Seq::empty(), arg2: Seq::empty() }
}

/// Whether a trimmed line is a comment: it begins with `-`.
pub open spec fn is_comment(t: Seq<char>) -> bool {
    t.len() > 0 && t[0] == '-'
}

/// The command that a line writes.
///
/// The line is trimmed. A comment gives the empty command. Any other line is
/// cut at its first two spaces: what stands before the first is the name,
/// what stands between them is the first argument, and all that follows the
/// second is the second argument, further spaces included. A part that the
/// line does not reach is empty. There is no quoting: a run of spaces makes
/// empty fields.
pub open spec fn parse_line(line: Seq<char>) -> CommandView {
    let t = trim_of(line);
    if is_comment(t) {
        empty_command()
    } else {
        match tail_of(t) {
            None => CommandView { name: head_of(t), arg1: Seq::empty(), arg2: Seq::empty() },
            Some(rest) => match tail_of(rest) {
                None => CommandView { name: head_of(t), arg1: head_of(rest), arg2: Seq::empty() },
                Some(last) => CommandView { name: head_of(t), arg1: head_of(rest), arg2: last },
            },
        }
    }
}

impl<'a> Command<'a> {
    /// Creates a new command from a line.
    pub fn new(line: &'a String) -> (cmd: Command<'a>)
        ensures
            cmd@ == parse_line(line@),
    {
        let empty: &'static str = "";
        proof {
            reveal_strlit("");
            assert(empty@ =~= Seq::<char>::empty());
        }
        let t = trim(line.as_str());
        if t.unicode_len() > 0 && t.get_char(0) == '-' {
            return Command { name: empty, arg1: empty, arg2: empty };
        }
        let (name, after_name) = split_space(t);
        match after_name {
            None => Command { name, arg1: empty, arg2: empty },
            Some(rest) => {
                let (arg1, after_arg1) = split_space(rest);
                match after_arg1 {
                    None => Command { name, arg1, arg2: empty },
                    Some(arg2) => Command { name, arg1, arg2 },
                }
            },
        }
    }
}

/// A line that is no comment is its fields with one space between them: the
/// first two spaces of the trimmed line separate, and all that follows the
/// second is the second argument as it stands. Neither the name nor the first
/// argument holds a space.
pub proof fn lemma_fields_rejoin(line: Seq<char>)
    requires
        !is_comment(trim_of(line)),
    ensures
        !parse_line(line).name.contains(' '),
        !parse_line(line).arg1.contains(' '),
        ({
            let t = trim_of(line);
            let c = parse_line(line);
            let sp = seq![' '];
            match tail_of(t) {
                None => t == c.name && c.arg1.len() == 0 && c.arg2.len() == 0,
                Some(rest) => match tail_of(rest) {
                    None => t == c.name + sp + c.arg1 && c.arg2.len() == 0,
                    Some(_) => t == c.name + sp + c.arg1 + sp + c.arg2,
                },
            }
        }),
{
    let t = trim_of(line);
    lemma_first_space(t);
    match tail_of(t) {
        Some(rest) => lemma_first_space(rest),
        None => {},
    }
}

} // verus!
