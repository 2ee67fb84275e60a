//! A line-oriented scripting language: one command per line, each a name and
//! up to two arguments.
//!
//! A script is either interpreted against a variable store, or compiled
//! line by line into shell text. Nothing in this crate touches a file, a
//! terminal or the clock: the interpreter is a small-step machine that says
//! what its driver has to do next (write this text, sleep that long, hand
//! over the next line) and is told what came of it.
//!
//! To run one command:
//!
//! ```
//! use rbgn::{run_command, Command, Runtime};
//!
//! let mut runtime = Runtime::new();
//! let line = String::from("STATIC_STR_VAR my_var my_value");
//! run_command(Command::new(&line), &mut runtime).unwrap();
//! assert_eq!(runtime.vars.get("my_var").unwrap(), "my_value");
//! ```
//!
//! To run a whole script, implement [`InputReader`] for where its lines come
//! from and call [`step`] until it halts or fails:
//!
//! ```no_run
//! use rbgn::{step, Action, InputReader, RunMode, Runtime};
//!
//! fn run(script: &mut impl InputReader, input: &mut impl InputReader) {
//!     let mut runtime = Runtime::new();
//!     loop {
//!         match step(&mut runtime, RunMode::Interpret, script, input).unwrap() {
//!             Action::Write { text, .. } => print!("{}", text),
//!             Action::Halt => break,
//!             _ => {}
//!         }
//!     }
//! }
//! ```
//!
//! The modules: [`text`] and [`command`] take a line apart; [`store`] holds
//! the variables; [`interp`] says what each command does; [`shell`] compiles;
//! [`source`] and [`session`] run a script step by step; [`laws`] states what
//! holds of every script.

pub mod action;
pub mod command;
pub mod interp;
pub mod laws;
pub mod session;
pub mod shell;
pub mod source;
pub mod store;
pub mod text;

pub use action::{Action, ScriptError};
pub use command::Command;
pub use interp::{run_command, LoopBlock, Runtime};
pub use session::{proc_file_line, step, Event, Need, RunMode};
pub use shell::{compile_command, tag_line};
pub use source::{decode_line, InputReader};
pub use store::{getvar, setvar, VariableStore};
