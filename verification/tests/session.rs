use linereader::LineReader;
use rbgn::{decode_line, getvar, run_command, setvar, step};
use rbgn::{Action, Command, Event, InputReader, Need, RunMode, Runtime, ScriptError};
use std::io::{Error, ErrorKind, Read};

struct LineReaderWrapper<R: Read> {
    reader: LineReader<R>,
}

impl<R: Read> LineReaderWrapper<R> {
    fn new(input: R) -> LineReaderWrapper<R> {
        LineReaderWrapper { reader: LineReader::new(input) }
    }
}

impl<R: Read> InputReader for LineReaderWrapper<R> {
    fn next_line(&mut self) -> Option<Result<Vec<u8>, Error>> {
        self.reader.next_line().map(|line| line.map(|bytes| bytes.to_vec()))
    }
}

struct Broken;

impl InputReader for Broken {
    fn next_line(&mut self) -> Option<Result<Vec<u8>, Error>> {
        Some(Err(Error::new(ErrorKind::Other, "broken")))
    }
}

/// Runs a script to its end, or for `limit` steps, and returns what it wrote
/// and how it ended.
fn drive(
    rt: &mut Runtime,
    mode: RunMode,
    script: &str,
    input: &str,
    limit: usize,
) -> (String, Option<Result<(), ScriptError>>) {
    let mut script = LineReaderWrapper::new(script.as_bytes());
    let mut input = LineReaderWrapper::new(input.as_bytes());
    let mut out = String::new();
    for _ in 0..limit {
        match step(rt, mode, &mut script, &mut input) {
            Ok(Action::Halt) => return (out, Some(Ok(()))),
            Ok(Action::Write { text, .. }) => out.push_str(&text),
            Ok(Action::Emit { line }) => {
                out.push_str(&line);
                out.push('\n');
            }
            Ok(_) => {}
            Err(e) => return (out, Some(Err(e))),
        }
    }
    (out, None)
}

#[test]
fn test_vars() {
    let mut reader = LineReaderWrapper::new("STATIC_STR_VAR our_variable our_content".as_bytes());
    let mut runtime = Runtime::new();
    let line = &String::from(std::str::from_utf8(&reader.next_line().unwrap().unwrap()).unwrap());
    let cmd = Command::new(line);
    run_command(cmd, &mut runtime).unwrap();
    assert_eq!(runtime.vars.get("our_variable").unwrap(), "our_content");
}

#[test]
fn strget_with_first_spells_the_variable() {
    let mut rt = Runtime::new();
    setvar(&mut rt.vars, "x", String::from("ab"));
    let (out, end) = drive(&mut rt, RunMode::Interpret, "STRGET x\nFIRST x\nDONE\n", "", 100);
    assert_eq!(out, "a\nb\n");
    assert_eq!(end, Some(Ok(())));
    assert_eq!(getvar(&rt.vars, "x"), "");
    assert!(rt.loops.is_empty());
}

#[test]
fn strget_on_an_empty_variable_skips_its_body() {
    let mut rt = Runtime::new();
    let script = "STRGET x\nECHO never\nNOPE\nDONE\nSTATIC_STR_VAR after yes\n";
    let (out, end) = drive(&mut rt, RunMode::Interpret, script, "", 100);
    assert_eq!(out, "");
    assert_eq!(end, Some(Ok(())));
    assert_eq!(getvar(&rt.vars, "after"), "yes");
}

#[test]
fn body_lines_replay_in_the_order_read() {
    let mut rt = Runtime::new();
    let script = "STATIC_STR_VAR x abc\nSTATIC_STR_VAR s -\nSTRGET x\n  LAST x\n  __RBGN_NONL s\n- note\nDONE\nECHO x\n";
    let (out, end) = drive(&mut rt, RunMode::Interpret, script, "", 100);
    assert_eq!(out, "c\n-b\n-a\n-\n");
    assert_eq!(end, Some(Ok(())));
}

#[test]
fn done_is_used_up_and_never_stored() {
    let mut rt = Runtime::new();
    let mut script = LineReaderWrapper::new("STRGET x\nECHO a\n  DONE  \nECHO b\n".as_bytes());
    let mut input = LineReaderWrapper::new("".as_bytes());
    for _ in 0..3 {
        assert_eq!(step(&mut rt, RunMode::Interpret, &mut script, &mut input), Ok(Action::Continue));
    }
    assert_eq!(rt.loops.len(), 1);
    assert_eq!(rt.loops[0].lines, vec![String::from("ECHO a")]);
    assert!(!rt.loops[0].filling);
    assert_eq!(rt.need(), Need::Replay);
    assert_eq!(step(&mut rt, RunMode::Interpret, &mut script, &mut input), Ok(Action::Continue));
    assert_eq!(rt.need(), Need::Command);
    assert_eq!(
        step(&mut rt, RunMode::Interpret, &mut script, &mut input),
        Ok(Action::Write { text: String::from("\n"), flush: false })
    );
}

#[test]
fn end_of_script_closes_a_body() {
    let mut rt = Runtime::new();
    setvar(&mut rt.vars, "x", String::from("ab"));
    let (out, end) = drive(&mut rt, RunMode::Interpret, "STRGET x\nFIRST x", "", 100);
    assert_eq!(out, "a\nb\n");
    assert_eq!(end, Some(Ok(())));
}

#[test]
fn forever_never_ends() {
    let mut rt = Runtime::new();
    setvar(&mut rt.vars, "x", String::from("tick"));
    let (out, end) = drive(&mut rt, RunMode::Interpret, "FOREVER\nECHO x\nDONE\nECHO x\n", "", 3 + 2 * 5);
    assert_eq!(out, "tick\n".repeat(5));
    assert_eq!(end, None);
    assert_eq!(rt.loops.len(), 1);
}

#[test]
fn first_done_closes_the_nearest_loop() {
    let mut rt = Runtime::new();
    setvar(&mut rt.vars, "x", String::from("a"));
    setvar(&mut rt.vars, "y", String::from("pq"));
    let script = "STRGET x\nSTRGET y\nFIRST x\nDONE\nFIRST y\nDONE\nECHO y\n";
    let (out, end) = drive(&mut rt, RunMode::Interpret, script, "", 100);
    assert_eq!(out, "p\nq\na\n\n");
    assert_eq!(end, Some(Ok(())));
}

#[test]
fn failure_inside_a_loop_stops_the_run() {
    let mut rt = Runtime::new();
    setvar(&mut rt.vars, "x", String::from("ab"));
    let script = "STRGET x\nFIRST x\nFIRST x\nFIRST x\nDONE\n";
    let (out, end) = drive(&mut rt, RunMode::Interpret, script, "", 100);
    assert_eq!(out, "a\nb\n");
    assert_eq!(end, Some(Err(ScriptError::EmptyValue)));
}

#[test]
fn read_stores_the_line_without_trailing_whitespace() {
    let mut rt = Runtime::new();
    let (out, end) = drive(&mut rt, RunMode::Interpret, "READ a\nREAD b\nECHO a\nECHO b\n", "  Ann \r\nBob", 100);
    assert_eq!(out, "  Ann\nBob\n");
    assert_eq!(end, Some(Ok(())));
}

#[test]
fn read_at_the_end_of_input_fails() {
    let mut rt = Runtime::new();
    let (out, end) = drive(&mut rt, RunMode::Interpret, "READ a\nECHO a\n", "", 100);
    assert_eq!(out, "");
    assert_eq!(end, Some(Err(ScriptError::EndOfInput)));
}

#[test]
fn unknown_command_stops_the_run() {
    let mut rt = Runtime::new();
    let (out, end) = drive(&mut rt, RunMode::Interpret, "STATIC_STR_VAR x 1\nECHO x\nBOGUS\nECHO x\n", "", 100);
    assert_eq!(out, "1\n");
    assert_eq!(end, Some(Err(ScriptError::UnknownCommand)));
}

#[test]
fn comment_line_changes_nothing() {
    let mut rt = Runtime::new();
    setvar(&mut rt.vars, "x", String::from("v"));
    let (out, end) = drive(&mut rt, RunMode::Interpret, "- this is a comment\n", "", 100);
    assert_eq!(out, "");
    assert_eq!(end, Some(Ok(())));
    assert_eq!(getvar(&rt.vars, "x"), "v");
    assert!(rt.vars.get("this").is_none());
    assert!(rt.loops.is_empty() && rt.awaiting.is_none());
}

#[test]
fn compile_mode_emits_shell_text() {
    let mut rt = Runtime::new();
    let (out, end) = drive(&mut rt, RunMode::Compile, "READ x\n- say it back\nECHO x\n", "", 100);
    assert_eq!(out, "read RUNTIME_x\necho \"$RUNTIME_x\"\n");
    assert_eq!(end, Some(Ok(())));
}

#[test]
fn compile_mode_fails_on_first() {
    let mut rt = Runtime::new();
    let (out, end) = drive(&mut rt, RunMode::Compile, "READ x\nFIRST x\nECHO x\n", "", 100);
    assert_eq!(out, "read RUNTIME_x\n");
    assert_eq!(end, Some(Err(ScriptError::Unimplemented)));
}

#[test]
fn compile_mode_fails_on_an_unknown_name() {
    let mut rt = Runtime::new();
    let (_, end) = drive(&mut rt, RunMode::Compile, "WAIT 1\n", "", 100);
    assert_eq!(end, Some(Err(ScriptError::UnknownCommand)));
}

#[test]
fn bytes_that_are_not_utf8_fail_the_run() {
    let mut rt = Runtime::new();
    let mut script = LineReaderWrapper::new(&b"ECHO \xff\n"[..]);
    let mut input = LineReaderWrapper::new("".as_bytes());
    assert_eq!(step(&mut rt, RunMode::Interpret, &mut script, &mut input), Err(ScriptError::InvalidUtf8));
}

#[test]
fn a_fault_of_the_reader_fails_the_run() {
    let mut rt = Runtime::new();
    let mut input = LineReaderWrapper::new("".as_bytes());
    assert_eq!(step(&mut rt, RunMode::Interpret, &mut Broken, &mut input), Err(ScriptError::Io));
    let mut script = LineReaderWrapper::new("READ x\n".as_bytes());
    assert_eq!(step(&mut rt, RunMode::Interpret, &mut script, &mut Broken), Ok(Action::Continue));
    assert_eq!(step(&mut rt, RunMode::Interpret, &mut script, &mut Broken), Err(ScriptError::Io));
    assert_eq!(rt.need(), Need::Input);
}

#[test]
fn decode_line_decodes_utf8() {
    assert_eq!(decode_line(None), Ok(None));
    assert_eq!(decode_line(Some(Ok(b"ECHO x\n".to_vec()))), Ok(Some(String::from("ECHO x\n"))));
    assert_eq!(
        decode_line(Some(Ok(vec![0xe2, 0x82, 0xac, 0x20, 0xc3, 0xa9]))),
        Ok(Some(String::from("€ é")))
    );
    assert_eq!(decode_line(Some(Ok(vec![]))), Ok(Some(String::new())));
    assert_eq!(decode_line(Some(Ok(vec![0xc3]))), Err(ScriptError::InvalidUtf8));
    assert_eq!(decode_line(Some(Ok(vec![0xed, 0xa0, 0x80]))), Err(ScriptError::InvalidUtf8));
    assert_eq!(decode_line(Some(Ok(vec![0xc0, 0x80]))), Err(ScriptError::InvalidUtf8));
    assert_eq!(
        decode_line(Some(Err(Error::new(ErrorKind::Other, "x")))),
        Err(ScriptError::Io)
    );
}

#[test]
fn advance_takes_events_in_turn() {
    let mut rt = Runtime::new();
    assert_eq!(rt.need(), Need::Command);
    assert_eq!(rt.advance(RunMode::Interpret, Event::Tick), Err(ScriptError::OutOfTurn));
    assert_eq!(
        rt.advance(RunMode::Interpret, Event::Line(Some(String::from("STRGET x")))),
        Ok(Action::Continue)
    );
    assert_eq!(rt.need(), Need::BlockLine);
    assert_eq!(rt.advance(RunMode::Interpret, Event::Tick), Err(ScriptError::OutOfTurn));
    assert_eq!(
        rt.advance(RunMode::Interpret, Event::Line(Some(String::from("READ x")))),
        Ok(Action::Continue)
    );
    assert_eq!(rt.advance(RunMode::Interpret, Event::Line(None)), Ok(Action::Continue));
    assert_eq!(rt.need(), Need::Replay);
    assert_eq!(
        rt.advance(RunMode::Interpret, Event::Line(Some(String::from("ECHO x")))),
        Err(ScriptError::OutOfTurn)
    );
    assert_eq!(rt.advance(RunMode::Interpret, Event::Tick), Ok(Action::Continue));
    assert_eq!(rt.need(), Need::Command);
    assert_eq!(rt.advance(RunMode::Interpret, Event::Line(None)), Ok(Action::Halt));
}

#[test]
fn advance_hands_input_to_read() {
    let mut rt = Runtime::new();
    assert_eq!(
        rt.advance(RunMode::Interpret, Event::Line(Some(String::from("READ x")))),
        Ok(Action::Continue)
    );
    assert_eq!(rt.need(), Need::Input);
    assert_eq!(rt.advance(RunMode::Interpret, Event::Tick), Err(ScriptError::OutOfTurn));
    assert_eq!(
        rt.advance(RunMode::Interpret, Event::Line(Some(String::from(" typed \n")))),
        Ok(Action::Continue)
    );
    assert_eq!(getvar(&rt.vars, "x"), " typed");
    assert_eq!(rt.need(), Need::Command);
}

#[test]
fn nested_loop_reads_its_body_when_it_runs() {
    let mut rt = Runtime::new();
    setvar(&mut rt.vars, "x", String::from("a"));
    setvar(&mut rt.vars, "y", String::from("b"));
    let script = "STRGET x\nFIRST x\nSTRGET y\nDONE\nFIRST y\nDONE\n";
    let (out, end) = drive(&mut rt, RunMode::Interpret, script, "", 100);
    assert_eq!(out, "a\nb\n");
    assert_eq!(end, Some(Ok(())));
    assert!(rt.loops.is_empty());
}
