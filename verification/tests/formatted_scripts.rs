use sheller::{
    Command, CommandExt, Environment, Event, Execution, ExitStatus, Mode, Platform, Request,
    Sheller, Step, VariableError, Verdict,
};
use std::path::Path;

fn unix() -> Environment {
    Environment { platform: Platform::Unix, shell: Err(VariableError::NotPresent) }
}

/// Answers every request as a host would on which each write succeeds and
/// the child exits with code 0. Gives the lines written and the verdict.
fn host(execution: Execution) -> (Vec<String>, Verdict) {
    let mut execution = execution;
    let mut lines = Vec::new();
    loop {
        let event = match execution.request() {
            Request::Notify(notification) => {
                lines.push(notification.line);
                Event::Completed
            }
            Request::Spawn => Event::Completed,
            Request::Wait => Event::Exited(ExitStatus { code: Some(0), signal: None }, None),
        };
        match execution.step(event) {
            Step::Next(next) => execution = next,
            Step::Done(verdict) => return (lines, verdict),
        }
    }
}

fn expect_success(execution: Execution, script: &str, mode: Mode) {
    assert_eq!(execution.command().program, "/bin/sh");
    assert_eq!(execution.command().args, vec!["-c".to_string(), script.to_string()]);
    expect_lines(execution, &format!("\"/bin/sh\" \"-c\" {:?}", script), mode);
}

fn expect_lines(execution: Execution, rendered: &str, mode: Mode) {
    assert_eq!(execution.mode(), mode);
    let (lines, verdict) = host(execution);
    assert_eq!(lines.len(), 2);
    assert_eq!(lines[0], format!("🐚 $ Running command: {rendered}"));
    assert_eq!(lines[1], format!("🐚 $ Succeeded to run command: {rendered}"));
    assert_eq!(verdict, Verdict::Return(Ok(None)));
}

#[test]
fn default_windows() {
    let environment =
        Environment { platform: Platform::Windows, shell: Err(VariableError::NotPresent) };
    let command = Sheller::new(&format!("echo hello"), &environment).build();
    let file_name = Path::new(&command.program).file_name().unwrap().to_str().unwrap();
    assert_eq!(file_name, "cmd.exe");
    assert_eq!(command.args, vec!["/D", "/S", "/C", "echo hello"]);
}

#[test]
fn default_unix() {
    let sheller = Sheller::new(&format!("echo hello"), &unix());
    let command = sheller.build();
    let file_name = Path::new(&command.program).file_name().unwrap().to_str().unwrap();
    assert!(file_name.ends_with("sh"));
    assert_eq!(command.args, vec!["-c", "echo hello"]);
}

#[test]
fn run() {
    expect_success(Sheller::new(&format!("echo hello"), &unix()).run(), "echo hello", Mode::Aborting);
}

#[test]
fn try_run() {
    let execution = Sheller::new(&format!("echo hello"), &unix()).try_run();
    expect_success(execution, "echo hello", Mode::Returning);
}

#[test]
fn command_ext_run() {
    let command = Command::new("echo");
    expect_lines(command.arg("hello").run(), "\"echo\" \"hello\"", Mode::Aborting);
}

#[test]
fn command_ext_try_run() {
    let command = Command::new("echo");
    expect_lines(command.arg("hello").try_run(), "\"echo\" \"hello\"", Mode::Returning);
}

#[test]
fn build_run() {
    let command = Sheller::new(&format!("echo hello"), &unix()).build();
    expect_success(command.run(), "echo hello", Mode::Aborting);
}

#[test]
fn build_try_run() {
    let command = Sheller::new(&format!("echo hello"), &unix()).build();
    expect_success(command.try_run(), "echo hello", Mode::Returning);
}

#[test]
fn new_run_literal() {
    let sheller = Sheller::new(&format!("echo hello"), &unix());
    expect_success(sheller.run(), "echo hello", Mode::Aborting);
}

#[test]
fn new_run_string() {
    let echo_hello = String::from("echo hello");
    let sheller = Sheller::new(&format!("{}", echo_hello), &unix());
    expect_success(sheller.run(), "echo hello", Mode::Aborting);
}

#[test]
fn new_run_format_positional_parameters() {
    let sheller = Sheller::new(&format!("echo {}", "hello"), &unix());
    expect_success(sheller.run(), "echo hello", Mode::Aborting);
}

#[test]
fn new_run_format_named_parameters() {
    let sheller = Sheller::new(&format!("echo {hello}", hello = "hello"), &unix());
    expect_success(sheller.run(), "echo hello", Mode::Aborting);
}

#[test]
fn new_run_format_positional_and_named_parameters() {
    let sheller = Sheller::new(&format!("echo {} {world}", "hello", world = "world"), &unix());
    expect_success(sheller.run(), "echo hello world", Mode::Aborting);
}

#[test]
fn new_run_format_named_parameters_in_scope() {
    let world = "world";
    let sheller = Sheller::new(&format!("echo {world}"), &unix());
    expect_success(sheller.run(), "echo world", Mode::Aborting);
}

#[test]
fn new_run_format_named_parameters_in_scope_and_positional_parameters() {
    let world = "world";
    let sheller = Sheller::new(&format!("echo {} {world}", "hello"), &unix());
    expect_success(sheller.run(), "echo hello world", Mode::Aborting);
}

#[test]
fn new_run_format_all_parameters() {
    let name = "sheller";
    let sheller = Sheller::new(&format!("echo {} {world}, {name}", "hello", world = "world"), &unix());
    expect_success(sheller.run(), "echo hello world, sheller", Mode::Aborting);
}

#[test]
fn run_literal() {
    expect_success(Sheller::new(&format!("echo hello"), &unix()).run(), "echo hello", Mode::Aborting);
}

#[test]
fn run_string() {
    let echo_hello = String::from("echo hello");
    expect_success(Sheller::new(&format!("{}", echo_hello), &unix()).run(), "echo hello", Mode::Aborting);
}

#[test]
fn run_format_positional_parameters() {
    expect_success(Sheller::new(&format!("echo {}", "hello"), &unix()).run(), "echo hello", Mode::Aborting);
}

#[test]
fn run_format_named_parameters() {
    expect_success(Sheller::new(&format!("echo {hello}", hello = "hello"), &unix()).run(), "echo hello", Mode::Aborting);
}

#[test]
fn run_format_positional_and_named_parameters() {
    expect_success(Sheller::new(&format!("echo {} {world}", "hello", world = "world"), &unix()).run(), "echo hello world", Mode::Aborting);
}

#[test]
fn run_format_named_parameters_in_scope() {
    let world = "world";
    expect_success(Sheller::new(&format!("echo {world}"), &unix()).run(), "echo world", Mode::Aborting);
}

#[test]
fn run_format_named_parameters_in_scope_and_positional_parameters() {
    let world = "world";
    expect_success(Sheller::new(&format!("echo {} {world}", "hello"), &unix()).run(), "echo hello world", Mode::Aborting);
}

#[test]
fn run_format_all_parameters() {
    let name = "sheller";
    expect_success(Sheller::new(&format!("echo {} {world}, {name}", "hello", world = "world"), &unix()).run(), "echo hello world, sheller", Mode::Aborting);
}

#[test]
fn try_run_literal() {
    expect_success(Sheller::new(&format!("echo hello"), &unix()).try_run(), "echo hello", Mode::Returning);
}

#[test]
fn try_run_string() {
    let echo_hello = "echo hello".to_string();
    expect_success(Sheller::new(&format!("{}", echo_hello), &unix()).try_run(), "echo hello", Mode::Returning);
}

#[test]
fn try_run_format_positional_parameters() {
    expect_success(Sheller::new(&format!("echo {}", "hello"), &unix()).try_run(), "echo hello", Mode::Returning);
}

#[test]
fn try_run_format_named_parameters() {
    expect_success(Sheller::new(&format!("echo {hello}", hello = "hello"), &unix()).try_run(), "echo hello", Mode::Returning);
}

#[test]
fn try_run_format_positional_and_named_parameters() {
    expect_success(Sheller::new(&format!("echo {} {world}", "hello", world = "world"), &unix()).try_run(), "echo hello world", Mode::Returning);
}

#[test]
fn try_run_format_named_parameters_in_scope() {
    let world = "world";
    expect_success(Sheller::new(&format!("echo {world}"), &unix()).try_run(), "echo world", Mode::Returning);
}

#[test]
fn try_run_format_named_parameters_in_scope_and_positional_parameters() {
    let world = "world";
    expect_success(Sheller::new(&format!("echo {} {world}", "hello"), &unix()).try_run(), "echo hello world", Mode::Returning);
}

#[test]
fn try_run_format_all_parameters() {
    let name = "sheller";
    expect_success(Sheller::new(&format!("echo {} {world}, {name}", "hello", world = "world"), &unix()).try_run(), "echo hello world, sheller", Mode::Returning);
}
