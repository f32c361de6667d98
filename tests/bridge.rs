use std::collections::HashMap;

use command_bridge::args::{check_args, Arg, ArgValue};
use command_bridge::dispatch::{
    dispatch, finish_read, finish_write, params, to_wire, FileOp, HostInfo, Reply, Request, Step,
};
use command_bridge::error::{BridgeError, ErrorKind};
use command_bridge::host::{get_platform, get_version, Platform};
use command_bridge::registry::{Command, Registry};

fn text(name: &str, value: &str) -> Arg {
    Arg { name: name.to_string(), value: ArgValue::Text(value.to_string()) }
}

fn request(command: &str, args: Vec<Arg>) -> Request {
    Request { command: command.to_string(), args }
}

fn host() -> HostInfo {
    HostInfo { os: "linux".to_string(), built_version: Some("0.4.2".to_string()) }
}

fn expect_error(r: Result<Reply, BridgeError>, kind: ErrorKind, detail: &str) {
    match r {
        Err(e) => {
            assert_eq!(e.kind, kind);
            assert_eq!(e.detail, detail);
        }
        Ok(v) => panic!("expected an error, got {:?}", v),
    }
}

fn expect_done(step: Step) -> Result<Reply, BridgeError> {
    match step {
        Step::Done(r) => r,
        Step::Perform(op) => panic!("expected a result, got {:?}", op),
    }
}

/// Runs a request to its end against an in-memory stand-in for the filesystem.
fn run(reg: &Registry, files: &mut HashMap<String, String>, req: &Request) -> Result<Reply, BridgeError> {
    match dispatch(reg, &host(), req) {
        Step::Done(r) => r,
        Step::Perform(FileOp::Read { path }) => finish_read(
            files.get(&path).cloned().ok_or_else(|| "No such file or directory (os error 2)".to_string()),
        ),
        Step::Perform(FileOp::Write { path, content }) => {
            files.insert(path, content);
            finish_write(Ok(()))
        }
    }
}

#[test]
fn platform_known_identifier_is_reported_unchanged() {
    for os in ["linux", "macos", "ios", "freebsd", "dragonfly", "netbsd", "openbsd", "solaris", "android", "windows"] {
        assert_eq!(get_platform(os), os);
    }
}

#[test]
fn platform_other_identifier_is_unknown() {
    assert_eq!(get_platform("haiku"), "unknown");
    assert_eq!(get_platform(""), "unknown");
    assert_eq!(get_platform("Linux"), "unknown");
    assert_eq!(Platform::from_name("windows"), Platform::Windows);
    assert_eq!(Platform::Macos.name(), "macos");
}

#[test]
fn version_falls_back_when_absent_or_empty() {
    assert_eq!(get_version(None), "1.0.0");
    assert_eq!(get_version(Some("")), "1.0.0");
    assert_eq!(get_version(Some("2.3.4")), "2.3.4");
}

#[test]
fn standard_registry_resolves_each_command() {
    let reg = Registry::standard();
    assert_eq!(reg.resolve(&"get_platform".to_string()).unwrap(), Command::GetPlatform);
    assert_eq!(reg.resolve(&"get_version".to_string()).unwrap(), Command::GetVersion);
    assert_eq!(reg.resolve(&"read_file".to_string()).unwrap(), Command::ReadFile);
    assert_eq!(reg.resolve(&"write_file".to_string()).unwrap(), Command::WriteFile);
    let e = reg.resolve(&"delete_file".to_string()).unwrap_err();
    assert_eq!(e.kind, ErrorKind::UnknownCommand);
    assert_eq!(e.detail, "delete_file");
}

#[test]
fn duplicate_registration_is_refused() {
    let mut reg = Registry::new();
    assert!(reg.register("read_file".to_string(), Command::ReadFile).is_ok());
    let e = reg.register("read_file".to_string(), Command::WriteFile).unwrap_err();
    assert_eq!(e.kind, ErrorKind::DuplicateCommand);
    assert_eq!(e.detail, "read_file");
    assert_eq!(e.message(), "duplicate command: read_file");
    assert_eq!(reg.resolve(&"read_file".to_string()).unwrap(), Command::ReadFile);
}

#[test]
fn unknown_command_is_rejected_without_effect() {
    let reg = Registry::standard();
    let mut files = HashMap::new();
    let req = request("format_disk", vec![text("path", "/tmp/a.txt")]);
    expect_error(run(&reg, &mut files, &req), ErrorKind::UnknownCommand, "format_disk");
    assert!(files.is_empty());
    let wire = to_wire(expect_done(dispatch(&reg, &host(), &req)));
    assert_eq!(wire, Err("unknown command: format_disk".to_string()));
}

#[test]
fn queries_are_answered_at_once() {
    let reg = Registry::standard();
    match expect_done(dispatch(&reg, &host(), &request("get_platform", vec![]))) {
        Ok(Reply::Text(s)) => assert_eq!(s, "linux"),
        other => panic!("{:?}", other),
    }
    match expect_done(dispatch(&reg, &host(), &request("get_version", vec![]))) {
        Ok(Reply::Text(s)) => assert_eq!(s, "0.4.2"),
        other => panic!("{:?}", other),
    }
    let bare = HostInfo { os: "plan9".to_string(), built_version: None };
    match expect_done(dispatch(&reg, &bare, &request("get_version", vec![]))) {
        Ok(Reply::Text(s)) => assert_eq!(s, "1.0.0"),
        other => panic!("{:?}", other),
    }
    match expect_done(dispatch(&reg, &bare, &request("get_platform", vec![]))) {
        Ok(Reply::Text(s)) => assert_eq!(s, "unknown"),
        other => panic!("{:?}", other),
    }
}

#[test]
fn missing_argument_is_an_argument_error() {
    let reg = Registry::standard();
    let r = expect_done(dispatch(&reg, &host(), &request("write_file", vec![text("path", "/tmp/a.txt")])));
    expect_error(r, ErrorKind::ArgumentError, "missing argument content");
}

#[test]
fn wrong_typed_argument_is_an_argument_error() {
    let reg = Registry::standard();
    let args = vec![Arg { name: "path".to_string(), value: ArgValue::Number(7) }];
    let r = expect_done(dispatch(&reg, &host(), &request("read_file", args)));
    expect_error(r, ErrorKind::ArgumentError, "argument is not a string path");
    let args = vec![Arg { name: "path".to_string(), value: ArgValue::Null }];
    let r = expect_done(dispatch(&reg, &host(), &request("read_file", args)));
    expect_error(r, ErrorKind::ArgumentError, "argument is not a string path");
}

#[test]
fn extra_argument_is_an_argument_error() {
    let reg = Registry::standard();
    let r = expect_done(dispatch(&reg, &host(), &request("get_platform", vec![text("verbose", "yes")])));
    expect_error(r, ErrorKind::ArgumentError, "unexpected argument verbose");
    let args = vec![text("path", "/a"), text("path", "/b")];
    let r = expect_done(dispatch(&reg, &host(), &request("read_file", args)));
    expect_error(r, ErrorKind::ArgumentError, "repeated argument path");
    let wire = to_wire(expect_done(dispatch(&reg, &host(), &request("get_version", vec![text("x", "")]))));
    assert_eq!(wire, Err("invalid arguments: unexpected argument x".to_string()));
}

#[test]
fn arguments_are_returned_in_parameter_order() {
    let ps = params(Command::WriteFile);
    let args = vec![text("content", "hello"), text("path", "/tmp/a.txt")];
    let t = check_args(&ps, &args).unwrap();
    assert_eq!(t, vec!["/tmp/a.txt".to_string(), "hello".to_string()]);
    assert!(check_args(&params(Command::GetPlatform), &vec![]).unwrap().is_empty());
}

#[test]
fn file_commands_hand_the_operation_to_the_host() {
    let reg = Registry::standard();
    let w = request("write_file", vec![text("path", "/tmp/a.txt"), text("content", "hello")]);
    match dispatch(&reg, &host(), &w) {
        Step::Perform(FileOp::Write { path, content }) => {
            assert_eq!(path, "/tmp/a.txt");
            assert_eq!(content, "hello");
        }
        other => panic!("{:?}", other),
    }
    match dispatch(&reg, &host(), &request("read_file", vec![text("path", "/tmp/a.txt")])) {
        Step::Perform(FileOp::Read { path }) => assert_eq!(path, "/tmp/a.txt"),
        other => panic!("{:?}", other),
    }
}

#[test]
fn write_then_read_returns_content() {
    let reg = Registry::standard();
    let mut files = HashMap::new();
    let w = request("write_file", vec![text("path", "/tmp/a.txt"), text("content", "hello")]);
    assert!(matches!(run(&reg, &mut files, &w), Ok(Reply::Unit)));
    let r = request("read_file", vec![text("path", "/tmp/a.txt")]);
    assert_eq!(to_wire(run(&reg, &mut files, &r)), Ok(Some("hello".to_string())));
    let w2 = request("write_file", vec![text("content", ""), text("path", "/tmp/a.txt")]);
    assert!(run(&reg, &mut files, &w2).is_ok());
    assert_eq!(to_wire(run(&reg, &mut files, &r)), Ok(Some(String::new())));
}

#[test]
fn read_of_missing_file_is_an_io_error() {
    let reg = Registry::standard();
    let mut files = HashMap::new();
    let r = request("read_file", vec![text("path", "/tmp/missing.txt")]);
    let out = run(&reg, &mut files, &r);
    expect_error(out, ErrorKind::IOError, "No such file or directory (os error 2)");
    let wire = to_wire(run(&reg, &mut files, &r)).unwrap_err();
    assert!(wire.contains("No such file"));
}

#[test]
fn host_outcomes_are_converted() {
    match finish_read(Ok("abc".to_string())) {
        Ok(Reply::Text(s)) => assert_eq!(s, "abc"),
        other => panic!("{:?}", other),
    }
    expect_error(finish_write(Err("Permission denied (os error 13)".to_string())), ErrorKind::IOError, "Permission denied (os error 13)");
    assert!(matches!(finish_write(Ok(())), Ok(Reply::Unit)));
    assert_eq!(to_wire(Ok(Reply::Unit)), Ok(None));
    let e = BridgeError::new(ErrorKind::IOError, "disk full".to_string());
    assert_eq!(e.message(), "disk full");
}
