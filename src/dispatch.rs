//! The dispatcher. A request is resolved through the registry, its arguments
//! are checked, and then either the answer is computed at once (the two host
//! queries) or the file operation to perform is handed back to the host. The
//! host performs it and passes the outcome to `finish_read` or
//! `finish_write`, which turn it into the invocation's result.

use vstd::prelude::*;
use crate::args::{
    arg_problem, arg_texts, check_args, first_bad_param, first_stray, text_of, texts, value_of, Arg,
};
use crate::error::{fails_with, BridgeError, ErrorKind};
use crate::host::{get_platform, get_version, version_spec, Platform};
use crate::registry::{standard_table, Command, Registry};

verus! {

/// A request from the front-end: a command name and its arguments.
#[derive(Clone, Debug)]
pub struct Request {
    pub command: String,
    pub args: Vec<Arg>,
}

/// What the host knows of itself from startup: the operating-system
/// identifier it was built for, and the version recorded at build time.
#[derive(Clone, Debug)]
pub struct HostInfo {
    pub os: String,
    pub built_version: Option<String>,
}

impl HostInfo {
    pub open spec fn built_view(&self) -> Option<Seq<char>> {
        match self.built_version {
            Some(v) => Some(v@),
            None => None,
        }
    }
}

/// A success value: text, or nothing.
#[derive(Clone, Debug)]
pub enum Reply {
    Text(String),
    Unit,
}

impl View for Reply {
    type V = Option<Seq<char>>;

    open spec fn view(&self) -> Option<Seq<char>> {
        match self {
            Reply::Text(s) => Some(s@),
            Reply::Unit => None,
        }
    }
}

/// A filesystem operation for the host to perform.
#[derive(Clone, Debug)]
pub enum FileOp {
    /// Read the whole text of the file at `path`.
    Read { path: String },
    /// Create or replace the file at `path`, with `content` as its text.
    Write { path: String, content: String },
}

/// What the dispatcher decided: the invocation's result, or an operation
/// that the host must perform first.
#[derive(Debug)]
pub enum Step {
    Done(Result<Reply, BridgeError>),
    Perform(FileOp),
}

/// The meaning of an invocation's result.
pub type Outcome = Result<Option<Seq<char>>, (ErrorKind, Seq<char>)>;

pub open spec fn outcome_of(r: Result<Reply, BridgeError>) -> Outcome {
    match r {
        Ok(v) => Ok(v@),
        Err(e) => Err(e@),
    }
}

/// The meaning of a step.
pub enum StepModel {
    Done(Outcome),
    Read(Seq<char>),
    Write(Seq<char>, Seq<char>),
}

impl View for Step {
    type V = StepModel;

    open spec fn view(&self) -> StepModel {
        match self {
            Step::Done(r) => StepModel::Done(outcome_of(*r)),
            Step::Perform(FileOp::Read { path }) => StepModel::Read(path@),
            Step::Perform(FileOp::Write { path, content }) => StepModel::Write(path@, content@),
        }
    }
}

/// The parameters each command expects, in order.
pub open spec fn params_of(c: Command) -> Seq<Seq<char>> {
    match c {
        Command::GetPlatform => seq![],
        Command::GetVersion => seq![],
        Command::ReadFile => seq!["path"@],
        Command::WriteFile => seq!["path"@, "content"@],
    }
}

/// The parameters a command expects, in order.
pub fn params(c: Command) -> (r: Vec<String>)
    ensures
        texts(r@) == params_of(c),
{
    let r = match c {
        Command::GetPlatform => Vec::new(),
        Command::GetVersion => Vec::new(),
        Command::ReadFile => vec!["path".to_owned()],
        Command::WriteFile => vec!["path".to_owned(), "content".to_owned()],
    };
    assert(texts(r@) =~= params_of(c));
    r
}

/// The platform identifier reported for an operating-system identifier.
pub open spec fn platform_spec(os: Seq<char>) -> Seq<char> {
    Platform::from_name_spec(os).name_spec()
}

/// What a request to the registry `table` comes to, on a host with
/// operating-system identifier `os` and build-time version `built`.
pub open spec fn step_spec(
    table: Map<Seq<char>, Command>,
    os: Seq<char>,
    built: Option<Seq<char>>,
    name: Seq<char>,
    args: Seq<Arg>,
) -> StepModel {
    if !table.contains_key(name) {
        StepModel::Done(Err((ErrorKind::UnknownCommand, name)))
    } else {
        let c = table[name];
        match arg_problem(params_of(c), args) {
            Some(d) => StepModel::Done(Err((ErrorKind::ArgumentError, d))),
            None => {
                let t = arg_texts(params_of(c), args);
                match c {
                    Command::GetPlatform => StepModel::Done(Ok(Some(platform_spec(os)))),
                    Command::GetVersion => StepModel::Done(Ok(Some(version_spec(built)))),
                    Command::ReadFile => StepModel::Read(t[0]),
                    Command::WriteFile => StepModel::Write(t[0], t[1]),
                }
            },
        }
    }
}

/// Decides a request. An unregistered name yields `UnknownCommand` and
/// arguments that do not fit yield `ArgumentError`, both before anything is
/// performed; the two queries are answered at once; a file command yields
/// the operation for the host to perform.
pub fn dispatch(registry: &Registry, host: &HostInfo, request: &Request) -> (r: Step)
    requires
        registry.wf(),
    ensures
        r@ == step_spec(registry@, host.os@, host.built_view(), request.command@, request.args@),
        !registry@.contains_key(request.command@) ==> r@ == StepModel::Done(
            Err((ErrorKind::UnknownCommand, request.command@)),
        ),
{
    let c = match registry.resolve(&request.command) {
        Ok(c) => c,
        Err(e) => {
            return Step::Done(Err(e));
        },
    };
    let ps = params(c);
    let t = match check_args(&ps, &request.args) {
        Ok(t) => t,
        Err(e) => {
            return Step::Done(Err(e));
        },
    };
    assert(arg_problem(params_of(c), request.args@) is None);
    assert(texts(t@) == arg_texts(params_of(c), request.args@));
    assert(texts(t@).len() == t@.len());
    match c {
        Command::GetPlatform => Step::Done(Ok(Reply::Text(get_platform(host.os.as_str())))),
        Command::GetVersion => {
            let built: Option<&str> = match &host.built_version {
                Some(v) => Some(v.as_str()),
                None => None,
            };
            Step::Done(Ok(Reply::Text(get_version(built))))
        },
        Command::ReadFile => {
            assert(texts(t@)[0] == t@[0]@);
            Step::Perform(FileOp::Read { path: t[0].clone() })
        },
        Command::WriteFile => {
            assert(texts(t@)[0] == t@[0]@ && texts(t@)[1] == t@[1]@);
            Step::Perform(FileOp::Write { path: t[0].clone(), content: t[1].clone() })
        },
    }
}

/// Through the standard registry, a `write_file` request with path `p` and
/// content `c` has the host write exactly `c` to `p`, and a `read_file`
/// request with path `p` has it read `p`; `finish_read` then returns the text
/// read, unchanged. So whenever the file holds what was written, writing and
/// then reading returns the content written.
pub proof fn lemma_file_text_passes_through(
    os: Seq<char>,
    built: Option<Seq<char>>,
    write_args: Seq<Arg>,
    read_args: Seq<Arg>,
    p: Seq<char>,
    c: Seq<char>,
)
    requires
        write_args.len() == 2,
        write_args[0].name@ == "path"@,
        text_of(write_args[0].value) == Some(p),
        write_args[1].name@ == "content"@,
        text_of(write_args[1].value) == Some(c),
        read_args.len() == 1,
        read_args[0].name@ == "path"@,
        text_of(read_args[0].value) == Some(p),
    ensures
        step_spec(standard_table(), os, built, "write_file"@, write_args) == StepModel::Write(p, c),
        step_spec(standard_table(), os, built, "read_file"@, read_args) == StepModel::Read(p),
{
    reveal_strlit("path");
    reveal_strlit("content");
    assert("path"@.len() == 4 && "content"@.len() == 7);
    let wp = params_of(Command::WriteFile);
    let rp = params_of(Command::ReadFile);
    assert(wp.contains("path"@) && wp[0] == "path"@);
    assert(wp.contains("content"@) && wp[1] == "content"@);
    assert(rp.contains("path"@) && rp[0] == "path"@);
    assert(first_stray(wp, write_args, 2) is None);
    assert(first_stray(wp, write_args, 1) is None);
    assert(first_stray(wp, write_args, 0) is None);
    assert(first_stray(rp, read_args, 1) is None);
    assert(first_stray(rp, read_args, 0) is None);
    assert(value_of(write_args, "path"@, 0) == Some(write_args[0].value));
    assert(value_of(write_args, "content"@, 2) is None);
    assert(value_of(write_args, "content"@, 1) == Some(write_args[1].value));
    assert(value_of(write_args, "content"@, 0) == Some(write_args[1].value));
    assert(value_of(read_args, "path"@, 0) == Some(read_args[0].value));
    assert(first_bad_param(wp, write_args, 2) is None);
    assert(first_bad_param(wp, write_args, 1) is None);
    assert(first_bad_param(wp, write_args, 0) is None);
    assert(first_bad_param(rp, read_args, 1) is None);
    assert(first_bad_param(rp, read_args, 0) is None);
    reveal_strlit("read_file");
    reveal_strlit("write_file");
    assert("read_file"@.len() == 9 && "write_file"@.len() == 10);
    assert(standard_table()["write_file"@] == Command::WriteFile);
    assert(standard_table()["read_file"@] == Command::ReadFile);
}

/// The result of a read, given what the host's read returned: the text, or
/// an `IOError` carrying the host's message.
pub fn finish_read(outcome: Result<String, String>) -> (r: Result<Reply, BridgeError>)
    ensures
        outcome_of(r) == match outcome {
            Ok(s) => Ok(Some(s@)),
            Err(m) => Outcome::Err((ErrorKind::IOError, m@)),
        },
{
    match outcome {
        Ok(s) => Ok(Reply::Text(s)),
        Err(m) => Err(BridgeError::new(ErrorKind::IOError, m)),
    }
}

/// The result of a write, given what the host's write returned: nothing, or
/// an `IOError` carrying the host's message.
pub fn finish_write(outcome: Result<(), String>) -> (r: Result<Reply, BridgeError>)
    ensures
        outcome_of(r) == match outcome {
            Ok(_) => Outcome::Ok(None),
            Err(m) => Outcome::Err((ErrorKind::IOError, m@)),
        },
{
    match outcome {
        Ok(_) => Ok(Reply::Unit),
        Err(m) => Err(BridgeError::new(ErrorKind::IOError, m)),
    }
}

/// The result as it crosses the boundary: the success value, or the error's
/// message.
pub fn to_wire(r: Result<Reply, BridgeError>) -> (w: Result<Option<String>, String>)
    ensures
        match r {
            Ok(Reply::Text(s)) => w matches Ok(Some(t)) && t@ == s@,
            Ok(Reply::Unit) => w matches Ok(None),
            Err(e) => w matches Err(m) && m@ == crate::error::message_spec(e@),
        },
{
    match r {
        Ok(Reply::Text(s)) => Ok(Some(s)),
        Ok(Reply::Unit) => Ok(None),
        Err(e) => Err(e.message()),
    }
}

} // verus!
