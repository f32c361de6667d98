//! Invocation arguments and their validation against the parameters that a
//! command expects. Every parameter is a string; an argument list fits a
//! command when it names each parameter exactly once and nothing else.

use vstd::prelude::*;
use crate::error::{fails_with, BridgeError, ErrorKind};

verus! {

/// A primitive argument value, as the front-end sends it.
#[derive(Clone, Debug)]
pub enum ArgValue {
    Null,
    Bool(bool),
    Number(i64),
    Text(String),
}

/// A named argument.
#[derive(Clone, Debug)]
pub struct Arg {
    pub name: String,
    pub value: ArgValue,
}

/// The text an argument value holds, if it is a string.
pub open spec fn text_of(v: ArgValue) -> Option<Seq<char>> {
    match v {
        ArgValue::Text(s) => Some(s@),
        _ => None,
    }
}

/// The argument at `i` names no parameter, or repeats an earlier name.
pub open spec fn is_stray(params: Seq<Seq<char>>, args: Seq<Arg>, i: int) -> bool {
    ||| !params.contains(args[i].name@)
    ||| exists|j: int| 0 <= j < i && args[j].name@ == args[i].name@
}

/// The first stray argument at or after `i`.
pub open spec fn first_stray(params: Seq<Seq<char>>, args: Seq<Arg>, i: nat) -> Option<nat>
    decreases args.len() - i,
{
    if i >= args.len() {
        None
    } else if is_stray(params, args, i as int) {
        Some(i)
    } else {
        first_stray(params, args, i + 1)
    }
}

/// The value of the first argument at or after `i` that is called `name`.
pub open spec fn value_of(args: Seq<Arg>, name: Seq<char>, i: nat) -> Option<ArgValue>
    decreases args.len() - i,
{
    if i >= args.len() {
        None
    } else if args[i as int].name@ == name {
        Some(args[i as int].value)
    } else {
        value_of(args, name, i + 1)
    }
}

/// The parameter is given, as a string.
pub open spec fn param_ok(args: Seq<Arg>, name: Seq<char>) -> bool {
    match value_of(args, name, 0) {
        Some(v) => text_of(v) is Some,
        None => false,
    }
}

/// The first parameter at or after `k` that is missing or not a string.
pub open spec fn first_bad_param(params: Seq<Seq<char>>, args: Seq<Arg>, k: nat) -> Option<nat>
    decreases params.len() - k,
{
    if k >= params.len() {
        None
    } else if !param_ok(args, params[k as int]) {
        Some(k)
    } else {
        first_bad_param(params, args, k + 1)
    }
}

/// What is wrong with an argument list, if anything: the first stray
/// argument, else the first parameter that is missing or not a string.
pub open spec fn arg_problem(params: Seq<Seq<char>>, args: Seq<Arg>) -> Option<Seq<char>> {
    match first_stray(params, args, 0) {
        Some(i) => {
            let name = args[i as int].name@;
            if params.contains(name) {
                Some("repeated argument "@ + name)
            } else {
                Some("unexpected argument "@ + name)
            }
        },
        None => match first_bad_param(params, args, 0) {
            Some(k) => {
                let name = params[k as int];
                if value_of(args, name, 0) is None {
                    Some("missing argument "@ + name)
                } else {
                    Some("argument is not a string "@ + name)
                }
            },
            None => None,
        },
    }
}

/// The text given for a parameter.
pub open spec fn param_text(args: Seq<Arg>, name: Seq<char>) -> Seq<char> {
    match value_of(args, name, 0) {
        Some(ArgValue::Text(s)) => s@,
        _ => Seq::empty(),
    }
}

/// The texts given for the parameters, in the parameters' order.
pub open spec fn arg_texts(params: Seq<Seq<char>>, args: Seq<Arg>) -> Seq<Seq<char>> {
    Seq::new(params.len(), |k: int| param_text(args, params[k]))
}

/// The views of a list of strings.
pub open spec fn texts(v: Seq<String>) -> Seq<Seq<char>> {
    v.map_values(|s: String| s@)
}

fn contains_text(v: &Vec<String>, s: &String) -> (r: bool)
    ensures
        r == texts(v@).contains(s@),
{
    let mut i: usize = 0;
    while i < v.len()
        invariant
            i <= v.len(),
            forall|j: int| 0 <= j < i ==> v@[j]@ != s@,
        decreases v.len() - i,
    {
        if v[i] == *s {
            assert(texts(v@)[i as int] == s@);
            return true;
        }
        i = i + 1;
    }
    assert(!texts(v@).contains(s@)) by {
        assert forall|j: int| 0 <= j < texts(v@).len() implies texts(v@)[j] != s@ by {
            assert(v@[j]@ != s@);
        }
    }
    false
}

/// Whether an argument before `i` has the same name as the one at `i`.
fn repeats_earlier(args: &Vec<Arg>, i: usize) -> (r: bool)
    requires
        i < args.len(),
    ensures
        r == exists|j: int| 0 <= j < i && args@[j].name@ == args@[i as int].name@,
{
    let mut j: usize = 0;
    while j < i
        invariant
            j <= i < args.len(),
            forall|m: int| 0 <= m < j ==> args@[m].name@ != args@[i as int].name@,
        decreases i - j,
    {
        if args[j].name == args[i].name {
            return true;
        }
        j = j + 1;
    }
    false
}

/// The first argument called `name`, if any.
fn find_arg(args: &Vec<Arg>, name: &String) -> (r: Option<usize>)
    ensures
        match r {
            Some(i) => i < args.len() && value_of(args@, name@, 0) == Some(args@[i as int].value),
            None => value_of(args@, name@, 0) is None,
        },
{
    let mut i: usize = 0;
    while i < args.len()
        invariant
            i <= args.len(),
            value_of(args@, name@, 0) == value_of(args@, name@, i as nat),
        decreases args.len() - i,
    {
        if args[i].name == *name {
            return Some(i);
        }
        i = i + 1;
    }
    None
}

/// Checks `args` against the parameters `params` and returns the text given
/// for each parameter, in the parameters' order. Fails with `ArgumentError`,
/// describing the first problem, exactly when the list does not fit.
pub fn check_args(params: &Vec<String>, args: &Vec<Arg>) -> (r: Result<Vec<String>, BridgeError>)
    ensures
        match arg_problem(texts(params@), args@) {
            Some(d) => fails_with(r, (ErrorKind::ArgumentError, d)),
            None => r matches Ok(v) && texts(v@) == arg_texts(texts(params@), args@),
        },
{
    let ghost ps = texts(params@);
    let mut i: usize = 0;
    while i < args.len()
        invariant
            i <= args.len(),
            ps == texts(params@),
            first_stray(ps, args@, 0) == first_stray(ps, args@, i as nat),
        decreases args.len() - i,
    {
        let known = contains_text(params, &args[i].name);
        if !known || repeats_earlier(args, i) {
            let mut d = if known {
                "repeated argument ".to_owned()
            } else {
                "unexpected argument ".to_owned()
            };
            d.append(args[i].name.as_str());
            return Err(BridgeError::new(ErrorKind::ArgumentError, d));
        }
        i = i + 1;
    }
    let mut out: Vec<String> = Vec::new();
    let mut k: usize = 0;
    while k < params.len()
        invariant
            k <= params.len(),
            ps == texts(params@),
            first_stray(ps, args@, 0) is None,
            first_bad_param(ps, args@, 0) == first_bad_param(ps, args@, k as nat),
            out.len() == k,
            forall|m: int| 0 <= m < k ==> out@[m]@ == param_text(args@, ps[m]),
        decreases params.len() - k,
    {
        assert(ps[k as int] == params@[k as int]@);
        match find_arg(args, &params[k]) {
            None => {
                let mut d = "missing argument ".to_owned();
                d.append(params[k].as_str());
                return Err(BridgeError::new(ErrorKind::ArgumentError, d));
            },
            Some(j) => match &args[j].value {
                ArgValue::Text(s) => {
                    out.push(s.clone());
                },
                _ => {
                    let mut d = "argument is not a string ".to_owned();
                    d.append(params[k].as_str());
                    return Err(BridgeError::new(ErrorKind::ArgumentError, d));
                },
            },
        }
        k = k + 1;
    }
    assert(texts(out@) =~= arg_texts(ps, args@));
    Ok(out)
}

} // verus!
