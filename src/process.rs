//! The decisions of the worker-process protocol: what a worker answers and with
//! which exit code, and what the parent makes of a finished child.

use vstd::prelude::*;

use crate::contract::{error_text, CompileError, ContractBuild};
use vstd::string::StringExecFns;

use crate::foreign::exit_code_success;

verus! {

/// An error as reported to the user: a message and, where known, the file it concerns.
#[derive(Debug)]
pub struct OutputError {
    /// The human-readable message.
    pub message: String,
    /// The path of the file that the error concerns.
    pub source_location: Option<String>,
}

/// The exit code of a worker that has written its answer.
pub open spec fn success_code() -> i32 {
    0
}

/// The worker's answer to one request, and its exit code. A compilation failure is
/// part of the answer, located at the unit's path; the exit code is success either way.
pub fn worker_response(path: String, result: Result<ContractBuild, CompileError>) -> (r: (
    Result<ContractBuild, OutputError>,
    i32,
))
    ensures
        r.1 == success_code(),
        match result {
            Ok(b) => r.0 == Ok::<ContractBuild, OutputError>(b),
            Err(e) => match r.0 {
                Err(o) => o.message@ == error_text(e) && o.source_location == Some(path),
                Ok(_) => false,
            },
        },
{
    let code = exit_code_success();
    match result {
        Ok(build) => (Ok(build), code),
        Err(error) => {
            let message = error.message();
            (Err(OutputError { message, source_location: Some(path) }), code)
        },
    }
}

/// What the parent does with a finished child.
#[derive(Debug)]
pub enum ChildOutcome {
    /// The child failed: this error is returned to the caller.
    Failed(OutputError),
    /// The child succeeded: its standard output is the answer, to be parsed;
    /// output that does not parse is a defect, and ends the process.
    Parse,
}

/// The text of an optional exit code, as `Some(<n>)` or `None`.
pub open spec fn code_text(code: Option<i32>) -> Seq<char> {
    match code {
        Some(n) => "Some("@ + decimal_text(n as int) + ")"@,
        None => "None"@,
    }
}

/// The message for a child that exited without success.
pub open spec fn failure_text(executable: Seq<char>, code: Option<i32>, stdout: Seq<char>, stderr: Seq<char>) -> Seq<char> {
    executable + " subprocess failed with exit code "@ + code_text(code) + ":\n"@ + stdout + "\n"@ + stderr
}

/// The decimal digit `d`.
pub open spec fn digit_char(d: nat) -> char {
    if d < 10 {
        ((d + 48) as u8) as char
    } else {
        '?'
    }
}

/// The decimal digits of a natural number, without leading zeros.
pub open spec fn digits_text(n: nat) -> Seq<char>
    decreases n,
{
    if n < 10 {
        seq![digit_char(n)]
    } else {
        digits_text(n / 10).push(digit_char(n % 10))
    }
}

/// The decimal text of an integer, with a leading `-` when it is negative.
pub open spec fn decimal_text(n: int) -> Seq<char> {
    if n < 0 {
        seq!['-'] + digits_text((-n) as nat)
    } else {
        digits_text(n as nat)
    }
}

/// The text of one decimal digit.
fn digit_str(d: u32) -> (r: &'static str)
    requires
        d < 10,
    ensures
        r@ == seq![digit_char(d as nat)],
{
    proof {
        reveal_strlit("0");
        reveal_strlit("1");
        reveal_strlit("2");
        reveal_strlit("3");
        reveal_strlit("4");
        reveal_strlit("5");
        reveal_strlit("6");
        reveal_strlit("7");
        reveal_strlit("8");
        reveal_strlit("9");
    }
    match d {
        0 => "0",
        1 => "1",
        2 => "2",
        3 => "3",
        4 => "4",
        5 => "5",
        6 => "6",
        7 => "7",
        8 => "8",
        _ => "9",
    }
}

/// The decimal digits of `n`.
fn digits(n: u32) -> (r: String)
    ensures
        r@ == digits_text(n as nat),
    decreases n,
{
    if n < 10 {
        digit_str(n).to_owned()
    } else {
        let mut s = digits(n / 10);
        s.append(digit_str(n % 10));
        s
    }
}

/// The decimal text of `n`.
pub fn decimal(n: i32) -> (r: String)
    ensures
        r@ == decimal_text(n as int),
{
    if n < 0 {
        let m: u32 = (0 - (n as i64)) as u32;
        let mut s = "-".to_owned();
        proof { reveal_strlit("-"); }
        let d = digits(m);
        s.append(d.as_str());
        s
    } else {
        digits(n as u32)
    }
}

/// The text of an optional exit code.
fn exit_code_text(code: Option<i32>) -> (r: String)
    ensures
        r@ == code_text(code),
{
    match code {
        Some(n) => {
            let mut s = "Some(".to_owned();
            let d = decimal(n);
            s.append(d.as_str());
            s.append(")");
            s
        },
        None => "None".to_owned(),
    }
}

/// Decides on a finished child from its exit code and what it printed. Any code but
/// success is a failure whose message holds the code and both streams, located at the
/// unit's path; success means the output is to be parsed.
pub fn child_outcome(
    executable: &String,
    path: &String,
    code: Option<i32>,
    stdout: &String,
    stderr: &String,
) -> (r: ChildOutcome)
    ensures
        (r is Parse) <==> code == Some(success_code()),
        code != Some(success_code()) ==> match r {
            ChildOutcome::Failed(e) => e.message@ == failure_text(executable@, code, stdout@, stderr@)
                && e.source_location == Some(*path),
            ChildOutcome::Parse => false,
        },
{
    let success = exit_code_success();
    let succeeded = match code {
        Some(n) => n == success,
        None => false,
    };
    if succeeded {
        return ChildOutcome::Parse;
    }
    let mut message = executable.clone();
    message.append(" subprocess failed with exit code ");
    let c = exit_code_text(code);
    message.append(c.as_str());
    message.append(":\n");
    message.append(stdout.as_str());
    message.append("\n");
    message.append(stderr.as_str());
    ChildOutcome::Failed(OutputError { message, source_location: Some(path.clone()) })
}

} // verus!
