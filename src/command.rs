use vstd::prelude::*;

use crate::fspath::{FsPath, PathModel};

verus! {

/// One variable set in a child process's environment.
#[derive(Clone, Debug)]
pub struct EnvVar {
    pub key: String,
    pub value: String,
}

/// A child process to launch: program, arguments, environment overrides and
/// the directory it runs in (`None`: the caller's own).
#[derive(Clone, Debug)]
pub struct CommandSpec {
    pub program: String,
    pub args: Vec<String>,
    pub env: Vec<EnvVar>,
    pub current_dir: Option<FsPath>,
}

pub struct CommandModel {
    pub program: Seq<char>,
    pub args: Seq<Seq<char>>,
    pub env: Seq<(Seq<char>, Seq<char>)>,
    pub current_dir: Option<PathModel>,
}

impl View for CommandSpec {
    type V = CommandModel;

    open spec fn view(&self) -> CommandModel {
        CommandModel {
            program: self.program@,
            args: strings_view(self.args@),
            env: self.env@.map_values(|v: EnvVar| (v.key@, v.value@)),
            current_dir: match self.current_dir {
                Some(p) => Some(p@),
                None => None,
            },
        }
    }
}

pub open spec fn strings_view(v: Seq<String>) -> Seq<Seq<char>> {
    v.map_values(|s: String| s@)
}

/// How a launched child process ended, as the caller observed it.
#[derive(Clone, Copy, Debug)]
pub enum LaunchOutcome {
    /// The process could not be started.
    SpawnFailed,
    /// The process started but could not be waited for.
    WaitFailed,
    /// The process exited; `None` where no exit code exists (a signal).
    Exited(Option<i32>),
}

/// The failures of a fuzzing run.
#[derive(Clone, Debug)]
pub enum FuzzError {
    /// The engine's toolchain is missing; `hint` says how to install it.
    Unavailable { hint: String },
    /// A filesystem step failed; `context` names the operation and path.
    Io { context: String },
    /// The engine cannot run a target written in that language.
    TargetIncompatible { engine: String, target: String },
    /// A child process could not be started.
    Spawn { engine: String, target: String },
    /// A child process started but could not be waited for.
    Wait { engine: String, target: String },
    /// The engine ran and exited with a failure status.
    FuzzerQuit,
}

/// The process ran and exited with status zero.
pub open spec fn exited_ok(o: LaunchOutcome) -> bool {
    o == LaunchOutcome::Exited(Some(0i32))
}

/// What one launch means for the run. A step that need not succeed never
/// fails the run, whatever became of its process. For one that must: a
/// process that could not be started fails with `Spawn`, one that could not
/// be waited for with `Wait`, and one that exited with anything but status
/// zero with `FuzzerQuit`.
pub fn exec_outcome(must_succeed: bool, outcome: LaunchOutcome, engine: &str, target: &str) -> (r: Result<
    (),
    FuzzError,
>)
    ensures
        !must_succeed ==> r is Ok,
        must_succeed ==> (r is Ok <==> exited_ok(outcome)),
        (must_succeed && outcome is SpawnFailed) <==> r matches Err(FuzzError::Spawn { .. }),
        (must_succeed && outcome is WaitFailed) <==> r matches Err(FuzzError::Wait { .. }),
        (must_succeed && outcome is Exited && !exited_ok(outcome)) <==> r matches Err(FuzzError::FuzzerQuit),
        r matches Err(FuzzError::Spawn { engine: e, target: t }) ==> e@ == engine@ && t@ == target@,
        r matches Err(FuzzError::Wait { engine: e, target: t }) ==> e@ == engine@ && t@ == target@,
{
    if !must_succeed {
        return Ok(());
    }
    match outcome {
        LaunchOutcome::SpawnFailed => Err(
            FuzzError::Spawn { engine: engine.to_string(), target: target.to_string() },
        ),
        LaunchOutcome::WaitFailed => Err(
            FuzzError::Wait { engine: engine.to_string(), target: target.to_string() },
        ),
        LaunchOutcome::Exited(code) => {
            if !matches!(code, Some(0i32)) {
                Err(FuzzError::FuzzerQuit)
            } else {
                Ok(())
            }
        },
    }
}

/// What a toolchain probe means: available only where the probe ran and
/// exited with status zero; otherwise `Unavailable` with the install hint.
pub fn probe_outcome(outcome: LaunchOutcome, hint: &str) -> (r: Result<(), FuzzError>)
    ensures
        r is Ok <==> exited_ok(outcome),
        r is Err ==> (r matches Err(FuzzError::Unavailable { hint: h }) && h@ == hint@),
{
    if matches!(outcome, LaunchOutcome::Exited(Some(0i32))) {
        Ok(())
    } else {
        Err(FuzzError::Unavailable { hint: hint.to_string() })
    }
}

/// The decimal digit for `d`.
pub open spec fn digit_char(d: nat) -> char {
    if d == 0 { '0' } else if d == 1 { '1' } else if d == 2 { '2' } else if d == 3 { '3' }
    else if d == 4 { '4' } else if d == 5 { '5' } else if d == 6 { '6' } else if d == 7 { '7' }
    else if d == 8 { '8' } else { '9' }
}

/// A natural number in decimal, without leading zeros.
pub open spec fn nat_text(n: nat) -> Seq<char>
    decreases n,
{
    if n < 10 {
        seq![digit_char(n)]
    } else {
        nat_text(n / 10).push(digit_char(n % 10))
    }
}

/// An integer in decimal, with a leading `-` where negative.
pub open spec fn int_text(n: int) -> Seq<char> {
    if n < 0 {
        seq!['-'] + nat_text((-n) as nat)
    } else {
        nat_text(n as nat)
    }
}

fn digit_str(d: u64) -> (r: &'static str)
    requires
        d < 10,
    ensures
        r@ == seq![digit_char(d as nat)],
{
    proof {
        reveal_strlit("0");
        reveal_strlit("1");
        reveal_strlit("2");
        reveal_strlit("3");
        reveal_strlit("4");
        reveal_strlit("5");
        reveal_strlit("6");
        reveal_strlit("7");
        reveal_strlit("8");
        reveal_strlit("9");
    }
    if d == 0 { "0" } else if d == 1 { "1" } else if d == 2 { "2" } else if d == 3 { "3" }
    else if d == 4 { "4" } else if d == 5 { "5" } else if d == 6 { "6" } else if d == 7 { "7" }
    else if d == 8 { "8" } else { "9" }
}

fn nat_to_text(n: u64) -> (r: String)
    ensures
        r@ == nat_text(n as nat),
    decreases n,
{
    if n < 10 {
        let mut s = String::new();
        s.append(digit_str(n));
        s
    } else {
        let mut s = nat_to_text(n / 10);
        s.append(digit_str(n % 10));
        s
    }
}

/// `n` written in decimal, as Rust's formatting writes an `i32`.
pub fn int_to_text(n: i32) -> (r: String)
    ensures
        r@ == int_text(n as int),
{
    if n < 0 {
        let m: i64 = -(n as i64);
        let mut s = String::new();
        proof {
            reveal_strlit("-");
        }
        s.append("-");
        let digits = nat_to_text(m as u64);
        s.append(digits.as_str());
        s
    } else {
        nat_to_text(n as u64)
    }
}

/// `flag` followed by the value, or nothing where there is no value.
pub open spec fn flag_text(flag: Seq<char>, v: Option<i32>) -> Seq<char> {
    match v {
        Some(n) => flag + int_text(n as int),
        None => Seq::empty(),
    }
}

pub fn flag_value(flag: &str, v: Option<i32>) -> (r: String)
    ensures
        r@ == flag_text(flag@, v),
{
    match v {
        Some(n) => {
            let mut s = flag.to_string();
            let digits = int_to_text(n);
            s.append(digits.as_str());
            s
        },
        None => String::new(),
    }
}

} // verus!
