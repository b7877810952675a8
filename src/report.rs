//! Result classification: what a finished process reported, mapped to the
//! outcome and to the text handed back to the caller.
use vstd::prelude::*;

verus! {

/// What a finished process left behind.
#[derive(Debug, PartialEq, Eq)]
pub struct ProcessOutput {
    /// The process exited with status zero.
    pub success: bool,
    pub stdout: String,
    pub stderr: String,
}

/// Classification of a finished run.
#[derive(Debug, Clone, Copy, PartialEq, Eq, Structural)]
pub enum Outcome {
    Success,
    SuccessWithWarnings,
    Failure,
}

pub open spec fn outcome_of(success: bool, stderr: Seq<char>) -> Outcome {
    if !success {
        Outcome::Failure
    } else if stderr.len() > 0 {
        Outcome::SuccessWithWarnings
    } else {
        Outcome::Success
    }
}

pub open spec fn result_view(r: Result<String, String>) -> Result<Seq<char>, Seq<char>> {
    match r {
        Ok(s) => Ok(s@),
        Err(s) => Err(s@),
    }
}

/// A non-zero exit is a failure whatever the streams hold; a clean exit is a
/// success, with warnings when the error stream is not empty.
pub fn classify(out: &ProcessOutput) -> (r: Outcome)
    ensures
        r == outcome_of(out.success, out.stderr@),
{
    if !out.success {
        Outcome::Failure
    } else if !out.stderr.as_str().is_empty() {
        Outcome::SuccessWithWarnings
    } else {
        Outcome::Success
    }
}

/// A copy of a result.
pub fn copy_result(r: &Result<String, String>) -> (c: Result<String, String>)
    ensures
        result_view(c) == result_view(*r),
{
    match r {
        Ok(s) => Ok(s.clone()),
        Err(s) => Err(s.clone()),
    }
}

/// `a` followed by `b`.
pub fn concat2(a: &str, b: &str) -> (r: String)
    ensures
        r@ == a@ + b@,
{
    let mut r = String::from_str(a);
    r.append(b);
    r
}

/// `a`, `b`, `c` and `d` in that order.
pub fn concat4(a: &str, b: &str, c: &str, d: &str) -> (r: String)
    ensures
        r@ == a@ + b@ + c@ + d@,
{
    let mut r = String::from_str(a);
    r.append(b);
    r.append(c);
    r.append(d);
    r
}

/// The caller's view of a container run: the output alone on a clean run,
/// output and warnings labeled when the error stream is not empty, both
/// streams labeled in the error on a failed run.
pub open spec fn container_report_of(success: bool, stdout: Seq<char>, stderr: Seq<char>) -> Result<
    Seq<char>,
    Seq<char>,
> {
    match outcome_of(success, stderr) {
        Outcome::Failure => Err(
            "Container execution failed:\nOutput:\n"@ + stdout + "\nErrors:\n"@ + stderr,
        ),
        Outcome::SuccessWithWarnings => Ok("Docker Output:\n"@ + stdout + "\nWarnings:\n"@ + stderr),
        Outcome::Success => Ok(stdout),
    }
}

pub fn container_report(out: &ProcessOutput) -> (r: Result<String, String>)
    ensures
        result_view(r) == container_report_of(out.success, out.stdout@, out.stderr@),
{
    match classify(out) {
        Outcome::Failure => Err(
            concat4(
                "Container execution failed:\nOutput:\n",
                out.stdout.as_str(),
                "\nErrors:\n",
                out.stderr.as_str(),
            ),
        ),
        Outcome::SuccessWithWarnings => Ok(
            concat4("Docker Output:\n", out.stdout.as_str(), "\nWarnings:\n", out.stderr.as_str()),
        ),
        Outcome::Success => Ok(out.stdout.clone()),
    }
}

/// The caller's view of a virtual-environment run: a non-zero exit or any
/// diagnostic output makes it a failure, reported with both streams.
pub open spec fn venv_report_of(success: bool, stdout: Seq<char>, stderr: Seq<char>) -> Result<
    Seq<char>,
    Seq<char>,
> {
    if !success || stderr.len() > 0 {
        Err("Venv Output:\n"@ + stdout + "\nErrors:\n"@ + stderr)
    } else {
        Ok(stdout)
    }
}

pub fn venv_report(out: &ProcessOutput) -> (r: Result<String, String>)
    ensures
        result_view(r) == venv_report_of(out.success, out.stdout@, out.stderr@),
{
    if !out.success || !out.stderr.as_str().is_empty() {
        Err(concat4("Venv Output:\n", out.stdout.as_str(), "\nErrors:\n", out.stderr.as_str()))
    } else {
        Ok(out.stdout.clone())
    }
}

} // verus!
