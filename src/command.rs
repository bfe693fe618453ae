use vstd::prelude::*;
use crate::text::{join_text, lossy_string, lossy_text};

verus! {

/// An external program invocation, as plain text: what to run, with which
/// arguments, and which environment variables to set on top of the inherited ones.
pub struct CommandLine {
    pub program: Seq<char>,
    pub args: Seq<Seq<char>>,
    pub env: Seq<(Seq<char>, Seq<char>)>,
}

/// One external invocation: program name, ordered arguments, and ordered
/// environment overrides (name, value).
#[derive(Debug, Clone)]
pub struct CommandSpec {
    pub program: String,
    pub args: Vec<String>,
    pub env: Vec<(String, String)>,
}

pub open spec fn texts_view(v: Seq<String>) -> Seq<Seq<char>> {
    v.map_values(|s: String| s@)
}

pub open spec fn pairs_view(v: Seq<(String, String)>) -> Seq<(Seq<char>, Seq<char>)> {
    v.map_values(|p: (String, String)| (p.0@, p.1@))
}

impl View for CommandSpec {
    type V = CommandLine;

    open spec fn view(&self) -> CommandLine {
        CommandLine {
            program: self.program@,
            args: texts_view(self.args@),
            env: pairs_view(self.env@),
        }
    }
}

/// The invocations of a plan, as plain text.
pub open spec fn plan_view(plan: Seq<CommandSpec>) -> Seq<CommandLine> {
    plan.map_values(|c: CommandSpec| c@)
}

/// How an invocation ended, as the process runner saw it.
#[derive(Debug, Clone)]
pub enum CommandOutcome {
    /// Zero exit status, with the captured standard output.
    Success(Vec<u8>),
    /// The program could not be started, with the reason.
    LaunchFailed(String),
    /// Non-zero exit status, with the captured standard error.
    ExitFailed(Vec<u8>),
}

pub open spec fn launch_failure_text(program: Seq<char>, reason: Seq<char>) -> Seq<char> {
    "Failed to execute "@ + program + ": "@ + reason
}

pub open spec fn exit_failure_text(program: Seq<char>, stderr: Seq<u8>) -> Seq<char> {
    program + " failed: "@ + lossy_text(stderr)
}

/// What an invocation of `program` yields to its caller: the standard output on
/// success, otherwise an error naming the program and the cause.
pub fn command_result(program: &str, outcome: CommandOutcome) -> (r: Result<Vec<u8>, String>)
    ensures
        match outcome {
            CommandOutcome::Success(out) => r == Ok::<Vec<u8>, String>(out),
            CommandOutcome::LaunchFailed(reason) => r matches Err(e) && e@ == launch_failure_text(
                program@,
                reason@,
            ),
            CommandOutcome::ExitFailed(stderr) => r matches Err(e) && e@ == exit_failure_text(
                program@,
                stderr@,
            ),
        },
{
    match outcome {
        CommandOutcome::Success(out) => Ok(out),
        CommandOutcome::LaunchFailed(reason) => {
            let m = join_text("Failed to execute ", program);
            let m = join_text(m.as_str(), ": ");
            Err(join_text(m.as_str(), reason.as_str()))
        },
        CommandOutcome::ExitFailed(stderr) => {
            let m = join_text(program, " failed: ");
            let detail = lossy_string(&stderr);
            Err(join_text(m.as_str(), detail.as_str()))
        },
    }
}

/// What to do next while a plan runs.
#[derive(Debug)]
pub enum Step {
    /// Run the plan's invocation at this position.
    Run(usize),
    /// The plan is over, with the output of its last invocation or the first error.
    Finished(Result<Vec<u8>, String>),
}

/// The first step of a plan of `plan_len` invocations.
pub fn first_step(plan_len: usize) -> (r: Step)
    ensures
        plan_len > 0 ==> r == Step::Run(0),
        plan_len == 0 ==> (r matches Step::Finished(Ok(out)) && out@.len() == 0),
{
    if plan_len == 0 {
        Step::Finished(Ok(Vec::new()))
    } else {
        Step::Run(0)
    }
}

/// The step after the invocation at `position` has given `result`: the first
/// error ends the plan; otherwise the next invocation runs, and after the last
/// one the plan ends with its output.
pub fn next_step(plan_len: usize, position: usize, result: Result<Vec<u8>, String>) -> (r: Step)
    ensures
        result is Err ==> r == Step::Finished(result),
        result is Ok && position + 1 < plan_len ==> r == Step::Run((position + 1) as usize),
        result is Ok && position + 1 >= plan_len ==> r == Step::Finished(result),
{
    match result {
        Err(e) => Step::Finished(Err(e)),
        Ok(out) => {
            if plan_len > 0 && position < plan_len - 1 {
                Step::Run(position + 1)
            } else {
                Step::Finished(Ok(out))
            }
        },
    }
}

} // verus!
