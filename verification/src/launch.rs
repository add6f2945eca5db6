//! How the worker is started: which program, with which arguments, where.
//!
//! Paths are given as lists of names below the project root, for the caller
//! to join in the way of its platform. The worker inherits the environment.

use vstd::prelude::*;

verus! {

/// What to start. `program` and `working_dir` are paths below the project
/// root, one name per directory level.
#[derive(Debug)]
pub struct LaunchPlan {
    pub program: Vec<String>,
    pub args: Vec<String>,
    pub working_dir: Vec<String>,
}

/// The interpreter of the worker's own environment.
pub open spec fn interpreter_path() -> Seq<Seq<char>> {
    seq!["sidecar"@, ".venv"@, "bin"@, "python3"@]
}

/// The arguments: `-u`, so that the discovery line is written unbuffered
/// and arrives at once, then the entry script.
pub open spec fn interpreter_args() -> Seq<Seq<char>> {
    seq!["-u"@, "main.py"@]
}

/// The directory the worker runs in, which holds the entry script.
pub open spec fn worker_dir() -> Seq<Seq<char>> {
    seq!["sidecar"@]
}

/// The plan by which the worker is started.
pub fn launch_plan() -> (plan: LaunchPlan)
    ensures
        plan.program.deep_view() == interpreter_path(),
        plan.args.deep_view() == interpreter_args(),
        plan.working_dir.deep_view() == worker_dir(),
{
    let mut program: Vec<String> = Vec::new();
    program.push("sidecar".to_owned());
    program.push(".venv".to_owned());
    program.push("bin".to_owned());
    program.push("python3".to_owned());
    let mut args: Vec<String> = Vec::new();
    args.push("-u".to_owned());
    args.push("main.py".to_owned());
    let mut working_dir: Vec<String> = Vec::new();
    working_dir.push("sidecar".to_owned());
    assert(program.deep_view() =~= interpreter_path());
    assert(args.deep_view() =~= interpreter_args());
    assert(working_dir.deep_view() =~= worker_dir());
    LaunchPlan { program, args, working_dir }
}

} // verus!
