//! Derivation of the external build invocation and classification of
//! its outcome: Running ends in exactly one of Succeeded or Failed,
//! with no retry, partial progress, or cancellation in this layer.

use vstd::prelude::*;
use vstd::string::*;

use crate::error::Error;
use crate::options::arg_views;
use crate::options::BuildOption;
use crate::staging::join_path;
use crate::staging::spec_joined;

verus! {

/// Outcome handle of a completed build: today an opaque success
/// marker, kept an open record so artifact metadata (library paths,
/// effective target, interface width) can be added without breaking
/// callers.
#[derive(Debug, Clone)]
pub struct Detail {}

/// What became of one launched external build process, as observed
/// by the caller that ran it.
#[derive(Debug, Clone)]
pub enum ProcessOutcome {
    /// The process ran to completion and exited with this code.
    Exited(i32),
    /// The process was killed without an exit code.
    Terminated,
    /// The process could not be spawned at all; carries the
    /// underlying system error's text.
    SpawnFailed(String),
}

/// A fully derived external build invocation: the program, its
/// argument tokens, the working directory it must run in, and the
/// two durable log files its standard output and standard error are
/// redirected to.
#[derive(Debug, Clone)]
pub struct BuildCommand {
    pub program: String,
    pub args: Vec<String>,
    pub workdir: String,
    pub stdout_log: String,
    pub stderr_log: String,
}

/// The literal command line: the program followed by each argument,
/// space-separated.
pub open spec fn spec_command_line(program: Seq<char>, args: Seq<Seq<char>>) -> Seq<char>
    decreases args.len(),
{
    if args.len() == 0 {
        program
    } else {
        spec_command_line(program, args.drop_last()) + " "@ + args.last()
    }
}

impl BuildCommand {
    /// Renders the literal command line of this invocation, for
    /// diagnostics.
    pub fn command_line(&self) -> (r: String)
        ensures
            r@ == spec_command_line(self.program@, arg_views(self.args@)),
    {
        let mut line = self.program.clone();
        let n = self.args.len();
        let mut i: usize = 0;
        while i < n
            invariant
                i <= n,
                n == self.args.len(),
                line@ == spec_command_line(self.program@, arg_views(self.args@).take(i as int)),
            decreases n - i,
        {
            line.append(" ");
            line.append(self.args[i].as_str());
            proof {
                let vs = arg_views(self.args@);
                assert(vs.take(i + 1).drop_last() =~= vs.take(i as int));
                assert(vs.take(i + 1).last() == self.args@[i as int]@);
            }
            i = i + 1;
        }
        proof {
            assert(arg_views(self.args@).take(n as int) =~= arg_views(self.args@));
        }
        line
    }
}

impl BuildOption {
    /// Derives the full external build invocation for a staged
    /// output directory: `make`, run inside `out_dir` with this
    /// configuration's argument tokens, its streams redirected to
    /// `out.log` and `err.log` inside `out_dir`.
    pub fn build_command(&self, out_dir: &String) -> (c: BuildCommand)
        ensures
            c.program@ == "make"@,
            arg_views(c.args@) == self.spec_args(),
            c.workdir@ == out_dir@,
            c.stdout_log@ == spec_joined(out_dir@, "out.log"@),
            c.stderr_log@ == spec_joined(out_dir@, "err.log"@),
    {
        BuildCommand {
            program: String::from_str("make"),
            args: self.make_args(),
            workdir: out_dir.clone(),
            stdout_log: join_path(out_dir, "out.log"),
            stderr_log: join_path(out_dir, "err.log"),
        }
    }
}

/// Classifies what became of the launched external build. Exit
/// status zero is the one success; a non-zero exit or a kill is a
/// build failure carrying the literal command line and the exit
/// status; a spawn failure is a launch error carrying the system
/// error, kept distinct from a non-zero exit.
pub fn classify_outcome(command_line: String, outcome: &ProcessOutcome) -> (r: Result<
    Detail,
    Error,
>)
    ensures
        (r is Ok <==> (outcome matches ProcessOutcome::Exited(c) && c == 0)),
        (outcome matches ProcessOutcome::Exited(c) ==> (c != 0 ==> (r matches Err(e)
            && e matches Error::BuildFailure { command, exit_code } && command@ == command_line@
            && exit_code == Some(*c)))),
        (outcome is Terminated ==> (r matches Err(e) && e matches Error::BuildFailure {
            command,
            exit_code,
        } && command@ == command_line@ && exit_code is None)),
        (outcome matches ProcessOutcome::SpawnFailed(m) ==> (r matches Err(e)
            && e matches Error::Launch { command, reason } && command@ == command_line@ && reason@
            == m@)),
{
    match outcome {
        ProcessOutcome::Exited(code) => {
            if *code == 0 {
                Ok(Detail {  })
            } else {
                Err(Error::BuildFailure { command: command_line, exit_code: Some(*code) })
            }
        },
        ProcessOutcome::Terminated => Err(
            Error::BuildFailure { command: command_line, exit_code: None },
        ),
        ProcessOutcome::SpawnFailed(m) => Err(
            Error::Launch { command: command_line, reason: m.clone() },
        ),
    }
}

} // verus!
