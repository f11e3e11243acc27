//! The compiler that runs `g++` on the host. Writing the source file, running
//! `g++` under a time limit and looking for the executable are left to the
//! caller; what these steps mean for the compilation is decided here.
use vstd::prelude::*;

use std::path::PathBuf;

use crate::compiler::errors::CompilationError;
use crate::domain::{Artifact, ArtifactKind, CompilationLimitType};
use crate::text;

verus! {

#[derive(Debug)]
pub struct BasicCompiler {
    temp_dir: PathBuf,
}

impl BasicCompiler {
    /// The directory that the compiler works in.
    pub closed spec fn dir(&self) -> PathBuf {
        self.temp_dir
    }

    /// A compiler that works in the directory `temp_dir`.
    pub fn with_temp_dir(temp_dir: PathBuf) -> (r: Self)
        ensures
            r.dir() == temp_dir,
    {
        BasicCompiler { temp_dir }
    }

    /// The directory that the compiler works in.
    pub fn temp_dir(&self) -> (r: &PathBuf)
        ensures
            *r == self.dir(),
    {
        &self.temp_dir
    }
}

/// How the run of `g++` went.
#[derive(Debug, Clone)]
pub enum CompilerRun {
    /// `g++` did not finish within the time limit.
    TimedOut,
    /// `g++` could not be started; `error` says why.
    NotStarted { error: String },
    /// `g++` finished, successfully or not, writing `stderr`.
    Finished { success: bool, stderr: String },
}

/// The arguments given to `g++` to compile `source_file` into `output_file`.
pub open spec fn compile_args_text(output_file: Seq<char>, source_file: Seq<char>) -> Seq<Seq<char>> {
    seq!["-o"@, output_file, source_file, "-std=c++17"@, "-O2"@]
}

/// The arguments given to `g++` to compile `source_file` into `output_file`.
pub fn compile_args(output_file: &str, source_file: &str) -> (r: Vec<String>)
    ensures
        r@.map_values(|s: String| s@) == compile_args_text(output_file@, source_file@),
{
    let mut r: Vec<String> = Vec::new();
    r.push(String::from_str("-o"));
    r.push(String::from_str(output_file));
    r.push(String::from_str(source_file));
    r.push(String::from_str("-std=c++17"));
    r.push(String::from_str("-O2"));
    assert(r@.map_values(|s: String| s@) =~= compile_args_text(output_file@, source_file@));
    r
}

/// A compilation that failed with the message `prefix` followed by `detail`.
pub fn failure(prefix: &str, detail: &str) -> (r: CompilationError)
    ensures
        r matches CompilationError::CompilationFailed { msg } && msg@ == prefix@ + detail@,
{
    CompilationError::CompilationFailed { msg: text::join(prefix, detail) }
}

/// `r` is what the compilation into the artifact `artifact_id` comes to when
/// `g++` ran as `run`, the executable then existed or not
/// (`executable_exists`), and `output_file` is where it was to be written.
pub open spec fn compilation_outcome(
    artifact_id: u128,
    run: CompilerRun,
    executable_exists: bool,
    output_file: Seq<char>,
    r: Result<Artifact, CompilationError>,
) -> bool {
    match run {
        CompilerRun::TimedOut => r == Err::<Artifact, CompilationError>(
            CompilationError::CompilationLimitsExceeded(CompilationLimitType::Time),
        ),
        CompilerRun::NotStarted { error } => r matches Err(
            CompilationError::CompilationFailed { msg },
        ) && msg@ == "Failed to execute g++: "@ + error@,
        CompilerRun::Finished { success, stderr } => {
            if !success {
                r matches Err(CompilationError::CompilationFailed { msg }) && msg@
                    == "Compilation failed:\n"@ + stderr@
            } else if !executable_exists {
                r matches Err(CompilationError::CompilationFailed { msg }) && msg@
                    == "Executable file was not created at: "@ + output_file
            } else {
                r == Ok::<Artifact, CompilationError>(
                    Artifact { id: artifact_id, kind: ArtifactKind::Executable },
                )
            }
        },
    }
}

/// What the compilation into the artifact `artifact_id` comes to.
pub fn compile_outcome(artifact_id: u128, run: CompilerRun, executable_exists: bool, output_file: &str) -> (r:
    Result<Artifact, CompilationError>)
    ensures
        compilation_outcome(artifact_id, run, executable_exists, output_file@, r),
{
    match run {
        CompilerRun::TimedOut => Err(
            CompilationError::CompilationLimitsExceeded(CompilationLimitType::Time),
        ),
        CompilerRun::NotStarted { error } => Err(
            failure("Failed to execute g++: ", error.as_str()),
        ),
        CompilerRun::Finished { success, stderr } => {
            if !success {
                Err(failure("Compilation failed:\n", stderr.as_str()))
            } else if !executable_exists {
                Err(failure("Executable file was not created at: ", output_file))
            } else {
                Ok(Artifact { id: artifact_id, kind: ArtifactKind::Executable })
            }
        },
    }
}

} // verus!
