//! The steps of a run and the ways in which it can fail.
//!
//! A plan is the ordered list of what is to be done to the file system. The
//! library computes it; whoever runs it performs the steps in order and asks
//! the library what a failure of a step means.

use vstd::prelude::*;
use crate::context::RenderError;

verus! {

/// The exit status of a run that succeeded.
pub const EXIT_SUCCESS: i32 = 0;

/// The exit status of a run that failed in a way that has no status of its
/// own.
pub const EXIT_RUNTIME_ERROR: i32 = 1;

/// The exit status of a run that could not find, read or parse what it needs.
pub const EXIT_NOT_FOUND: i32 = 2;

/// The exit status of a run that could not create or write a file.
pub const EXIT_WRITE_FAILURE: i32 = 3;

/// The exit status of a run that found its target in place and was not asked
/// to overwrite it.
pub const EXIT_ALREADY_EXISTS: i32 = 4;

/// The exit status of a run that could not start the version-control tool.
pub const EXIT_VERSION_CONTROL: i32 = 5;

/// What the caller of a process sees of its exit status: the low eight bits.
pub open spec fn seen_by_caller(status: i32) -> int {
    (status as int) % 256
}

/// The permission bits of a rendered script: read and execute for all, write
/// for the owner.
pub const SCRIPT_MODE: u32 = 0o755;

/// Why a run ends early.
#[derive(Clone, Copy, Debug, PartialEq, Eq, Structural)]
pub enum Failure {
    /// The target directory exists and overwriting was not asked for.
    AlreadyExists,
    /// A template's source could not be read.
    NotFound,
    /// A file could not be created or written.
    WriteFailure,
    /// The version-control tool could not be started.
    VersionControl,
    /// A substituted path is no valid path. Every text is taken as a path,
    /// so a plan never ends on this.
    PathSubstitution,
    /// A path or a text could not be rendered.
    Template(RenderError),
    /// The clock gives no date.
    Clock,
}

/// The exit status that stands for a failure.
pub open spec fn status_of(failure: Failure) -> i32 {
    match failure {
        Failure::AlreadyExists => EXIT_ALREADY_EXISTS,
        Failure::NotFound => EXIT_NOT_FOUND,
        Failure::WriteFailure => EXIT_WRITE_FAILURE,
        Failure::VersionControl => EXIT_VERSION_CONTROL,
        Failure::PathSubstitution => EXIT_RUNTIME_ERROR,
        Failure::Template(_) => EXIT_RUNTIME_ERROR,
        Failure::Clock => EXIT_RUNTIME_ERROR,
    }
}

impl Failure {
    /// The exit status with which the process ends on this failure. It lies
    /// in the range that a caller sees whole, and is not that of success.
    pub fn exit_status(self) -> (status: i32)
        ensures
            status == status_of(self),
            0 < status <= 255,
            seen_by_caller(status) == status,
    {
        match self {
            Failure::AlreadyExists => EXIT_ALREADY_EXISTS,
            Failure::NotFound => EXIT_NOT_FOUND,
            Failure::WriteFailure => EXIT_WRITE_FAILURE,
            Failure::VersionControl => EXIT_VERSION_CONTROL,
            Failure::PathSubstitution => EXIT_RUNTIME_ERROR,
            Failure::Template(_) => EXIT_RUNTIME_ERROR,
            Failure::Clock => EXIT_RUNTIME_ERROR,
        }
    }
}

/// One step of a run. Paths are relative to the target directory, but for a
/// template's source, which is relative to the manifest's directory.
#[derive(Debug, PartialEq, Eq)]
pub enum Step {
    /// Create the target directory itself.
    CreateRoot,
    /// Create one directory; its parent is not created with it.
    CreateDirectory { path: String },
    /// Create an empty file, emptying one that is there.
    CreateFile { path: String },
    /// Write a text to a file.
    WriteFile { path: String, contents: String },
    /// Read a template, substitute the context into it and write the result;
    /// with a mode, set the file's permission bits to it.
    RenderTemplate { source: String, destination: String, mode: Option<u32> },
    /// Create a Git repository in the target directory.
    InitGit,
    /// Run a command line through the shell.
    RunShell { command: String },
    /// End the run with a failure.
    Abort { failure: Failure },
}

/// What a step is, its texts as sequences of characters.
pub enum StepView {
    CreateRoot,
    CreateDirectory { path: Seq<char> },
    CreateFile { path: Seq<char> },
    WriteFile { path: Seq<char>, contents: Seq<char> },
    RenderTemplate { source: Seq<char>, destination: Seq<char>, mode: Option<u32> },
    InitGit,
    RunShell { command: Seq<char> },
    Abort { failure: Failure },
}

impl View for Step {
    type V = StepView;

    open spec fn view(&self) -> StepView {
        match self {
            Step::CreateRoot => StepView::CreateRoot,
            Step::CreateDirectory { path } => StepView::CreateDirectory { path: path@ },
            Step::CreateFile { path } => StepView::CreateFile { path: path@ },
            Step::WriteFile { path, contents } => StepView::WriteFile {
                path: path@,
                contents: contents@,
            },
            Step::RenderTemplate { source, destination, mode } => StepView::RenderTemplate {
                source: source@,
                destination: destination@,
                mode: *mode,
            },
            Step::InitGit => StepView::InitGit,
            Step::RunShell { command } => StepView::RunShell { command: command@ },
            Step::Abort { failure } => StepView::Abort { failure: *failure },
        }
    }
}

/// The views of the steps in `steps`, in order.
pub open spec fn step_views(steps: Seq<Step>) -> Seq<StepView> {
    Seq::new(steps.len(), |i: int| steps[i]@)
}

/// What went wrong while a step was performed.
#[derive(Clone, Copy, Debug, PartialEq, Eq, Structural)]
pub enum Trouble {
    /// Something could not be read.
    Read,
    /// Something could not be created or written.
    Write,
    /// A tool could not be started.
    Spawn,
}

/// What a trouble means for the run: the failure it ends with, or `None`
/// where the run goes on. A directory that cannot be created is passed over,
/// so that a run over a tree that is partly there does not fail.
pub open spec fn consequence(step: StepView, trouble: Trouble) -> Option<Failure> {
    match step {
        StepView::CreateRoot => None,
        StepView::CreateDirectory { .. } => None,
        StepView::CreateFile { .. } => Some(Failure::WriteFailure),
        StepView::WriteFile { .. } => Some(Failure::WriteFailure),
        StepView::RenderTemplate { .. } => match trouble {
            Trouble::Read => Some(Failure::NotFound),
            _ => Some(Failure::WriteFailure),
        },
        StepView::InitGit => Some(Failure::VersionControl),
        StepView::RunShell { .. } => Some(Failure::VersionControl),
        StepView::Abort { failure } => Some(failure),
    }
}

impl Step {
    /// What a trouble met while performing this step means for the run.
    pub fn on_trouble(&self, trouble: Trouble) -> (end: Option<Failure>)
        ensures
            end == consequence(self@, trouble),
    {
        match self {
            Step::CreateRoot => None,
            Step::CreateDirectory { .. } => None,
            Step::CreateFile { .. } => Some(Failure::WriteFailure),
            Step::WriteFile { .. } => Some(Failure::WriteFailure),
            Step::RenderTemplate { .. } => match trouble {
                Trouble::Read => Some(Failure::NotFound),
                _ => Some(Failure::WriteFailure),
            },
            Step::InitGit => Some(Failure::VersionControl),
            Step::RunShell { .. } => Some(Failure::VersionControl),
            Step::Abort { failure } => Some(*failure),
        }
    }
}

/// The class of a failure, by which a caller branches: a target in the way,
/// a resource that is missing, a write that failed, a tool that did not
/// start, or another error.
pub open spec fn class_of(failure: Failure) -> int {
    match failure {
        Failure::AlreadyExists => 0,
        Failure::NotFound => 1,
        Failure::WriteFailure => 2,
        Failure::VersionControl => 3,
        Failure::PathSubstitution => 4,
        Failure::Template(_) => 4,
        Failure::Clock => 4,
    }
}

/// What the caller sees of an exit status tells success from every failure
/// and the classes of failure from each other: a target in the way, a
/// missing resource, a failed write, a tool that did not start and other
/// errors each have a status of their own, none of them that of success.
pub proof fn law_exit_statuses_differ(first: Failure, second: Failure)
    ensures
        seen_by_caller(EXIT_SUCCESS) == 0,
        seen_by_caller(status_of(first)) == status_of(first),
        seen_by_caller(status_of(first)) != seen_by_caller(EXIT_SUCCESS),
        class_of(first) != class_of(second) <==> seen_by_caller(status_of(first))
            != seen_by_caller(status_of(second)),
{
}

/// A script's mode lets the owner, the group and all others execute it.
pub proof fn law_scripts_are_executable_by_all()
    ensures
        SCRIPT_MODE & 0o111 == 0o111,
{
    assert(0o755u32 & 0o111u32 == 0o111u32) by (bit_vector);
}

} // verus!
