//! Initialization of version control in a new project.
//!
//! Git is initialized in process. The other tools are run through the shell:
//! one command line that enters the project's directory, initializes a
//! repository there and adds the files.

use vstd::prelude::*;
use vstd::string::StringExecFns;
use crate::plan::{step_views, Step, StepView};
use crate::settings::version_control_view;
use crate::text::owned;
use crate::types::{VersionControl, VersionControlView};

verus! {

/// The command line that runs `commands` in the directory `name`.
pub open spec fn in_directory(name: Seq<char>, commands: Seq<char>) -> Seq<char> {
    "cd "@ + name + "&&"@ + commands
}

/// The command line that initializes a Pijul repository in `name`.
pub open spec fn pijul_command(name: Seq<char>) -> Seq<char> {
    in_directory(name, "pijul init && pijul add **"@)
}

/// The command line that initializes a Darcs repository in `name`.
pub open spec fn darcs_command(name: Seq<char>) -> Seq<char> {
    in_directory(name, "darcs init && darcs add **"@)
}

/// The command line that initializes a Mercurial repository in `name`.
pub open spec fn hg_command(name: Seq<char>) -> Seq<char> {
    in_directory(name, "hg init && hg add *"@)
}

/// The steps that initialize version control: one for a supported tool,
/// none for an unknown tool or without a tool.
pub open spec fn repository_steps(tool: Option<VersionControlView>, name: Seq<char>) -> Seq<StepView> {
    match tool {
        Some(VersionControlView::Git) => seq![StepView::InitGit],
        Some(VersionControlView::Mercurial) => seq![StepView::RunShell { command: hg_command(name) }],
        Some(VersionControlView::Darcs) => seq![StepView::RunShell { command: darcs_command(name) }],
        Some(VersionControlView::Pijul) => seq![StepView::RunShell { command: pijul_command(name) }],
        Some(VersionControlView::Unknown(_)) => Seq::empty(),
        None => Seq::empty(),
    }
}

/// The command line that runs `commands` in the directory `name`.
fn shell_in(name: &str, commands: &str) -> (line: String)
    ensures
        line@ == in_directory(name@, commands@),
{
    let mut line = owned("cd ");
    line.append(name);
    line.append("&&");
    line.append(commands);
    line
}

/// The command line that initializes a Pijul repository in `name` and adds
/// its files.
pub fn pijul_init(name: &str) -> (command: String)
    ensures
        command@ == pijul_command(name@),
{
    shell_in(name, "pijul init && pijul add **")
}

/// The command line that initializes a Darcs repository in `name` and adds
/// its files.
pub fn darcs_init(name: &str) -> (command: String)
    ensures
        command@ == darcs_command(name@),
{
    shell_in(name, "darcs init && darcs add **")
}

/// The command line that initializes a Mercurial repository in `name` and
/// adds its files.
pub fn hg_init(name: &str) -> (command: String)
    ensures
        command@ == hg_command(name@),
{
    shell_in(name, "hg init && hg add *")
}

/// The steps that initialize version control in `name` with the resolved
/// tool. An unknown tool is passed over.
pub fn init_repository(tool: &Option<VersionControl>, name: &str) -> (steps: Vec<Step>)
    ensures
        step_views(steps@) == repository_steps(version_control_view(*tool), name@),
{
    let mut steps: Vec<Step> = Vec::new();
    match tool {
        Some(VersionControl::Git) => {
            steps.push(Step::InitGit);
        },
        Some(VersionControl::Mercurial) => {
            steps.push(Step::RunShell { command: hg_init(name) });
        },
        Some(VersionControl::Darcs) => {
            steps.push(Step::RunShell { command: darcs_init(name) });
        },
        Some(VersionControl::Pijul) => {
            steps.push(Step::RunShell { command: pijul_init(name) });
        },
        Some(VersionControl::Unknown(_)) => {},
        None => {},
    }
    proof {
        assert(step_views(steps@) =~= repository_steps(version_control_view(*tool), name@));
    }
    steps
}

} // verus!
