//! What holds of every plan: the stages come in a fixed order, an existing
//! target is left alone, and templates are rendered with the list of files
//! bound.

use vstd::prelude::*;
use crate::context::Binding;
use crate::date::Date;
use crate::plan::{
    seen_by_caller,
    status_of,
    Failure,
    StepView,
    EXIT_ALREADY_EXISTS,
    EXIT_SUCCESS,
    EXIT_WRITE_FAILURE,
};
use crate::render::{
    directory_stage,
    directory_steps,
    entries_of,
    file_steps,
    rendered_items,
    template_stage,
};
use crate::repo::repository_steps;
use crate::settings::{initial_bindings, resolved_license, resolved_version_control};
use crate::types::{Config, Project};
use crate::util::{
    chain,
    ended,
    emitting_tail,
    files_tail,
    license_stage,
    planned_bindings,
    planned_steps,
    readme_stage,
    rendering_tail,
    with_files,
};

verus! {

/// The stage that a step belongs to: the target directory first, then
/// directories, empty files, built-in texts, templates and version control.
/// The step that ends a run comes after all of them.
pub open spec fn stage_of(step: StepView) -> int {
    match step {
        StepView::CreateRoot => 0,
        StepView::CreateDirectory { .. } => 1,
        StepView::CreateFile { .. } => 2,
        StepView::WriteFile { .. } => 3,
        StepView::RenderTemplate { .. } => 4,
        StepView::InitGit => 5,
        StepView::RunShell { .. } => 5,
        StepView::Abort { .. } => 6,
    }
}

/// Whether no step comes before a step of an earlier stage.
pub open spec fn in_stage_order(steps: Seq<StepView>) -> bool {
    forall|i: int, j: int| 0 <= i < j < steps.len() ==> stage_of(steps[i]) <= stage_of(steps[j])
}

/// Whether every step belongs to the stage `stage` or a later one.
pub open spec fn from_stage(steps: Seq<StepView>, stage: int) -> bool {
    forall|i: int| 0 <= i < steps.len() ==> stage_of(#[trigger] steps[i]) >= stage
}

/// Whether every step belongs to the stage `stage`.
pub open spec fn of_stage(steps: Seq<StepView>, stage: int) -> bool {
    forall|i: int| 0 <= i < steps.len() ==> stage_of(#[trigger] steps[i]) == stage
}

/// Whether no step follows a step that ends the run.
pub open spec fn ends_once(steps: Seq<StepView>) -> bool {
    forall|i: int| 0 <= i < steps.len() && #[trigger] steps[i] is Abort ==> i == steps.len() - 1
}

/// Steps of one stage before ordered steps of that stage or later ones are in
/// order, and end the run at most once, with the last step.
proof fn lemma_chain_in_order(stage: Result<Seq<StepView>, Failure>, rest: Seq<StepView>, rank: int)
    requires
        rank < 6,
        stage matches Ok(steps) ==> of_stage(steps, rank),
        in_stage_order(rest),
        from_stage(rest, rank),
        ends_once(rest),
    ensures
        in_stage_order(chain(stage, rest)),
        from_stage(chain(stage, rest), rank),
        ends_once(chain(stage, rest)),
{
    match stage {
        Ok(steps) => {
            let all = steps + rest;
            assert forall|i: int| 0 <= i < all.len() && #[trigger] all[i] is Abort implies i
                == all.len() - 1 by {
                if i < steps.len() {
                    assert(all[i] == steps[i]);
                } else {
                    assert(all[i] == rest[i - steps.len()]);
                }
            }
            assert forall|i: int| 0 <= i < all.len() implies stage_of(#[trigger] all[i])
                >= rank by {
                if i < steps.len() {
                    assert(all[i] == steps[i]);
                } else {
                    assert(all[i] == rest[i - steps.len()]);
                }
            }
            assert forall|i: int, j: int| 0 <= i < j < all.len() implies stage_of(all[i])
                <= stage_of(all[j]) by {
                if j < steps.len() {
                    assert(all[i] == steps[i]);
                    assert(all[j] == steps[j]);
                } else if i < steps.len() {
                    assert(all[i] == steps[i]);
                    assert(all[j] == rest[j - steps.len()]);
                } else {
                    assert(all[i] == rest[i - steps.len()]);
                    assert(all[j] == rest[j - steps.len()]);
                }
            }
        },
        Err(f) => {},
    }
}

/// The plan from the templates on is in order.
proof fn lemma_rendering_in_order(full: Map<Seq<char>, Binding>, name: Seq<char>, project: Project, config: Config)
    ensures
        in_stage_order(rendering_tail(full, name, project, config)),
        from_stage(rendering_tail(full, name, project, config), 4),
        ends_once(rendering_tail(full, name, project, config)),
{
    let last = repository_steps(resolved_version_control(project, config), name);
    assert(in_stage_order(last));
    assert(from_stage(last, 5));
    assert(ends_once(last));
    let scripts = template_stage(full, entries_of(project.files.scripts), true);
    lemma_chain_in_order(scripts, last, 4);
    let templates = template_stage(full, entries_of(project.files.templates), false);
    lemma_chain_in_order(templates, chain(scripts, last), 4);
}

/// The plan from the files on is in order.
proof fn lemma_files_in_order(bound: Map<Seq<char>, Binding>, name: Seq<char>, project: Project, config: Config)
    ensures
        in_stage_order(files_tail(bound, name, project, config)),
        from_stage(files_tail(bound, name, project, config), 2),
        ends_once(files_tail(bound, name, project, config)),
{
    match rendered_items(bound, entries_of(project.files.files)) {
        Ok(files) => {
            let rendering = rendering_tail(with_files(bound, files), name, project, config);
            lemma_rendering_in_order(with_files(bound, files), name, project, config);
            let readme = readme_stage(bound, project.with_readme);
            lemma_chain_in_order(readme, rendering, 3);
            let license = license_stage(bound, resolved_license(project, config));
            lemma_chain_in_order(license, chain(readme, rendering), 3);
            lemma_chain_in_order(
                Ok(file_steps(files)),
                chain(license, chain(readme, rendering)),
                2,
            );
        },
        Err(f) => {},
    }
}

/// The steps of every plan come in the order of the stages: the target
/// directory, the directories, the empty files, the license and the README,
/// the templates and scripts, version control. So every directory of the
/// manifest is created before the first template is rendered. A step that
/// ends the run early is the last of its plan: nothing is done after a
/// failure.
pub proof fn law_stages_in_order(
    name: Seq<char>,
    project: Project,
    config: Config,
    date: Date,
    force: bool,
    target_exists: bool,
)
    ensures
        in_stage_order(planned_steps(name, project, config, date, force, target_exists)),
        ends_once(planned_steps(name, project, config, date, force, target_exists)),
{
    if !(target_exists && !force) {
        let bound = initial_bindings(name, project, config, date);
        lemma_files_in_order(bound, name, project, config);
        let directories = directory_stage(bound, entries_of(project.files.directories));
        let tail = files_tail(bound, name, project, config);
        lemma_chain_in_order(directories, tail, 1);
        lemma_chain_in_order(Ok(seq![StepView::CreateRoot]), chain(directories, tail), 0);
    }
}

/// A plan that renders a template holds the list of the files that were
/// created: the context is complete before any template is rendered.
pub proof fn law_templates_see_the_files(
    name: Seq<char>,
    project: Project,
    config: Config,
    date: Date,
    force: bool,
    target_exists: bool,
    i: int,
)
    requires
        0 <= i < planned_steps(name, project, config, date, force, target_exists).len(),
        planned_steps(name, project, config, date, force, target_exists)[i] is RenderTemplate,
    ensures
        rendered_items(
            initial_bindings(name, project, config, date),
            entries_of(project.files.files),
        ) matches Ok(files) && planned_bindings(name, project, config, date).contains_key(
            "files"@,
        ) && planned_bindings(name, project, config, date)["files"@] == Binding::List(files),
{
    let bound = initial_bindings(name, project, config, date);
    let directories = directory_stage(bound, entries_of(project.files.directories));
    let tail = files_tail(bound, name, project, config);
    let steps = planned_steps(name, project, config, date, force, target_exists);
    if rendered_items(bound, entries_of(project.files.files)) is Err {
        match directories {
            Ok(made) => {
                assert(of_stage(made, 1));
                let rest = made + tail;
                assert(steps[i] == (seq![StepView::CreateRoot] + rest)[i]);
                if i >= 1 {
                    if i - 1 < made.len() {
                        assert(rest[i - 1] == made[i - 1]);
                    }
                }
            },
            Err(f) => {},
        }
    }
}

/// Where the target is in place and overwriting was not asked for, the plan
/// is to end the run at once, with the exit status of a target in the way,
/// which the caller sees as it is and can tell from success and from a failed
/// write: no step creates or changes anything.
pub proof fn law_existing_target_is_left_alone(name: Seq<char>, project: Project, config: Config, date: Date)
    ensures
        planned_steps(name, project, config, date, false, true) == ended(Failure::AlreadyExists),
        status_of(Failure::AlreadyExists) == EXIT_ALREADY_EXISTS,
        seen_by_caller(EXIT_ALREADY_EXISTS) == EXIT_ALREADY_EXISTS,
        seen_by_caller(EXIT_ALREADY_EXISTS) != seen_by_caller(EXIT_SUCCESS),
        seen_by_caller(EXIT_ALREADY_EXISTS) != seen_by_caller(EXIT_WRITE_FAILURE),
{
}

/// A plan without templates and scripts, whose paths can all be substituted,
/// holds the step for the target directory, one step for each directory and
/// one for each empty file, then what the license, the README and version
/// control add, and nothing else.
pub proof fn law_plan_without_templates(
    name: Seq<char>,
    project: Project,
    config: Config,
    date: Date,
    force: bool,
    directories: Seq<Seq<char>>,
    files: Seq<Seq<char>>,
    license: Seq<StepView>,
    readme: Seq<StepView>,
)
    requires
        entries_of(project.files.templates).len() == 0,
        entries_of(project.files.scripts).len() == 0,
        rendered_items(
            initial_bindings(name, project, config, date),
            entries_of(project.files.directories),
        ) == Ok::<Seq<Seq<char>>, Failure>(directories),
        rendered_items(
            initial_bindings(name, project, config, date),
            entries_of(project.files.files),
        ) == Ok::<Seq<Seq<char>>, Failure>(files),
        license_stage(
            initial_bindings(name, project, config, date),
            resolved_license(project, config),
        ) == Ok::<Seq<StepView>, Failure>(license),
        readme_stage(initial_bindings(name, project, config, date), project.with_readme) == Ok::<
            Seq<StepView>,
            Failure,
        >(readme),
    ensures
        planned_steps(name, project, config, date, force, false) == seq![StepView::CreateRoot]
            + directory_steps(directories) + file_steps(files) + license + readme
            + repository_steps(resolved_version_control(project, config), name),
{
    let bound = initial_bindings(name, project, config, date);
    let full = with_files(bound, files);
    let last = repository_steps(resolved_version_control(project, config), name);
    let none: Seq<Seq<char>> = Seq::empty();
    assert(entries_of(project.files.templates) =~= none);
    assert(entries_of(project.files.scripts) =~= none);
    assert(rendered_items(full, none) == Ok::<Seq<Seq<char>>, Failure>(Seq::empty()));
    assert(template_stage(full, none, false)->Ok_0 =~= Seq::empty());
    assert(template_stage(full, none, true)->Ok_0 =~= Seq::empty());
    assert(rendering_tail(full, name, project, config) =~= last);
    assert(planned_steps(name, project, config, date, force, false) =~= seq![StepView::CreateRoot]
        + directory_steps(directories) + file_steps(files) + license + readme + last);
}

/// A manifest of directories and empty files alone, with no license, no
/// README and no version control, gives a plan of exactly the target
/// directory, the substituted directories and the substituted empty files.
pub proof fn law_directories_and_files_alone(
    name: Seq<char>,
    project: Project,
    config: Config,
    date: Date,
    force: bool,
    directories: Seq<Seq<char>>,
    files: Seq<Seq<char>>,
)
    requires
        entries_of(project.files.templates).len() == 0,
        entries_of(project.files.scripts).len() == 0,
        resolved_license(project, config) is None,
        !project.with_readme,
        resolved_version_control(project, config) is None,
        rendered_items(
            initial_bindings(name, project, config, date),
            entries_of(project.files.directories),
        ) == Ok::<Seq<Seq<char>>, Failure>(directories),
        rendered_items(
            initial_bindings(name, project, config, date),
            entries_of(project.files.files),
        ) == Ok::<Seq<Seq<char>>, Failure>(files),
    ensures
        planned_steps(name, project, config, date, force, false) == seq![StepView::CreateRoot]
            + directory_steps(directories) + file_steps(files),
{
    law_plan_without_templates(
        name,
        project,
        config,
        date,
        force,
        directories,
        files,
        Seq::empty(),
        Seq::empty(),
    );
    assert(planned_steps(name, project, config, date, force, false) =~= seq![StepView::CreateRoot]
        + directory_steps(directories) + file_steps(files));
}

} // verus!
