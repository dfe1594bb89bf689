//! The plan of a run: from a project's name, the global configuration and a
//! manifest to the ordered steps that build the project.
//!
//! The order is fixed: the target directory, the manifest's directories, its
//! empty files, the license and the README, the templates, the scripts, and
//! version control last. The list of the files that were created is bound in
//! the context after the README and before the first template. A stage that
//! cannot be substituted ends the plan: the steps before it stand, and an
//! `Abort` step follows them.

use vstd::prelude::*;
use crate::context::{Binding, Context};
use crate::date::{today, Date};
use crate::includes::{license_template, license_text, README};
use crate::plan::{step_views, Failure, Step, StepView};
use crate::render::{
    create_files,
    directory_stage,
    entries_of,
    file_steps,
    render_dirs,
    render_file,
    render_files,
    render_item,
    render_templates,
    rendered_item,
    rendered_items,
    step_view,
    steps_view,
    template_stage,
    text_view,
    texts_view,
    written_file,
};
use crate::repo::{init_repository, repository_steps};
use crate::settings::{
    build_context,
    initial_bindings,
    license_view,
    project_version,
    resolve_license,
    resolve_version_control,
    resolved_license,
    resolved_version_control,
};
use crate::text::owned;
use crate::types::{Config, License, LicenseView, Project, VersionControl, VersionControlView};

verus! {

/// What a run reports without failing.
#[derive(Clone, Copy, Debug, PartialEq, Eq, Structural)]
pub enum Warning {
    /// No license was asked for: no license file is written.
    NoLicense,
    /// The license asked for is not built in: no license file is written.
    UnknownLicense,
    /// The manifest gives no version: `0.1.0` is used.
    NoVersion,
    /// The global configuration names no author: the author's fields are
    /// empty.
    NoAuthor,
    /// The author has no user name: it is empty.
    NoGithubUsername,
    /// The version-control tool asked for is not supported: none is used.
    UnknownVersionControl,
}

/// The warning about the license, if there is one.
pub open spec fn license_warning(license: Option<LicenseView>) -> Seq<Warning> {
    match license {
        None => seq![Warning::NoLicense],
        Some(LicenseView::Unknown(_)) => seq![Warning::UnknownLicense],
        Some(_) => Seq::empty(),
    }
}

/// The warning about the version, if there is one.
pub open spec fn version_warning(project: Project) -> Seq<Warning> {
    if project_version(project) is None {
        seq![Warning::NoVersion]
    } else {
        Seq::empty()
    }
}

/// The warning about the author, if there is one.
pub open spec fn author_warning(config: Config) -> Seq<Warning> {
    match config.author {
        None => seq![Warning::NoAuthor],
        Some(a) => if a.github_username is None {
            seq![Warning::NoGithubUsername]
        } else {
            Seq::empty()
        },
    }
}

/// The warning about version control, if there is one.
pub open spec fn version_control_warning(tool: Option<VersionControlView>) -> Seq<Warning> {
    match tool {
        Some(VersionControlView::Unknown(_)) => seq![Warning::UnknownVersionControl],
        _ => Seq::empty(),
    }
}

/// The warnings of a run, in the order of the settings they are about:
/// license, version, author, version control.
pub open spec fn warnings_of(project: Project, config: Config) -> Seq<Warning> {
    license_warning(resolved_license(project, config)) + version_warning(project) + author_warning(
        config,
    ) + version_control_warning(resolved_version_control(project, config))
}

/// The plan that ends at once with a failure.
pub open spec fn ended(failure: Failure) -> Seq<StepView> {
    seq![StepView::Abort { failure }]
}

/// The steps of a stage followed by the rest of the plan; where the stage
/// failed, the failure ends the plan.
pub open spec fn chain(stage: Result<Seq<StepView>, Failure>, rest: Seq<StepView>) -> Seq<StepView> {
    match stage {
        Ok(steps) => steps + rest,
        Err(f) => ended(f),
    }
}

/// A stage of at most one step.
pub open spec fn single(step: Option<Result<StepView, Failure>>) -> Result<Seq<StepView>, Failure> {
    match step {
        None => Ok(Seq::empty()),
        Some(Ok(s)) => Ok(seq![s]),
        Some(Err(f)) => Err(f),
    }
}

/// The license stage: the step that writes `LICENSE` where a built-in
/// license was resolved, and nothing otherwise.
pub open spec fn license_stage(bound: Map<Seq<char>, Binding>, license: Option<LicenseView>) -> Result<
    Seq<StepView>,
    Failure,
> {
    match license {
        Some(l) => match license_template(l) {
            Some(text) => single(Some(written_file(bound, text, "LICENSE"@))),
            None => single(None),
        },
        None => single(None),
    }
}

/// The README stage: the step that writes `README.md` where the manifest
/// asks for it.
pub open spec fn readme_stage(bound: Map<Seq<char>, Binding>, with_readme: bool) -> Result<
    Seq<StepView>,
    Failure,
> {
    if with_readme {
        single(Some(written_file(bound, README@, "README.md"@)))
    } else {
        single(None)
    }
}

/// The bindings that templates and scripts are rendered against: those of
/// the start, and the list of the files that were created.
pub open spec fn with_files(bound: Map<Seq<char>, Binding>, files: Seq<Seq<char>>) -> Map<Seq<char>, Binding> {
    bound.insert("files"@, Binding::List(files))
}

/// The plan from the templates on: templates, scripts, version control.
pub open spec fn rendering_tail(full: Map<Seq<char>, Binding>, name: Seq<char>, project: Project, config: Config) -> Seq<
    StepView,
> {
    chain(
        template_stage(full, entries_of(project.files.templates), false),
        chain(
            template_stage(full, entries_of(project.files.scripts), true),
            repository_steps(resolved_version_control(project, config), name),
        ),
    )
}

/// The plan after the files' paths were substituted: the files, the license,
/// the README, and what follows them.
pub open spec fn emitting_tail(
    bound: Map<Seq<char>, Binding>,
    files: Seq<Seq<char>>,
    name: Seq<char>,
    project: Project,
    config: Config,
) -> Seq<StepView> {
    file_steps(files) + chain(
        license_stage(bound, resolved_license(project, config)),
        chain(
            readme_stage(bound, project.with_readme),
            rendering_tail(with_files(bound, files), name, project, config),
        ),
    )
}

/// The plan from the files on.
pub open spec fn files_tail(bound: Map<Seq<char>, Binding>, name: Seq<char>, project: Project, config: Config) -> Seq<
    StepView,
> {
    match rendered_items(bound, entries_of(project.files.files)) {
        Ok(files) => emitting_tail(bound, files, name, project, config),
        Err(f) => ended(f),
    }
}

/// The steps of a run. A target that is in the way ends the run before
/// anything is done, unless overwriting was asked for.
pub open spec fn planned_steps(
    name: Seq<char>,
    project: Project,
    config: Config,
    date: Date,
    force: bool,
    target_exists: bool,
) -> Seq<StepView> {
    if target_exists && !force {
        ended(Failure::AlreadyExists)
    } else {
        let bound = initial_bindings(name, project, config, date);
        seq![StepView::CreateRoot] + chain(
            directory_stage(bound, entries_of(project.files.directories)),
            files_tail(bound, name, project, config),
        )
    }
}

/// The bindings that the plan holds for the rendering of templates: those of
/// the start and, where the files' paths could be substituted, their list.
pub open spec fn planned_bindings(name: Seq<char>, project: Project, config: Config, date: Date) -> Map<
    Seq<char>,
    Binding,
> {
    let bound = initial_bindings(name, project, config, date);
    match rendered_items(bound, entries_of(project.files.files)) {
        Ok(files) => with_files(bound, files),
        Err(_) => bound,
    }
}

/// The plan of a run.
pub struct Plan {
    /// The target directory, which is the project's name.
    pub root: String,
    /// The manifest's directory, under which the templates lie.
    pub base: String,
    /// The steps, in the order in which they are to be performed.
    pub steps: Vec<Step>,
    /// The context that the templates' contents are rendered against.
    pub context: Context,
    /// What is to be reported before the steps are performed.
    pub warnings: Vec<Warning>,
}

impl Plan {
    /// Whether this is the plan of the run that the arguments describe.
    pub open spec fn is_plan_of(
        self,
        name: Seq<char>,
        project: Project,
        config: Config,
        date: Date,
        force: bool,
        target_exists: bool,
    ) -> bool {
        &&& self.root@ == name
        &&& self.base@ == project.path@
        &&& step_views(self.steps@) == planned_steps(name, project, config, date, force, target_exists)
        &&& self.context@ == planned_bindings(name, project, config, date)
        &&& self.warnings@ == warnings_of(project, config)
    }

    /// Substitutes the plan's context into the contents of a template.
    pub fn render_contents(&self, contents: &str) -> (out: Result<String, Failure>)
        ensures
            text_view(out) == rendered_item(self.context@, contents@),
    {
        render_item(&self.context, contents, false)
    }
}

/// The warnings of a run.
pub fn warnings(project: &Project, config: &Config) -> (list: Vec<Warning>)
    ensures
        list@ == warnings_of(*project, *config),
{
    let mut list: Vec<Warning> = Vec::new();
    match resolve_license(project, config) {
        None => {
            list.push(Warning::NoLicense);
        },
        Some(License::Unknown(_)) => {
            list.push(Warning::UnknownLicense);
        },
        Some(_) => {},
    }
    let ghost about_license = list@;
    proof {
        assert(about_license =~= license_warning(resolved_license(*project, *config)));
    }
    let versioned = match &project.config {
        Some(c) => c.version.is_some(),
        None => false,
    };
    if !versioned {
        list.push(Warning::NoVersion);
    }
    let ghost about_version = list@;
    proof {
        assert(about_version =~= about_license + version_warning(*project));
    }
    match &config.author {
        None => {
            list.push(Warning::NoAuthor);
        },
        Some(a) => {
            if a.github_username.is_none() {
                list.push(Warning::NoGithubUsername);
            }
        },
    }
    let ghost about_author = list@;
    proof {
        assert(about_author =~= about_version + author_warning(*config));
    }
    match resolve_version_control(project, config) {
        Some(VersionControl::Unknown(_)) => {
            list.push(Warning::UnknownVersionControl);
        },
        _ => {},
    }
    proof {
        assert(list@ =~= about_author + version_control_warning(
            resolved_version_control(*project, *config),
        ));
    }
    list
}

/// The steps of `more` after those of `steps`.
fn append_steps(steps: &mut Vec<Step>, more: Vec<Step>)
    ensures
        step_views(final(steps)@) == step_views(old(steps)@) + step_views(more@),
{
    let mut more = more;
    let ghost before = steps@;
    let ghost added = more@;
    steps.append(&mut more);
    proof {
        assert(steps@ == before + added);
        assert(step_views(steps@) =~= step_views(before) + step_views(added));
    }
}

/// A plan of the one step that ends the run with a failure.
fn aborted(failure: Failure) -> (steps: Vec<Step>)
    ensures
        step_views(steps@) == ended(failure),
{
    let mut steps: Vec<Step> = Vec::new();
    steps.push(Step::Abort { failure });
    proof {
        assert(step_views(steps@) =~= ended(failure));
    }
    steps
}

/// The steps of a stage followed by the rest of the plan; where the stage
/// failed, the failure ends the plan.
fn chain_steps(stage: Result<Vec<Step>, Failure>, rest: Vec<Step>) -> (steps: Vec<Step>)
    ensures
        step_views(steps@) == chain(steps_view(stage), step_views(rest@)),
{
    match stage {
        Ok(first) => {
            let mut steps = first;
            append_steps(&mut steps, rest);
            steps
        },
        Err(f) => aborted(f),
    }
}

/// A stage of one step, or the failure to make it.
fn single_step(step: Result<Step, Failure>) -> (out: Result<Vec<Step>, Failure>)
    ensures
        steps_view(out) == single(Some(step_view(step))),
{
    match step {
        Ok(s) => {
            let ghost view = s@;
            let mut steps: Vec<Step> = Vec::new();
            steps.push(s);
            proof {
                assert(step_views(steps@) =~= seq![view]);
            }
            Ok(steps)
        },
        Err(f) => Err(f),
    }
}

/// A stage without steps.
fn no_steps() -> (out: Result<Vec<Step>, Failure>)
    ensures
        steps_view(out) == single(None),
{
    let steps: Vec<Step> = Vec::new();
    proof {
        assert(step_views(steps@) =~= Seq::empty());
    }
    Ok(steps)
}

/// The license stage: `LICENSE` is written where a built-in license was
/// resolved.
pub fn license_steps(context: &Context, license: &Option<License>) -> (out: Result<Vec<Step>, Failure>)
    ensures
        steps_view(out) == license_stage(context@, license_view(*license)),
{
    let text = match license {
        Some(l) => license_text(l),
        None => None,
    };
    match text {
        Some(t) => single_step(render_file(t, "LICENSE", context)),
        None => no_steps(),
    }
}

/// The README stage: `README.md` is written where the manifest asks for it.
pub fn readme_steps(context: &Context, with_readme: bool) -> (out: Result<Vec<Step>, Failure>)
    ensures
        steps_view(out) == readme_stage(context@, with_readme),
{
    if with_readme {
        single_step(render_file(README, "README.md", context))
    } else {
        no_steps()
    }
}

/// The directory stage of a manifest.
fn directory_steps_of(project: &Project, context: &Context) -> (out: Result<Vec<Step>, Failure>)
    ensures
        steps_view(out) == directory_stage(context@, entries_of(project.files.directories)),
{
    match &project.files.directories {
        Some(directories) => render_dirs(directories, context),
        None => {
            let none: Vec<String> = Vec::new();
            proof {
                assert(none.deep_view() =~= Seq::empty());
            }
            render_dirs(&none, context)
        },
    }
}

/// The paths of the empty files of a manifest.
fn file_paths_of(project: &Project, context: &Context) -> (out: Result<Vec<String>, Failure>)
    ensures
        texts_view(out) == rendered_items(context@, entries_of(project.files.files)),
{
    match &project.files.files {
        Some(files) => render_files(files, context),
        None => {
            let none: Vec<String> = Vec::new();
            proof {
                assert(none.deep_view() =~= Seq::empty());
            }
            render_files(&none, context)
        },
    }
}

/// The plan from the templates on: templates, scripts, version control.
/// `full` is the context with the list of files bound.
pub fn plan_rendering(full: &Context, name: &str, project: &Project, config: &Config) -> (steps: Vec<Step>)
    ensures
        step_views(steps@) == rendering_tail(full@, name@, *project, *config),
{
    let tool = resolve_version_control(project, config);
    let last = init_repository(&tool, name);
    let scripts = chain_steps(render_templates(&project.files.scripts, full, true), last);
    chain_steps(render_templates(&project.files.templates, full, false), scripts)
}

/// The plan of a run on a given date. `target_exists` says whether the
/// target directory is in place; with it and without `force`, the plan is to
/// end the run at once.
pub fn plan_run(
    name: &str,
    config: &Config,
    project: &Project,
    force: bool,
    target_exists: bool,
    date: Date,
) -> (plan: Plan)
    ensures
        plan.is_plan_of(name@, *project, *config, date, force, target_exists),
{
    let noted = warnings(project, config);
    let context = build_context(name, project, config, date);
    let ghost bound = context@;
    let directories = directory_steps_of(project, &context);
    let files = file_paths_of(project, &context);
    let license = license_steps(&context, &resolve_license(project, config));
    let readme = readme_steps(&context, project.with_readme);
    let (held, after_directories) = match files {
        Ok(paths) => {
            let mut steps = create_files(&paths);
            let full = context.insert_list("files", &paths);
            let rendering = plan_rendering(&full, name, project, config);
            append_steps(&mut steps, chain_steps(license, chain_steps(readme, rendering)));
            (full, steps)
        },
        Err(f) => (context, aborted(f)),
    };
    proof {
        assert(step_views(after_directories@) == files_tail(bound, name@, *project, *config));
    }
    let steps = if target_exists && !force {
        aborted(Failure::AlreadyExists)
    } else {
        let mut steps: Vec<Step> = Vec::new();
        steps.push(Step::CreateRoot);
        proof {
            assert(step_views(steps@) =~= seq![StepView::CreateRoot]);
        }
        append_steps(&mut steps, chain_steps(directories, after_directories));
        steps
    };
    Plan { root: owned(name), base: project.path.clone(), steps, context: held, warnings: noted }
}

/// What planning a run at a given date returns: the plan, or a failure
/// where there is no date to bind.
pub open spec fn is_outcome_of(
    out: Result<Plan, Failure>,
    name: Seq<char>,
    project: Project,
    config: Config,
    date: Option<Date>,
    force: bool,
    target_exists: bool,
) -> bool {
    match out {
        Ok(plan) => date matches Some(d) && plan.is_plan_of(
            name,
            project,
            config,
            d,
            force,
            target_exists,
        ),
        Err(failure) => date is None && failure == without_date(force, target_exists),
    }
}

/// The failure of a run that has no date: that of a target in the way where
/// the run would end on it in any case, that of the clock otherwise.
pub open spec fn without_date(force: bool, target_exists: bool) -> Failure {
    if target_exists && !force {
        Failure::AlreadyExists
    } else {
        Failure::Clock
    }
}

/// The plan of a run at the date that was read from the clock, if one was
/// read. Without a date the run ends on a target that is in the way before it
/// ends on the clock.
pub fn plan_at(
    name: &str,
    config: &Config,
    project: &Project,
    force: bool,
    target_exists: bool,
    date: Option<Date>,
) -> (out: Result<Plan, Failure>)
    ensures
        is_outcome_of(out, name@, *project, *config, date, force, target_exists),
{
    match date {
        Some(d) => Ok(plan_run(name, config, project, force, target_exists, d)),
        None => if target_exists && !force {
            Err(Failure::AlreadyExists)
        } else {
            Err(Failure::Clock)
        },
    }
}

/// The plan of a run that starts now. The date that the context binds is
/// today's, in UTC; without a date from the clock there is no plan.
pub fn init_helper(name: &str, config: &Config, project: &Project, force: bool, target_exists: bool) -> (out:
    Result<Plan, Failure>)
    ensures
        exists|date: Option<Date>|
            (date matches Some(d) ==> d.in_range()) && #[trigger] is_outcome_of(
                out,
                name@,
                *project,
                *config,
                date,
                force,
                target_exists,
            ),
{
    let date = today();
    plan_at(name, config, project, force, target_exists, date)
}

} // verus!
