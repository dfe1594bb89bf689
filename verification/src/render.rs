//! Substitution into the paths and texts of a manifest, stage by stage.
//!
//! Each stage substitutes the context into all its entries before anything of
//! it is done: where one entry fails, the stage yields the failure and no
//! step.

use vstd::prelude::*;
use os_str_bytes::OsStrBytes;
use std::path::Path;
use crate::context::{render_result, Binding, Context};
use crate::plan::{step_views, Failure, Step, StepView, SCRIPT_MODE};
use crate::text::owned;

verus! {

/// `OsStrBytes::from_raw_bytes` for `Path`, of the crate `os_str_bytes`, on
/// the bytes of a text, and the path read back as text: the bytes of a text
/// are accepted as a path on every platform, and the path reads back as the
/// text it was made from.
#[verifier::external_body]
#[allow(deprecated)]
fn as_path(text: &str) -> (path: Option<String>)
    ensures
        path is Some,
        path matches Some(p) ==> p@ == text@,
{
    Path::from_raw_bytes(text.as_bytes()).ok().map(|p| p.to_string_lossy().into_owned())
}

/// What substituting into one entry gives: the text, or the failure to
/// render it.
pub open spec fn rendered_item(bound: Map<Seq<char>, Binding>, template: Seq<char>) -> Result<
    Seq<char>,
    Failure,
> {
    match render_result(bound, template) {
        Err(e) => Err(Failure::Template(e)),
        Ok(text) => Ok(text),
    }
}

/// What substituting into the entries of a stage gives: all the texts in
/// order, or the failure of the first entry that fails.
pub open spec fn rendered_items(bound: Map<Seq<char>, Binding>, templates: Seq<Seq<char>>) -> Result<
    Seq<Seq<char>>,
    Failure,
>
    decreases templates.len(),
{
    if templates.len() == 0 {
        Ok(Seq::empty())
    } else {
        match rendered_items(bound, templates.drop_last()) {
            Err(f) => Err(f),
            Ok(done) => match rendered_item(bound, templates.last()) {
                Ok(text) => Ok(done.push(text)),
                Err(f) => Err(f),
            },
        }
    }
}

/// The view of a text or a failure.
pub open spec fn text_view(out: Result<String, Failure>) -> Result<Seq<char>, Failure> {
    match out {
        Ok(text) => Ok(text@),
        Err(f) => Err(f),
    }
}

/// The view of a list of texts or a failure.
pub open spec fn texts_view(out: Result<Vec<String>, Failure>) -> Result<Seq<Seq<char>>, Failure> {
    match out {
        Ok(texts) => Ok(texts.deep_view()),
        Err(f) => Err(f),
    }
}

/// The view of a list of steps or a failure.
pub open spec fn steps_view(out: Result<Vec<Step>, Failure>) -> Result<Seq<StepView>, Failure> {
    match out {
        Ok(steps) => Ok(step_views(steps@)),
        Err(f) => Err(f),
    }
}

/// The view of a step or a failure.
pub open spec fn step_view(out: Result<Step, Failure>) -> Result<StepView, Failure> {
    match out {
        Ok(step) => Ok(step@),
        Err(f) => Err(f),
    }
}

/// The entries of an optional list; none where there is no list.
pub open spec fn entries_of(list: Option<Vec<String>>) -> Seq<Seq<char>> {
    match list {
        Some(entries) => entries.deep_view(),
        None => Seq::empty(),
    }
}

/// The steps that create the directories at `paths`, in order.
pub open spec fn directory_steps(paths: Seq<Seq<char>>) -> Seq<StepView> {
    Seq::new(paths.len(), |i: int| StepView::CreateDirectory { path: paths[i] })
}

/// The steps that create empty files at `paths`, in order.
pub open spec fn file_steps(paths: Seq<Seq<char>>) -> Seq<StepView> {
    Seq::new(paths.len(), |i: int| StepView::CreateFile { path: paths[i] })
}

/// The steps that render the templates at `sources` to `destinations`, in
/// order.
pub open spec fn template_steps(
    sources: Seq<Seq<char>>,
    destinations: Seq<Seq<char>>,
    mode: Option<u32>,
) -> Seq<StepView> {
    Seq::new(
        sources.len(),
        |i: int| StepView::RenderTemplate { source: sources[i], destination: destinations[i], mode },
    )
}

/// The mode that a stage's files get: that of a script where the stage is
/// executable, none otherwise.
pub open spec fn mode_of(executable: bool) -> Option<u32> {
    if executable {
        Some(SCRIPT_MODE)
    } else {
        None
    }
}

/// What each stage makes of the texts it substituted into its entries.
pub open spec fn staged(
    texts: Result<Seq<Seq<char>>, Failure>,
    steps: spec_fn(Seq<Seq<char>>) -> Seq<StepView>,
) -> Result<Seq<StepView>, Failure> {
    match texts {
        Ok(paths) => Ok(steps(paths)),
        Err(f) => Err(f),
    }
}

/// The directory stage: a step for each directory, or the stage's failure.
pub open spec fn directory_stage(bound: Map<Seq<char>, Binding>, directories: Seq<Seq<char>>) -> Result<
    Seq<StepView>,
    Failure,
> {
    staged(rendered_items(bound, directories), |paths: Seq<Seq<char>>| directory_steps(paths))
}

/// A template stage: a step for each template, or the stage's failure.
pub open spec fn template_stage(
    bound: Map<Seq<char>, Binding>,
    sources: Seq<Seq<char>>,
    executable: bool,
) -> Result<Seq<StepView>, Failure> {
    staged(
        rendered_items(bound, sources),
        |paths: Seq<Seq<char>>| template_steps(sources, paths, mode_of(executable)),
    )
}

/// The step that writes a built-in text, or the failure to render it.
pub open spec fn written_file(
    bound: Map<Seq<char>, Binding>,
    template: Seq<char>,
    filename: Seq<char>,
) -> Result<StepView, Failure> {
    match rendered_item(bound, template) {
        Ok(text) => Ok(StepView::WriteFile { path: filename, contents: text }),
        Err(f) => Err(f),
    }
}

/// Decides on a substituted path by what the check of it gave: the path where
/// it was accepted, a failure where it was not.
pub fn accept_path(checked: Option<String>) -> (out: Result<String, Failure>)
    ensures
        out == match checked {
            Some(path) => Ok::<String, Failure>(path),
            None => Err(Failure::PathSubstitution),
        },
{
    match checked {
        Some(path) => Ok(path),
        None => Err(Failure::PathSubstitution),
    }
}

/// Substitutes the context into one entry. With `checked`, the text is held
/// against the platform's paths, which take every text.
pub fn render_item(context: &Context, template: &str, checked: bool) -> (out: Result<String, Failure>)
    ensures
        text_view(out) == rendered_item(context@, template@),
{
    match context.render(template) {
        Err(e) => Err(Failure::Template(e)),
        Ok(text) => if checked {
            accept_path(as_path(text.as_str()))
        } else {
            Ok(text)
        },
    }
}

/// Substitutes the context into each entry, in order, and stops at the first
/// that fails.
pub fn render_items(context: &Context, templates: &Vec<String>, checked: bool) -> (out: Result<
    Vec<String>,
    Failure,
>)
    ensures
        texts_view(out) == rendered_items(context@, templates.deep_view()),
{
    let ghost all = templates.deep_view();
    let mut texts: Vec<String> = Vec::new();
    let mut i: usize = 0;
    proof {
        assert(all.take(0) =~= Seq::empty());
        assert(texts.deep_view() =~= Seq::empty());
    }
    while i < templates.len()
        invariant
            i <= templates.len(),
            all == templates.deep_view(),
            rendered_items(context@, all.take(i as int)) == Ok::<Seq<Seq<char>>, Failure>(
                texts.deep_view(),
            ),
        decreases templates.len() - i,
    {
        proof {
            assert(all.take(i + 1).drop_last() == all.take(i as int));
            assert(all.take(i + 1).last() == templates[i as int]@);
        }
        match render_item(context, templates[i].as_str(), checked) {
            Ok(text) => {
                let ghost before = texts.deep_view();
                let ghost added = text@;
                texts.push(text);
                proof {
                    assert(texts.deep_view() =~= before.push(added));
                }
            },
            Err(f) => {
                proof {
                    lemma_failure_stays(context@, all, i + 1);
                }
                return Err(f);
            },
        }
        i = i + 1;
    }
    proof {
        assert(all.take(templates.len() as int) == all);
    }
    Ok(texts)
}

/// A stage that fails on its first `n` entries fails on all of them in the
/// same way.
proof fn lemma_failure_stays(bound: Map<Seq<char>, Binding>, templates: Seq<Seq<char>>, n: int)
    requires
        0 <= n <= templates.len(),
        rendered_items(bound, templates.take(n)) is Err,
    ensures
        rendered_items(bound, templates) == rendered_items(bound, templates.take(n)),
    decreases templates.len() - n,
{
    if n < templates.len() {
        assert(templates.take(n + 1).drop_last() == templates.take(n));
        lemma_failure_stays(bound, templates, n + 1);
    } else {
        assert(templates.take(n) == templates);
    }
}

/// The views of steps after one more step was added.
proof fn lemma_step_pushed(before: Seq<Step>, step: Step)
    ensures
        step_views(before.push(step)) == step_views(before).push(step@),
{
    assert(step_views(before.push(step)) =~= step_views(before).push(step@));
}

/// The directories of a manifest: substitutes the context into each path as
/// a whole and yields a step for each, in order.
pub fn render_dirs(directories: &Vec<String>, context: &Context) -> (out: Result<Vec<Step>, Failure>)
    ensures
        steps_view(out) == directory_stage(context@, directories.deep_view()),
{
    match render_items(context, directories, false) {
        Err(f) => Err(f),
        Ok(paths) => {
            let mut steps: Vec<Step> = Vec::new();
            let mut i: usize = 0;
            while i < paths.len()
                invariant
                    i <= paths.len(),
                    steps@.len() == i,
                    step_views(steps@) == directory_steps(paths.deep_view().take(i as int)),
                decreases paths.len() - i,
            {
                let ghost before = steps@;
                steps.push(Step::CreateDirectory { path: paths[i].clone() });
                proof {
                    lemma_step_pushed(before, steps@[i as int]);
                    assert(directory_steps(paths.deep_view().take(i + 1)) =~= directory_steps(
                        paths.deep_view().take(i as int),
                    ).push(steps@[i as int]@));
                }
                i = i + 1;
            }
            proof {
                assert(paths.deep_view().take(paths.len() as int) == paths.deep_view());
            }
            Ok(steps)
        },
    }
}

/// The empty files of a manifest: substitutes the context into each path and
/// yields the paths, in order, for the steps that create the files and for
/// the list that the context binds afterwards.
pub fn render_files(files: &Vec<String>, context: &Context) -> (out: Result<Vec<String>, Failure>)
    ensures
        texts_view(out) == rendered_items(context@, files.deep_view()),
{
    render_items(context, files, true)
}

/// The steps that create empty files at the given paths.
pub fn create_files(paths: &Vec<String>) -> (steps: Vec<Step>)
    ensures
        step_views(steps@) == file_steps(paths.deep_view()),
{
    let mut steps: Vec<Step> = Vec::new();
    let mut i: usize = 0;
    while i < paths.len()
        invariant
            i <= paths.len(),
            steps@.len() == i,
            step_views(steps@) == file_steps(paths.deep_view().take(i as int)),
        decreases paths.len() - i,
    {
        let ghost before = steps@;
        steps.push(Step::CreateFile { path: paths[i].clone() });
        proof {
            lemma_step_pushed(before, steps@[i as int]);
            assert(file_steps(paths.deep_view().take(i + 1)) =~= file_steps(
                paths.deep_view().take(i as int),
            ).push(steps@[i as int]@));
        }
        i = i + 1;
    }
    proof {
        assert(paths.deep_view().take(paths.len() as int) == paths.deep_view());
    }
    steps
}

/// The templates of a manifest, or its scripts where `executable` is set:
/// substitutes the context into each destination path and yields a step for
/// each template, in order. Without a list there is nothing to do.
pub fn render_templates(templates: &Option<Vec<String>>, context: &Context, executable: bool) -> (out:
    Result<Vec<Step>, Failure>)
    ensures
        steps_view(out) == template_stage(context@, entries_of(*templates), executable),
{
    let mode: Option<u32> = if executable {
        Some(SCRIPT_MODE)
    } else {
        None
    };
    match templates {
        None => {
            let steps: Vec<Step> = Vec::new();
            proof {
                assert(step_views(steps@) =~= template_steps(Seq::empty(), Seq::empty(), mode));
            }
            Ok(steps)
        },
        Some(sources) => match render_items(context, sources, true) {
            Err(f) => Err(f),
            Ok(paths) => {
                proof {
                    lemma_rendered_length(context@, sources.deep_view());
                }
                let mut steps: Vec<Step> = Vec::new();
                let mut i: usize = 0;
                while i < sources.len()
                    invariant
                        i <= sources.len(),
                        sources.len() == paths.len(),
                        steps@.len() == i,
                        step_views(steps@) == template_steps(
                            sources.deep_view().take(i as int),
                            paths.deep_view(),
                            mode,
                        ),
                    decreases sources.len() - i,
                {
                    let ghost before = steps@;
                    steps.push(
                        Step::RenderTemplate {
                            source: sources[i].clone(),
                            destination: paths[i].clone(),
                            mode,
                        },
                    );
                    proof {
                        lemma_step_pushed(before, steps@[i as int]);
                        assert(template_steps(
                            sources.deep_view().take(i + 1),
                            paths.deep_view(),
                            mode,
                        ) =~= template_steps(
                            sources.deep_view().take(i as int),
                            paths.deep_view(),
                            mode,
                        ).push(steps@[i as int]@));
                    }
                    i = i + 1;
                }
                proof {
                    assert(sources.deep_view().take(sources.len() as int) == sources.deep_view());
                }
                Ok(steps)
            },
        },
    }
}

/// A stage that succeeds yields as many texts as it has entries.
pub proof fn lemma_rendered_length(bound: Map<Seq<char>, Binding>, templates: Seq<Seq<char>>)
    ensures
        rendered_items(bound, templates) matches Ok(texts) ==> texts.len()
            == templates.len(),
    decreases templates.len(),
{
    if templates.len() > 0 {
        lemma_rendered_length(bound, templates.drop_last());
    }
}

/// A built-in text: substitutes the context into it and yields the step that
/// writes the result to `filename`.
pub fn render_file(static_template: &str, filename: &str, context: &Context) -> (out: Result<Step, Failure>)
    ensures
        step_view(out) == written_file(context@, static_template@, filename@),
{
    match render_item(context, static_template, false) {
        Ok(text) => Ok(Step::WriteFile { path: owned(filename), contents: text }),
        Err(f) => Err(f),
    }
}

} // verus!
