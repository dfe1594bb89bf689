//! Resolution of the effective settings from a manifest and the global
//! configuration, and the context that is built from them.
//!
//! A manifest's license and version-control tool take precedence over the
//! global ones. Custom keys go the other way: the manifest's table is bound
//! first and the global table after it, so the global value of a key stays.
//! The reserved names are bound last and cannot be shadowed.

use vstd::prelude::*;
use crate::context::{nothing_bound, Binding, Context};
use crate::date::{date_text, format_date, Date};
use crate::names::{capitalized, to_capitalized, to_upper_camel_case, upper_camel};
use crate::text::owned;
use crate::types::{
    license_display,
    Config,
    CustomKeys,
    License,
    LicenseView,
    Project,
    VersionControl,
    VersionControlView,
};

verus! {

/// What a resolved license is: the view of the one that was chosen, if any.
pub open spec fn license_view(license: Option<License>) -> Option<LicenseView> {
    match license {
        Some(l) => Some(l@),
        None => None,
    }
}

/// What a resolved tool is: the view of the one that was chosen, if any.
pub open spec fn version_control_view(tool: Option<VersionControl>) -> Option<VersionControlView> {
    match tool {
        Some(t) => Some(t@),
        None => None,
    }
}

/// The effective license: the manifest's, else the global one, else none.
pub open spec fn resolved_license(project: Project, config: Config) -> Option<LicenseView> {
    if project.license is Some {
        license_view(project.license)
    } else {
        license_view(config.license)
    }
}

/// The tool that the manifest asks for, if it asks for one.
pub open spec fn project_version_control(project: Project) -> Option<VersionControlView> {
    match project.config {
        Some(c) => version_control_view(c.version_control),
        None => None,
    }
}

/// The effective version-control tool: the manifest's, else the global one,
/// else none.
pub open spec fn resolved_version_control(project: Project, config: Config) -> Option<
    VersionControlView,
> {
    if project_version_control(project) is Some {
        project_version_control(project)
    } else {
        version_control_view(config.version_control)
    }
}

/// The version that the manifest gives, if it gives one.
pub open spec fn project_version(project: Project) -> Option<Seq<char>> {
    match project.config {
        Some(c) => match c.version {
            Some(v) => Some(v@),
            None => None,
        },
        None => None,
    }
}

/// The effective version: the manifest's, else `0.1.0`.
pub open spec fn resolved_version(project: Project) -> Seq<char> {
    match project_version(project) {
        Some(v) => v,
        None => "0.1.0"@,
    }
}

/// The author's name: empty where the global configuration names no author.
pub open spec fn author_name(config: Config) -> Seq<char> {
    match config.author {
        Some(a) => a.name@,
        None => Seq::empty(),
    }
}

/// The author's email address: empty where the global configuration names no
/// author.
pub open spec fn author_email(config: Config) -> Seq<char> {
    match config.author {
        Some(a) => a.email@,
        None => Seq::empty(),
    }
}

/// The author's user name: empty where the global configuration gives none.
pub open spec fn author_handle(config: Config) -> Seq<char> {
    match config.author {
        Some(a) => match a.github_username {
            Some(h) => h@,
            None => Seq::empty(),
        },
        None => Seq::empty(),
    }
}

/// The entries of a table of custom keys; none where there is no table.
pub open spec fn custom_entries(keys: Option<CustomKeys>) -> Seq<(Seq<char>, Option<Seq<char>>)> {
    match keys {
        Some(k) => k@,
        None => Seq::empty(),
    }
}

/// The bindings after the entries of a table were bound in order: each key
/// with a string value is bound to it, the other keys are passed over.
pub open spec fn with_custom(
    bound: Map<Seq<char>, Binding>,
    entries: Seq<(Seq<char>, Option<Seq<char>>)>,
) -> Map<Seq<char>, Binding>
    decreases entries.len(),
{
    if entries.len() == 0 {
        bound
    } else {
        let before = with_custom(bound, entries.drop_last());
        match entries.last().1 {
            Some(text) => before.insert(entries.last().0, Binding::Text(text)),
            None => before,
        }
    }
}

/// The string value that a table gives a key: that of its last entry for the
/// key that holds a string.
pub open spec fn custom_text(entries: Seq<(Seq<char>, Option<Seq<char>>)>, key: Seq<char>) -> Option<
    Seq<char>,
>
    decreases entries.len(),
{
    if entries.len() == 0 {
        None
    } else if entries.last().0 == key && entries.last().1 is Some {
        entries.last().1
    } else {
        custom_text(entries.drop_last(), key)
    }
}

/// Whether `key` is one of the names that the context reserves.
pub open spec fn is_reserved(key: Seq<char>) -> bool {
    ||| key == "project"@
    ||| key == "Project"@
    ||| key == "ProjectCamelCase"@
    ||| key == "year"@
    ||| key == "version"@
    ||| key == "github_username"@
    ||| key == "date"@
    ||| key == "name"@
    ||| key == "email"@
    ||| key == "license"@
}

/// The bindings after the reserved names were bound.
pub open spec fn with_reserved(
    bound: Map<Seq<char>, Binding>,
    name: Seq<char>,
    project: Project,
    config: Config,
    date: Date,
) -> Map<Seq<char>, Binding> {
    let fixed = bound.insert("project"@, Binding::Text(name)).insert(
        "Project"@,
        Binding::Text(capitalized(name)),
    ).insert("ProjectCamelCase"@, Binding::Text(upper_camel(name))).insert(
        "year"@,
        Binding::Number(date.year as int),
    ).insert("version"@, Binding::Text(resolved_version(project))).insert(
        "github_username"@,
        Binding::Text(author_handle(config)),
    ).insert(
        "date"@,
        Binding::Text(date_text(date.month0 as nat, date.day0 as nat, date.year as int)),
    ).insert("name"@, Binding::Text(author_name(config))).insert(
        "email"@,
        Binding::Text(author_email(config)),
    );
    match resolved_license(project, config) {
        Some(l) => fixed.insert("license"@, Binding::Text(license_display(l))),
        None => fixed,
    }
}

/// The bindings of the context that a run starts with: the manifest's custom
/// keys, then the global ones, then the reserved names.
pub open spec fn initial_bindings(name: Seq<char>, project: Project, config: Config, date: Date) -> Map<
    Seq<char>,
    Binding,
> {
    with_reserved(
        with_custom(
            with_custom(nothing_bound(), custom_entries(project.custom_keys)),
            custom_entries(config.custom_keys),
        ),
        name,
        project,
        config,
        date,
    )
}

/// The effective license: the manifest's where it names one, else the global
/// one.
pub fn resolve_license(project: &Project, config: &Config) -> (license: Option<License>)
    ensures
        license_view(license) == resolved_license(*project, *config),
{
    match &project.license {
        Some(l) => Some(l.duplicate()),
        None => match &config.license {
            Some(l) => Some(l.duplicate()),
            None => None,
        },
    }
}

/// The effective version-control tool: the manifest's where it names one,
/// else the global one.
pub fn resolve_version_control(project: &Project, config: &Config) -> (tool: Option<VersionControl>)
    ensures
        version_control_view(tool) == resolved_version_control(*project, *config),
{
    match &project.config {
        Some(c) => match &c.version_control {
            Some(t) => {
                return Some(t.duplicate());
            },
            None => {},
        },
        None => {},
    }
    match &config.version_control {
        Some(t) => Some(t.duplicate()),
        None => None,
    }
}

/// The effective version: the manifest's where it gives one, else `0.1.0`.
pub fn resolve_version(project: &Project) -> (version: String)
    ensures
        version@ == resolved_version(*project),
{
    match &project.config {
        Some(c) => match &c.version {
            Some(v) => {
                return v.clone();
            },
            None => {},
        },
        None => {},
    }
    owned("0.1.0")
}

/// Binds the string-valued entries of a table of custom keys, in the table's
/// order. Entries with other values are passed over.
pub fn insert_custom(context: Context, keys: &Option<CustomKeys>) -> (extended: Context)
    ensures
        extended@ == with_custom(context@, custom_entries(*keys)),
{
    match keys {
        None => context,
        Some(table) => {
            let entries = table.entries();
            let ghost start = context@;
            let ghost all = entries.deep_view();
            let mut extended = context;
            let mut i: usize = 0;
            while i < entries.len()
                invariant
                    i <= entries.len(),
                    all == entries.deep_view(),
                    extended@ == with_custom(start, all.take(i as int)),
                decreases entries.len() - i,
            {
                proof {
                    assert(all.take(i + 1).drop_last() == all.take(i as int));
                    assert(all.take(i + 1).last() == all[i as int]);
                    assert(all[i as int] == entries[i as int].deep_view());
                }
                match &entries[i].1 {
                    Some(text) => {
                        extended = extended.insert(entries[i].0.as_str(), text.as_str());
                    },
                    None => {},
                }
                i = i + 1;
            }
            proof {
                assert(all.take(entries.len() as int) == all);
            }
            extended
        },
    }
}

/// Binds the reserved names: the project's name in three forms, the year and
/// the date, the version, the author and, where one was resolved, the
/// license's display name.
pub fn insert_reserved(context: Context, name: &str, project: &Project, config: &Config, date: Date) -> (extended:
    Context)
    ensures
        extended@ == with_reserved(context@, name@, *project, *config, date),
{
    let capital = to_capitalized(name);
    let camel = to_upper_camel_case(name);
    let version = resolve_version(project);
    let date_shown = format_date(date.month0, date.day0, date.year);
    let empty = owned("");
    proof {
        reveal_strlit("");
        assert(""@ =~= Seq::<char>::empty());
    }
    let handle: &str = match &config.author {
        Some(a) => match &a.github_username {
            Some(h) => h.as_str(),
            None => empty.as_str(),
        },
        None => empty.as_str(),
    };
    let author: &str = match &config.author {
        Some(a) => a.name.as_str(),
        None => empty.as_str(),
    };
    let email: &str = match &config.author {
        Some(a) => a.email.as_str(),
        None => empty.as_str(),
    };
    let fixed = context.insert("project", name).insert("Project", capital.as_str()).insert(
        "ProjectCamelCase",
        camel.as_str(),
    ).insert_number("year", date.year).insert("version", version.as_str()).insert(
        "github_username",
        handle,
    ).insert("date", date_shown.as_str()).insert("name", author).insert("email", email);
    match resolve_license(project, config) {
        Some(l) => {
            let shown = l.to_string();
            fixed.insert("license", shown.as_str())
        },
        None => fixed,
    }
}

/// The context that a run starts with.
pub fn build_context(name: &str, project: &Project, config: &Config, date: Date) -> (context: Context)
    ensures
        context@ == initial_bindings(name@, *project, *config, date),
{
    let custom = insert_custom(Context::new(), &project.custom_keys);
    let global = insert_custom(custom, &config.custom_keys);
    insert_reserved(global, name, project, config, date)
}

/// What binding a table's entries does to one key: the key is bound to the
/// string value that the table gives it, and keeps its binding where the
/// table gives it none.
pub proof fn lemma_with_custom_at(
    bound: Map<Seq<char>, Binding>,
    entries: Seq<(Seq<char>, Option<Seq<char>>)>,
    key: Seq<char>,
)
    ensures
        match custom_text(entries, key) {
            Some(text) => with_custom(bound, entries).contains_key(key) && with_custom(
                bound,
                entries,
            )[key] == Binding::Text(text),
            None => with_custom(bound, entries).contains_key(key) == bound.contains_key(key)
                && with_custom(bound, entries)[key] == bound[key],
        },
    decreases entries.len(),
{
    if entries.len() > 0 {
        lemma_with_custom_at(bound, entries.drop_last(), key);
    }
}

/// Where both the manifest and the global configuration name a
/// version-control tool, the manifest's is the effective one.
pub proof fn law_manifest_version_control_wins(project: Project, config: Config)
    requires
        project_version_control(project) is Some,
        config.version_control is Some,
    ensures
        resolved_version_control(project, config) == project_version_control(project),
{
}

/// Where both the manifest and the global configuration name a license, the
/// manifest's is the effective one.
pub proof fn law_manifest_license_wins(project: Project, config: Config)
    requires
        project.license is Some,
        config.license is Some,
    ensures
        resolved_license(project, config) == license_view(project.license),
{
}

/// A custom key to which the global table gives a string value is bound to
/// that value in the context, whatever the manifest's table gives it. This is
/// said of keys that are not reserved: a reserved name keeps its own value.
pub proof fn law_global_custom_key_wins(
    name: Seq<char>,
    project: Project,
    config: Config,
    date: Date,
    key: Seq<char>,
    value: Seq<char>,
)
    requires
        custom_text(custom_entries(config.custom_keys), key) == Some(value),
        !is_reserved(key),
    ensures
        initial_bindings(name, project, config, date).contains_key(key),
        initial_bindings(name, project, config, date)[key] == Binding::Text(value),
{
    let manifest = with_custom(nothing_bound(), custom_entries(project.custom_keys));
    lemma_with_custom_at(manifest, custom_entries(config.custom_keys), key);
}

/// A custom key that only the manifest's table gives a string value is bound
/// to that value, unless the name is reserved.
pub proof fn law_manifest_custom_key_is_bound(
    name: Seq<char>,
    project: Project,
    config: Config,
    date: Date,
    key: Seq<char>,
    value: Seq<char>,
)
    requires
        custom_text(custom_entries(project.custom_keys), key) == Some(value),
        custom_text(custom_entries(config.custom_keys), key) is None,
        !is_reserved(key),
    ensures
        initial_bindings(name, project, config, date).contains_key(key),
        initial_bindings(name, project, config, date)[key] == Binding::Text(value),
{
    let manifest = with_custom(nothing_bound(), custom_entries(project.custom_keys));
    lemma_with_custom_at(nothing_bound(), custom_entries(project.custom_keys), key);
    lemma_with_custom_at(manifest, custom_entries(config.custom_keys), key);
}

/// A name that neither table gives a string value and that is not reserved
/// is not bound.
pub proof fn law_only_given_keys_are_bound(
    name: Seq<char>,
    project: Project,
    config: Config,
    date: Date,
    key: Seq<char>,
)
    requires
        custom_text(custom_entries(project.custom_keys), key) is None,
        custom_text(custom_entries(config.custom_keys), key) is None,
        !is_reserved(key),
    ensures
        !initial_bindings(name, project, config, date).contains_key(key),
{
    let manifest = with_custom(nothing_bound(), custom_entries(project.custom_keys));
    lemma_with_custom_at(nothing_bound(), custom_entries(project.custom_keys), key);
    lemma_with_custom_at(manifest, custom_entries(config.custom_keys), key);
}

/// Custom keys cannot shadow the reserved names: whatever the tables hold,
/// the project's name, the version and the author are bound to the resolved
/// values.
pub proof fn law_reserved_names_are_authoritative(
    name: Seq<char>,
    project: Project,
    config: Config,
    date: Date,
)
    ensures
        initial_bindings(name, project, config, date)["project"@] == Binding::Text(name),
        initial_bindings(name, project, config, date)["Project"@] == Binding::Text(
            capitalized(name),
        ),
        initial_bindings(name, project, config, date)["ProjectCamelCase"@] == Binding::Text(
            upper_camel(name),
        ),
        initial_bindings(name, project, config, date)["year"@] == Binding::Number(
            date.year as int,
        ),
        initial_bindings(name, project, config, date)["version"@] == Binding::Text(
            resolved_version(project),
        ),
        initial_bindings(name, project, config, date)["github_username"@] == Binding::Text(
            author_handle(config),
        ),
        initial_bindings(name, project, config, date)["date"@] == Binding::Text(
            date_text(date.month0 as nat, date.day0 as nat, date.year as int),
        ),
        initial_bindings(name, project, config, date)["name"@] == Binding::Text(
            author_name(config),
        ),
        initial_bindings(name, project, config, date)["email"@] == Binding::Text(
            author_email(config),
        ),
        resolved_license(project, config) matches Some(l) ==> initial_bindings(
            name,
            project,
            config,
            date,
        )["license"@] == Binding::Text(license_display(l)),
{
    lemma_reserved_names_differ();
}

/// The reserved names are ten different names.
pub proof fn lemma_reserved_names_differ()
    ensures
        "project"@.len() == 7,
        "Project"@.len() == 7,
        "project"@[0] == 'p',
        "Project"@[0] == 'P',
        "ProjectCamelCase"@.len() == 16,
        "year"@.len() == 4,
        "year"@[0] == 'y',
        "version"@.len() == 7,
        "version"@[0] == 'v',
        "github_username"@.len() == 15,
        "date"@.len() == 4,
        "date"@[0] == 'd',
        "name"@.len() == 4,
        "name"@[0] == 'n',
        "email"@.len() == 5,
        "license"@.len() == 7,
        "license"@[0] == 'l',
{
    reveal_strlit("project");
    reveal_strlit("Project");
    reveal_strlit("ProjectCamelCase");
    reveal_strlit("year");
    reveal_strlit("version");
    reveal_strlit("github_username");
    reveal_strlit("date");
    reveal_strlit("name");
    reveal_strlit("email");
    reveal_strlit("license");
}

} // verus!
