//! The settings read from the global configuration and from a template's
//! manifest.

use vstd::prelude::*;
use crate::text::{owned, same_text};

verus! {

/// A license of the built-in set, or the name that was asked for and is not
/// in it.
#[derive(Debug, PartialEq, Eq)]
pub enum License {
    Bsd3,
    Bsd,
    Gpl3,
    Mit,
    AllRightsReserved,
    Unknown(String),
}

/// What a `License` is, with the unrecognized name as a sequence of characters.
pub enum LicenseView {
    Bsd3,
    Bsd,
    Gpl3,
    Mit,
    AllRightsReserved,
    Unknown(Seq<char>),
}

impl View for License {
    type V = LicenseView;

    open spec fn view(&self) -> LicenseView {
        match self {
            License::Bsd3 => LicenseView::Bsd3,
            License::Bsd => LicenseView::Bsd,
            License::Gpl3 => LicenseView::Gpl3,
            License::Mit => LicenseView::Mit,
            License::AllRightsReserved => LicenseView::AllRightsReserved,
            License::Unknown(name) => LicenseView::Unknown(name@),
        }
    }
}

/// The license that a name in a settings file stands for.
pub open spec fn license_of_name(name: Seq<char>) -> LicenseView {
    if name == "BSD3"@ {
        LicenseView::Bsd3
    } else if name == "BSD"@ {
        LicenseView::Bsd
    } else if name == "GPL3"@ {
        LicenseView::Gpl3
    } else if name == "MIT"@ {
        LicenseView::Mit
    } else if name == "ALL_RIGHTS_RESERVED"@ || name == "AllRightsReserved"@ {
        LicenseView::AllRightsReserved
    } else {
        LicenseView::Unknown(name)
    }
}

/// The name under which a license is shown and bound in the context.
pub open spec fn license_display(license: LicenseView) -> Seq<char> {
    match license {
        LicenseView::Bsd3 => "BSD3"@,
        LicenseView::Bsd => "BSD"@,
        LicenseView::Gpl3 => "GPL3"@,
        LicenseView::Mit => "MIT"@,
        LicenseView::AllRightsReserved => "All Rights Reserved"@,
        LicenseView::Unknown(_) => "Unknown License"@,
    }
}

impl License {
    /// Reads a license name as a settings file spells it. A name outside the
    /// built-in set is kept in `Unknown`.
    pub fn from_name(name: &str) -> (license: License)
        ensures
            license@ == license_of_name(name@),
    {
        if same_text(name, "BSD3") {
            License::Bsd3
        } else if same_text(name, "BSD") {
            License::Bsd
        } else if same_text(name, "GPL3") {
            License::Gpl3
        } else if same_text(name, "MIT") {
            License::Mit
        } else if same_text(name, "ALL_RIGHTS_RESERVED") || same_text(name, "AllRightsReserved") {
            License::AllRightsReserved
        } else {
            License::Unknown(owned(name))
        }
    }

    /// The display name of the license.
    pub fn to_string(&self) -> (shown: String)
        ensures
            shown@ == license_display(self@),
    {
        match self {
            License::Bsd3 => owned("BSD3"),
            License::Bsd => owned("BSD"),
            License::Gpl3 => owned("GPL3"),
            License::Mit => owned("MIT"),
            License::AllRightsReserved => owned("All Rights Reserved"),
            License::Unknown(_) => owned("Unknown License"),
        }
    }

    /// Whether the license is one of the built-in set.
    pub fn is_known(&self) -> (known: bool)
        ensures
            known == !(self@ is Unknown),
    {
        match self {
            License::Unknown(_) => false,
            _ => true,
        }
    }

    /// A copy of the license.
    pub fn duplicate(&self) -> (copy: License)
        ensures
            copy@ == self@,
    {
        match self {
            License::Bsd3 => License::Bsd3,
            License::Bsd => License::Bsd,
            License::Gpl3 => License::Gpl3,
            License::Mit => License::Mit,
            License::AllRightsReserved => License::AllRightsReserved,
            License::Unknown(name) => License::Unknown(name.clone()),
        }
    }
}

/// A version-control tool that can initialize the new project, or the name
/// that was asked for and is not supported.
#[derive(Debug, PartialEq, Eq)]
pub enum VersionControl {
    Git,
    Mercurial,
    Darcs,
    Pijul,
    Unknown(String),
}

/// What a `VersionControl` is, with the unrecognized name as a sequence of
/// characters.
pub enum VersionControlView {
    Git,
    Mercurial,
    Darcs,
    Pijul,
    Unknown(Seq<char>),
}

impl View for VersionControl {
    type V = VersionControlView;

    open spec fn view(&self) -> VersionControlView {
        match self {
            VersionControl::Git => VersionControlView::Git,
            VersionControl::Mercurial => VersionControlView::Mercurial,
            VersionControl::Darcs => VersionControlView::Darcs,
            VersionControl::Pijul => VersionControlView::Pijul,
            VersionControl::Unknown(name) => VersionControlView::Unknown(name@),
        }
    }
}

/// The tool that a name in a settings file stands for. Mercurial goes by two
/// names.
pub open spec fn version_control_of_name(name: Seq<char>) -> VersionControlView {
    if name == "git"@ {
        VersionControlView::Git
    } else if name == "hg"@ || name == "mercurial"@ {
        VersionControlView::Mercurial
    } else if name == "darcs"@ {
        VersionControlView::Darcs
    } else if name == "pijul"@ {
        VersionControlView::Pijul
    } else {
        VersionControlView::Unknown(name)
    }
}

/// The name under which a tool is shown.
pub open spec fn version_control_display(tool: VersionControlView) -> Seq<char> {
    match tool {
        VersionControlView::Git => "git"@,
        VersionControlView::Mercurial => "mercurial"@,
        VersionControlView::Darcs => "darcs"@,
        VersionControlView::Pijul => "pijul"@,
        VersionControlView::Unknown(_) => "Unknown Version Control"@,
    }
}

impl VersionControl {
    /// Reads a tool name as a settings file spells it. A name that stands for
    /// no supported tool is kept in `Unknown`.
    pub fn from_name(name: &str) -> (tool: VersionControl)
        ensures
            tool@ == version_control_of_name(name@),
    {
        if same_text(name, "git") {
            VersionControl::Git
        } else if same_text(name, "hg") || same_text(name, "mercurial") {
            VersionControl::Mercurial
        } else if same_text(name, "darcs") {
            VersionControl::Darcs
        } else if same_text(name, "pijul") {
            VersionControl::Pijul
        } else {
            VersionControl::Unknown(owned(name))
        }
    }

    /// The display name of the tool.
    pub fn to_string(&self) -> (shown: String)
        ensures
            shown@ == version_control_display(self@),
    {
        match self {
            VersionControl::Git => owned("git"),
            VersionControl::Mercurial => owned("mercurial"),
            VersionControl::Darcs => owned("darcs"),
            VersionControl::Pijul => owned("pijul"),
            VersionControl::Unknown(_) => owned("Unknown Version Control"),
        }
    }

    /// A copy of the tool.
    pub fn duplicate(&self) -> (copy: VersionControl)
        ensures
            copy@ == self@,
    {
        match self {
            VersionControl::Git => VersionControl::Git,
            VersionControl::Mercurial => VersionControl::Mercurial,
            VersionControl::Darcs => VersionControl::Darcs,
            VersionControl::Pijul => VersionControl::Pijul,
            VersionControl::Unknown(name) => VersionControl::Unknown(name.clone()),
        }
    }
}

/// The author, as the global configuration names them.
#[derive(Debug, PartialEq, Eq)]
pub struct Author {
    pub name: String,
    pub email: String,
    pub github_username: Option<String>,
}

impl Author {
    /// An author with a name and an email address, and no user name.
    pub fn new(name: &str, email: &str) -> (author: Author)
        ensures
            author.name@ == name@,
            author.email@ == email@,
            author.github_username is None,
    {
        Author { name: owned(name), email: owned(email), github_username: None }
    }
}

/// The paths that a manifest asks for: empty files, directories, templates
/// and scripts. Each path may hold tags.
#[derive(Debug)]
pub struct Directory {
    pub files: Option<Vec<String>>,
    pub directories: Option<Vec<String>>,
    pub templates: Option<Vec<String>>,
    pub scripts: Option<Vec<String>>,
}

/// The settings that a manifest may override.
#[derive(Debug)]
pub struct ProjectConfig {
    pub version_control: Option<VersionControl>,
    pub version: Option<String>,
}

#[verifier::external_type_specification]
#[verifier::external_body]
pub struct ExTomlValue(toml::Value);

/// The entries of a TOML table in the order in which the table yields them:
/// each key with its value where that is a string, and with `None` where it
/// is anything else. A value that is no table has no entries.
pub uninterp spec fn table_texts(value: toml::Value) -> Seq<(Seq<char>, Option<Seq<char>>)>;

/// `Value::as_table`, the table's `iter` and `Value::as_str` on each value:
/// the entries of the table, each value as text where it is a string.
#[verifier::external_body]
fn text_entries(value: &toml::Value) -> (entries: Vec<(String, Option<String>)>)
    ensures
        entries.deep_view() == table_texts(*value),
{
    match value.as_table() {
        Some(table) => {
            table.iter().map(|(k, v)| (k.clone(), v.as_str().map(str::to_owned))).collect()
        },
        None => Vec::new(),
    }
}

/// Keys that a user defines, as a TOML table.
#[derive(Debug)]
pub struct CustomKeys {
    pub toml: toml::Value,
}

impl View for CustomKeys {
    type V = Seq<(Seq<char>, Option<Seq<char>>)>;

    open spec fn view(&self) -> Seq<(Seq<char>, Option<Seq<char>>)> {
        table_texts(self.toml)
    }
}

impl CustomKeys {
    /// The entries of the table: each key, with its value where that is a
    /// string.
    pub fn entries(&self) -> (entries: Vec<(String, Option<String>)>)
        ensures
            entries.deep_view() == self@,
    {
        text_entries(&self.toml)
    }
}

/// The global configuration.
#[derive(Debug)]
pub struct Config {
    pub version_control: Option<VersionControl>,
    pub author: Option<Author>,
    pub license: Option<License>,
    pub custom_keys: Option<CustomKeys>,
    pub templates_repository: Option<TemplateRepository>,
}

impl Default for Config {
    /// The configuration of a user who has set nothing.
    fn default() -> (config: Config)
        ensures
            config.version_control is None,
            config.author is None,
            config.license is None,
            config.custom_keys is None,
            config.templates_repository is None,
    {
        Config {
            version_control: None,
            author: None,
            license: None,
            custom_keys: None,
            templates_repository: None,
        }
    }
}

/// Where the catalog of remote templates is: at a URL or in a file.
#[derive(Debug, PartialEq, Eq)]
pub enum TemplateRepository {
    Url(String),
    Path(String),
}

/// A template's manifest.
#[derive(Debug)]
pub struct Project {
    pub license: Option<License>,
    pub with_readme: bool,
    pub files: Directory,
    pub config: Option<ProjectConfig>,
    pub custom_keys: Option<CustomKeys>,
    /// The directory that the manifest was read from, under which its
    /// templates and scripts lie.
    pub path: String,
}

} // verus!
