//! Where templates come from: the catalog of remote templates and the
//! repositories that hold them.

use vstd::prelude::*;
use vstd::string::{StrSliceExecFns, StringExecFns};
use crate::constants::GITHUB_URL;
use crate::text::{chars_of, owned};
use crate::types::TemplateRepository;

verus! {

/// The URL that a text is parsed to, in its normal form; `None` where the
/// text is no URL.
pub uninterp spec fn url_of(text: Seq<char>) -> Option<Seq<char>>;

/// The path of the URL that a text is parsed to; `None` where the text is no
/// URL.
pub uninterp spec fn url_path_of(text: Seq<char>) -> Option<Seq<char>>;

/// The URL that a reference resolves to against a base, in its normal form;
/// `None` where the base is no URL or the reference cannot be resolved.
pub uninterp spec fn url_joined(base: Seq<char>, reference: Seq<char>) -> Option<Seq<char>>;

/// `Url::parse` of the crate `url`, and the URL as text: which depends on
/// the text alone.
#[verifier::external_body]
fn parse_url(text: &str) -> (url: Option<String>)
    ensures
        match url {
            Some(u) => url_of(text@) == Some(u@),
            None => url_of(text@) is None,
        },
{
    url::Url::parse(text).ok().map(String::from)
}

/// `Url::path` of the crate `url` on the URL that the text is parsed to:
/// which depends on the text alone.
#[verifier::external_body]
fn parse_url_path(text: &str) -> (path: Option<String>)
    ensures
        match path {
            Some(p) => url_path_of(text@) == Some(p@),
            None => url_path_of(text@) is None,
        },
{
    url::Url::parse(text).ok().map(|url| url.path().to_owned())
}

/// `Url::join` of the crate `url` on the URL that the base is parsed to, and
/// the result as text: which depends on the two texts alone.
#[verifier::external_body]
fn join_url(base: &str, reference: &str) -> (url: Option<String>)
    ensures
        match url {
            Some(u) => url_joined(base@, reference@) == Some(u@),
            None => url_joined(base@, reference@) is None,
        },
{
    url::Url::parse(base).ok().and_then(|url| url.join(reference).ok()).map(String::from)
}

/// `String::push` appends one character.
pub assume_specification[ String::push ](text: &mut String, c: char)
    ensures
        final(text)@ == old(text)@.push(c),
;

/// What a catalog's location is, as texts.
pub enum TemplateRepositoryView {
    Url(Seq<char>),
    Path(Seq<char>),
}

impl View for TemplateRepository {
    type V = TemplateRepositoryView;

    open spec fn view(&self) -> TemplateRepositoryView {
        match self {
            TemplateRepository::Url(url) => TemplateRepositoryView::Url(url@),
            TemplateRepository::Path(path) => TemplateRepositoryView::Path(path@),
        }
    }
}

/// The location that a setting names: a URL where the setting is one, in its
/// normal form, and a path otherwise.
pub open spec fn location_of(value: Seq<char>) -> TemplateRepositoryView {
    match url_of(value) {
        Some(url) => TemplateRepositoryView::Url(url),
        None => TemplateRepositoryView::Path(value),
    }
}

/// The text of a location.
pub open spec fn location_text(location: TemplateRepositoryView) -> Seq<char> {
    match location {
        TemplateRepositoryView::Url(url) => url,
        TemplateRepositoryView::Path(path) => path,
    }
}

impl TemplateRepository {
    /// Reads the setting that names the catalog: a URL where it can be read
    /// as one, a path in the file system otherwise.
    pub fn from_setting(value: &str) -> (location: TemplateRepository)
        ensures
            location@ == location_of(value@),
    {
        match parse_url(value) {
            Some(url) => TemplateRepository::Url(url),
            None => TemplateRepository::Path(owned(value)),
        }
    }

    /// The location as text.
    pub fn to_string(&self) -> (text: String)
        ensures
            text@ == location_text(self@),
    {
        match self {
            TemplateRepository::Url(url) => url.clone(),
            TemplateRepository::Path(path) => path.clone(),
        }
    }
}

/// One template of the catalog.
#[derive(Debug, PartialEq, Eq)]
pub struct TemplateRepositoryEntry {
    pub name: String,
    /// The URL of the repository that holds the template.
    pub repository: String,
    pub description: String,
}

/// How an entry is listed: the path of its repository without the slash that
/// starts it, then the name and the description. `None` where the repository
/// is no URL or its path is empty.
pub open spec fn entry_text(name: Seq<char>, repository: Seq<char>, description: Seq<char>) -> Option<
    Seq<char>,
> {
    match url_path_of(repository) {
        Some(path) => if path.len() > 0 {
            Some(path.skip(1) + " -- "@ + name + ": "@ + description)
        } else {
            None
        },
        None => None,
    }
}

/// The view of an optional text.
pub open spec fn text_or_none(text: Option<String>) -> Option<Seq<char>> {
    match text {
        Some(t) => Some(t@),
        None => None,
    }
}

impl TemplateRepositoryEntry {
    /// The line that lists the entry.
    pub fn to_string(&self) -> (line: Option<String>)
        ensures
            text_or_none(line) == entry_text(self.name@, self.repository@, self.description@),
    {
        match parse_url_path(self.repository.as_str()) {
            None => None,
            Some(path) => {
                let length = path.as_str().unicode_len();
                if length == 0 {
                    None
                } else {
                    let rest = path.as_str().substring_char(1, length);
                    proof {
                        assert(path@.subrange(1, length as int) =~= path@.skip(1));
                    }
                    let mut line = owned(rest);
                    line.append(" -- ");
                    line.append(self.name.as_str());
                    line.append(": ");
                    line.append(self.description.as_str());
                    Some(line)
                }
            },
        }
    }
}

/// The address of the repository `repository` of the site that templates
/// are fetched from; `None` where it cannot be resolved.
pub fn repository_url(repository: &str) -> (url: Option<String>)
    ensures
        text_or_none(url) == url_joined(GITHUB_URL@, repository@),
{
    join_url(GITHUB_URL, repository)
}

/// `text` with `-` in place of each `/`.
pub open spec fn dashed(text: Seq<char>) -> Seq<char> {
    Seq::new(
        text.len(),
        |i: int|
            if text[i] == '/' {
                '-'
            } else {
                text[i]
            },
    )
}

/// The name of the directory that a repository is cloned into: the
/// repository's name with `-` in place of each `/`.
pub fn clone_directory_name(repository: &str) -> (name: String)
    ensures
        name@ == dashed(repository@),
{
    let chars = chars_of(repository);
    let mut name = String::new();
    let mut i: usize = 0;
    while i < chars.len()
        invariant
            i <= chars.len(),
            chars@ == repository@,
            name@ == dashed(repository@).take(i as int),
        decreases chars.len() - i,
    {
        let c = if chars[i] == '/' {
            '-'
        } else {
            chars[i]
        };
        name.push(c);
        proof {
            assert(name@ =~= dashed(repository@).take(i + 1));
        }
        i = i + 1;
    }
    proof {
        assert(dashed(repository@).take(chars.len() as int) =~= dashed(repository@));
    }
    name
}

} // verus!
