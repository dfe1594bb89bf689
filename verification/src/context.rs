//! The substitution context: the bindings from variable names to values that
//! templates are rendered against.
//!
//! The bindings live in a `rustache::HashBuilder`, and `rustache` does the
//! rendering of templates that hold tags. What is claimed of it here without
//! proof is marked as such; the rest is verified against those claims.

use vstd::prelude::*;
use rustache::Render;
use crate::template::{classify, has_tag, lemma_plain_is_supported, supported, TemplateKind};
use crate::text::owned;

verus! {

#[verifier::external_type_specification]
#[verifier::external_body]
pub struct ExHashBuilder<'a>(rustache::HashBuilder<'a>);

#[verifier::external_type_specification]
#[verifier::external_body]
pub struct ExVecBuilder<'a>(rustache::VecBuilder<'a>);

/// The outside builder of bindings, owning all that it holds.
pub type Keys = rustache::HashBuilder<'static>;

/// The outside builder of a list value, owning all that it holds.
pub type ListBuilder = rustache::VecBuilder<'static>;

/// The value bound to a variable name.
pub enum Binding {
    /// A piece of text.
    Text(Seq<char>),
    /// A whole number, such as the year.
    Number(int),
    /// Pieces of text in order, such as the files that were created.
    List(Seq<Seq<char>>),
}

/// The bindings of a context that binds no name.
pub open spec fn nothing_bound() -> Map<Seq<char>, Binding> {
    Map::empty()
}

/// A list without items.
pub open spec fn no_texts() -> Seq<Seq<char>> {
    Seq::empty()
}

/// The bindings that a `HashBuilder` holds, by variable name.
pub uninterp spec fn bindings(keys: Keys) -> Map<Seq<char>, Binding>;

/// The texts that a `VecBuilder` holds, in the order they were pushed.
pub uninterp spec fn list_items(list: ListBuilder) -> Seq<Seq<char>>;

/// What `rustache` writes for a template with well-formed tags under the
/// given bindings, read as text; `None` where it reports an error or writes
/// what is no text.
pub uninterp spec fn rendered(bound: Map<Seq<char>, Binding>, template: Seq<char>) -> Option<
    Seq<char>,
>;

/// `HashBuilder::new`: a builder that binds nothing.
#[verifier::external_body]
fn no_bindings() -> (fresh: Keys)
    ensures
        bindings(fresh) == nothing_bound(),
{
    rustache::HashBuilder::new()
}

/// `HashBuilder::insert` with a text value: the name is bound to the text,
/// replacing what it was bound to; every other binding stays.
#[verifier::external_body]
fn bind_text(keys: Keys, name: &str, value: &str) -> (bound: Keys)
    ensures
        bindings(bound) == bindings(keys).insert(name@, Binding::Text(value@)),
{
    keys.insert(name, value)
}

/// `HashBuilder::insert` with an integer value: the name is bound to the
/// number, replacing what it was bound to; every other binding stays.
#[verifier::external_body]
fn bind_number(keys: Keys, name: &str, value: i32) -> (bound: Keys)
    ensures
        bindings(bound) == bindings(keys).insert(name@, Binding::Number(value as int)),
{
    keys.insert(name, value)
}

/// `HashBuilder::insert` with a `VecBuilder` value: the name is bound to the
/// list that the builder holds, replacing what it was bound to; every other
/// binding stays.
#[verifier::external_body]
fn bind_list(keys: Keys, name: &str, list: ListBuilder) -> (bound: Keys)
    ensures
        bindings(bound) == bindings(keys).insert(name@, Binding::List(list_items(list))),
{
    keys.insert(name, list)
}

/// `VecBuilder::new`: a builder that holds no item.
#[verifier::external_body]
fn no_items() -> (fresh: ListBuilder)
    ensures
        list_items(fresh) == no_texts(),
{
    rustache::VecBuilder::new()
}

/// `VecBuilder::push` with a text: the text becomes the last item.
#[verifier::external_body]
fn push_item(list: ListBuilder, item: &str) -> (longer: ListBuilder)
    ensures
        list_items(longer) == list_items(list).push(item@),
{
    list.push(item)
}

/// `Render::render` of a `HashBuilder` into a byte vector that is then read as
/// UTF-8. The template must be one whose tags are all well formed and whose
/// sections do not lie too deep within each other: on others `rustache` may
/// panic, read partial files or descend too deep. The result depends on the
/// bindings and the template alone.
#[verifier::external_body]
fn render_tagged(keys: &Keys, template: &str) -> (text: Option<String>)
    requires
        supported(template@),
    ensures
        match text {
            Some(t) => rendered(bindings(*keys), template@) == Some(t@),
            None => rendered(bindings(*keys), template@) is None,
        },
{
    let mut out: Vec<u8> = Vec::new();
    match keys.render(template, &mut out) {
        Ok(()) => String::from_utf8(out).ok(),
        Err(_) => None,
    }
}

/// What substituting the bindings `bound` into the template `t` gives: nothing
/// for a template outside the grammar, the template itself where it holds no
/// tag, and otherwise what the renderer writes.
pub open spec fn substituted(bound: Map<Seq<char>, Binding>, t: Seq<char>) -> Option<Seq<char>> {
    if !supported(t) {
        None
    } else if !has_tag(t) {
        Some(t)
    } else {
        rendered(bound, t)
    }
}

/// Why a template could not be rendered.
#[derive(Clone, Copy, Debug, PartialEq, Eq, Structural)]
pub enum RenderError {
    /// Some opening in the template opens no well-formed tag, or its sections
    /// lie too deep within each other.
    Unsupported,
    /// The renderer refused the template under the given bindings.
    Rejected,
}

/// The error with which substituting into `t` fails.
pub open spec fn render_failure(t: Seq<char>) -> RenderError {
    if supported(t) {
        RenderError::Rejected
    } else {
        RenderError::Unsupported
    }
}

/// What rendering `t` under `bound` returns.
pub open spec fn render_result(bound: Map<Seq<char>, Binding>, t: Seq<char>) -> Result<
    Seq<char>,
    RenderError,
> {
    match substituted(bound, t) {
        Some(text) => Ok(text),
        None => Err(render_failure(t)),
    }
}

/// The view of what rendering returned.
pub open spec fn rendering_view(out: Result<String, RenderError>) -> Result<Seq<char>, RenderError> {
    match out {
        Ok(text) => Ok(text@),
        Err(e) => Err(e),
    }
}

/// The substitution context.
pub struct Context {
    keys: Keys,
}

impl View for Context {
    type V = Map<Seq<char>, Binding>;

    closed spec fn view(&self) -> Map<Seq<char>, Binding> {
        bindings(self.keys)
    }
}

impl Context {
    /// A context that binds no name.
    pub fn new() -> (context: Context)
        ensures
            context@ == nothing_bound(),
    {
        Context { keys: no_bindings() }
    }

    /// Binds `name` to the text `value`. A later binding of a name replaces
    /// an earlier one.
    pub fn insert(self, name: &str, value: &str) -> (context: Context)
        ensures
            context@ == self@.insert(name@, Binding::Text(value@)),
    {
        Context { keys: bind_text(self.keys, name, value) }
    }

    /// Binds `name` to the number `value`.
    pub fn insert_number(self, name: &str, value: i32) -> (context: Context)
        ensures
            context@ == self@.insert(name@, Binding::Number(value as int)),
    {
        Context { keys: bind_number(self.keys, name, value) }
    }

    /// Binds `name` to the list of the texts in `items`, in their order.
    pub fn insert_list(self, name: &str, items: &Vec<String>) -> (context: Context)
        ensures
            context@ == self@.insert(name@, Binding::List(items.deep_view())),
    {
        let mut list = no_items();
        let mut i: usize = 0;
        while i < items.len()
            invariant
                i <= items.len(),
                list_items(list) == items.deep_view().take(i as int),
            decreases items.len() - i,
        {
            list = push_item(list, items[i].as_str());
            proof {
                assert(items.deep_view().take(i + 1) == items.deep_view().take(i as int).push(
                    items[i as int]@,
                ));
            }
            i = i + 1;
        }
        proof {
            assert(items.deep_view().take(items.len() as int) == items.deep_view());
        }
        Context { keys: bind_list(self.keys, name, list) }
    }

    /// Substitutes the context into `template`. Text without tags comes back
    /// unchanged. A name that the context does not bind renders as nothing.
    pub fn render(&self, template: &str) -> (out: Result<String, RenderError>)
        ensures
            rendering_view(out) == render_result(self@, template@),
    {
        match classify(template) {
            TemplateKind::Unsupported => Err(RenderError::Unsupported),
            TemplateKind::Plain => Ok(owned(template)),
            TemplateKind::Tagged => {
                match render_tagged(&self.keys, template) {
                    Some(text) => Ok(text),
                    None => Err(RenderError::Rejected),
                }
            },
        }
    }
}

/// Substitution leaves a text without tags as it is, whatever is bound.
pub proof fn law_plain_text_is_unchanged(bound: Map<Seq<char>, Binding>, text: Seq<char>)
    requires
        !has_tag(text),
    ensures
        supported(text),
        render_result(bound, text) == Ok::<Seq<char>, RenderError>(text),
{
    lemma_plain_is_supported(text);
}

} // verus!
