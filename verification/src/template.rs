//! The token grammar of templates.
//!
//! A template is text in which `{{` opens a tag wherever a `}}` follows it
//! somewhere. A tag is `{{`, an optional sigil (`#`, `/`, `^` or `&`), a name
//! of ASCII letters, digits, `_` and `-` that spaces may surround, and `}}`.
//! A template in which every opening opens such a tag, and in which no more
//! than `MAX_DEPTH` sections are ever open within each other, is supported;
//! any other is refused before it is rendered. Sections side by side are not
//! counted against each other. Text without an opening holds no tag and is
//! rendered as it stands.

use vstd::prelude::*;
use crate::text::chars_of;

verus! {

/// Whether `c` may stand in a variable name.
pub open spec fn is_name_char(c: char) -> bool {
    ||| 'a' as u32 <= c as u32 <= 'z' as u32
    ||| 'A' as u32 <= c as u32 <= 'Z' as u32
    ||| '0' as u32 <= c as u32 <= '9' as u32
    ||| c == '_'
    ||| c == '-'
}

/// Whether `c` marks a section, its end, an inverted section or a raw value.
pub open spec fn is_sigil(c: char) -> bool {
    c == '#' || c == '/' || c == '^' || c == '&'
}

/// Whether `{{` stands at position `i` of `t`.
pub open spec fn braces_open(t: Seq<char>, i: int) -> bool {
    0 <= i && i + 1 < t.len() && t[i] == '{' && t[i + 1] == '{'
}

/// Whether `}}` stands at position `i` of `t`.
pub open spec fn braces_close(t: Seq<char>, i: int) -> bool {
    0 <= i && i + 1 < t.len() && t[i] == '}' && t[i + 1] == '}'
}

/// Whether a tag opens at position `i` of `t`: `{{` stands there, and `}}`
/// stands somewhere after it.
pub open spec fn opens_tag(t: Seq<char>, i: int) -> bool {
    braces_open(t, i) && exists|j: int| i + 2 <= j && #[trigger] braces_close(t, j)
}

/// The first position at or after `i` that holds no space.
pub open spec fn after_spaces(t: Seq<char>, i: int) -> int
    decreases t.len() - i,
{
    if 0 <= i < t.len() && t[i] == ' ' {
        after_spaces(t, i + 1)
    } else {
        i
    }
}

/// The first position at or after `i` that holds no name character.
pub open spec fn after_name(t: Seq<char>, i: int) -> int
    decreases t.len() - i,
{
    if 0 <= i < t.len() && is_name_char(t[i]) {
        after_name(t, i + 1)
    } else {
        i
    }
}

/// Where the name of the tag that opens at position `i` starts: after `{{`,
/// the sigil if there is one, and the spaces that follow.
pub open spec fn name_start(t: Seq<char>, i: int) -> int {
    let sigil = i + 2;
    let lead = if sigil < t.len() && is_sigil(t[sigil]) {
        sigil + 1
    } else {
        sigil
    };
    after_spaces(t, lead)
}

/// Where the name of the tag that opens at position `i` ends.
pub open spec fn name_end(t: Seq<char>, i: int) -> int {
    after_name(t, name_start(t, i))
}

/// Where the tag that opens at position `i` must close: after its name and
/// the spaces that follow.
pub open spec fn close_at(t: Seq<char>, i: int) -> int {
    after_spaces(t, name_end(t, i))
}

/// Where the tag that `{{` at position `i` opens ends, if it is well formed:
/// the position after its `}}`.
pub open spec fn tag_end(t: Seq<char>, i: int) -> Option<int> {
    let close = close_at(t, i);
    if name_start(t, i) < name_end(t, i) && close + 1 < t.len() && t[close] == '}' && t[close
        + 1] == '}' {
        Some(close + 2)
    } else {
        None
    }
}

/// Whether `t` holds a tag opening.
pub open spec fn has_tag(t: Seq<char>) -> bool {
    exists|i: int| #[trigger] opens_tag(t, i)
}

/// Whether every tag opening in `t` opens a well-formed tag.
pub open spec fn well_formed(t: Seq<char>) -> bool {
    forall|i: int| #[trigger] opens_tag(t, i) ==> tag_end(t, i) is Some
}

/// How many sections may be open within each other. The renderer descends
/// into sections within sections, so their depth is bounded.
pub const MAX_DEPTH: usize = 64;

/// The name by which the renderer knows the section that the tag at position
/// `i` opens or closes: the tag's name, and where a third `}` follows the
/// tag, the spaces after the name and that `}` with it.
pub open spec fn tag_label(t: Seq<char>, i: int) -> Seq<char> {
    let close = close_at(t, i);
    if close + 2 < t.len() && t[close + 2] == '}' {
        t.subrange(name_start(t, i), close).push('}')
    } else {
        t.subrange(name_start(t, i), name_end(t, i))
    }
}

/// The open sections without the last one of the given name; all of them
/// where none has that name.
pub open spec fn without_last(open: Seq<Seq<char>>, label: Seq<char>) -> Seq<Seq<char>>
    decreases open.len(),
{
    if open.len() == 0 {
        open
    } else if open.last() == label {
        open.drop_last()
    } else {
        without_last(open.drop_last(), label).push(open.last())
    }
}

/// The open sections after the well-formed tag at position `i`: a section
/// tag, plain or inverted, opens one; a closing tag closes the last one of
/// its name, if there is one; any other tag leaves them as they are.
pub open spec fn open_after_tag(open: Seq<Seq<char>>, t: Seq<char>, i: int) -> Seq<Seq<char>> {
    if t[i + 2] == '#' || t[i + 2] == '^' {
        open.push(tag_label(t, i))
    } else if t[i + 2] == '/' {
        without_last(open, tag_label(t, i))
    } else {
        open
    }
}

/// The sections that are open, by name and in the order in which they
/// opened, after the tags that open before position `n` of `t`.
pub open spec fn open_sections(t: Seq<char>, n: int) -> Seq<Seq<char>>
    decreases n,
{
    if n <= 0 {
        Seq::empty()
    } else if opens_tag(t, n - 1) && tag_end(t, n - 1) is Some {
        open_after_tag(open_sections(t, n - 1), t, n - 1)
    } else {
        open_sections(t, n - 1)
    }
}

/// Whether no more than `MAX_DEPTH` sections are ever open within each other.
pub open spec fn depth_bounded(t: Seq<char>) -> bool {
    forall|n: int| 0 <= n <= t.len() ==> (#[trigger] open_sections(t, n)).len() <= MAX_DEPTH
}

/// Whether the renderer takes `t`: every tag opening opens a well-formed tag,
/// and the sections are not too deep.
pub open spec fn supported(t: Seq<char>) -> bool {
    well_formed(t) && depth_bounded(t)
}

/// What a template is to the renderer.
#[derive(Clone, Copy, Debug, PartialEq, Eq, Structural)]
pub enum TemplateKind {
    /// Text without any tag.
    Plain,
    /// Text with tags, each of them well formed.
    Tagged,
    /// Text in which some opening opens no well-formed tag, or in which
    /// sections open too deep within each other.
    Unsupported,
}

/// The kind of the template `t`.
pub open spec fn kind_of(t: Seq<char>) -> TemplateKind {
    if !supported(t) {
        TemplateKind::Unsupported
    } else if has_tag(t) {
        TemplateKind::Tagged
    } else {
        TemplateKind::Plain
    }
}

/// From `i` up to `after_spaces(t, i)` there are only spaces.
proof fn lemma_spaces_run(t: Seq<char>, i: int)
    requires
        0 <= i <= t.len(),
    ensures
        i <= after_spaces(t, i) <= t.len(),
        forall|k: int| i <= k < after_spaces(t, i) ==> t[k] == ' ',
    decreases t.len() - i,
{
    if i < t.len() && t[i] == ' ' {
        lemma_spaces_run(t, i + 1);
    }
}

/// From `i` up to `after_name(t, i)` there are only name characters.
proof fn lemma_name_run(t: Seq<char>, i: int)
    requires
        0 <= i <= t.len(),
    ensures
        i <= after_name(t, i) <= t.len(),
        forall|k: int| i <= k < after_name(t, i) ==> is_name_char(t[k]),
    decreases t.len() - i,
{
    if i < t.len() && is_name_char(t[i]) {
        lemma_name_run(t, i + 1);
    }
}

/// Where no tag opens, the open sections stay as they are.
pub proof fn lemma_open_between(t: Seq<char>, from: int, to: int)
    requires
        from <= to,
        forall|j: int| from <= j < to ==> !opens_tag(t, j),
    ensures
        open_sections(t, to) == open_sections(t, from),
    decreases to - from,
{
    if from < to {
        lemma_open_between(t, from, to - 1);
    }
}

/// Text without tags is a template that the renderer takes.
pub proof fn lemma_plain_is_supported(t: Seq<char>)
    requires
        !has_tag(t),
    ensures
        supported(t),
{
    assert forall|n: int| 0 <= n <= t.len() implies (#[trigger] open_sections(t, n)).len()
        <= MAX_DEPTH by {
        lemma_open_between(t, 0, n);
    }
}

/// Removing the last section of a name is removing the entry at its place.
proof fn lemma_without_last_at(open: Seq<Seq<char>>, label: Seq<char>, k: int)
    requires
        0 <= k < open.len(),
        open[k] == label,
        forall|j: int| k < j < open.len() ==> open[j] != label,
    ensures
        without_last(open, label) == open.remove(k),
    decreases open.len(),
{
    if open.last() == label {
        assert(k == open.len() - 1);
        assert(open.drop_last() =~= open.remove(k));
    } else {
        lemma_without_last_at(open.drop_last(), label, k);
        assert(open.drop_last().remove(k).push(open.last()) =~= open.remove(k));
    }
}

/// Where no section has the name, none is removed.
proof fn lemma_without_last_none(open: Seq<Seq<char>>, label: Seq<char>)
    requires
        forall|j: int| 0 <= j < open.len() ==> open[j] != label,
    ensures
        without_last(open, label) == open,
    decreases open.len(),
{
    if open.len() > 0 {
        lemma_without_last_none(open.drop_last(), label);
        assert(open.drop_last().push(open.last()) =~= open);
    }
}

/// No tag opens inside a well-formed tag, and the tag's parts lie in order.
proof fn lemma_tag_is_closed(t: Seq<char>, i: int)
    requires
        braces_open(t, i),
        tag_end(t, i) is Some,
    ensures
        i + 2 < name_end(t, i) <= close_at(t, i),
        i + 2 <= name_start(t, i) < name_end(t, i),
        close_at(t, i) + 2 == tag_end(t, i)->0 <= t.len(),
        forall|j: int| i < j < tag_end(t, i)->0 ==> !braces_open(t, j),
{
    let sigil = i + 2;
    let lead = if sigil < t.len() && is_sigil(t[sigil]) {
        sigil + 1
    } else {
        sigil
    };
    lemma_spaces_run(t, lead);
    let name = after_spaces(t, lead);
    lemma_name_run(t, name);
    let trail = after_name(t, name);
    lemma_spaces_run(t, trail);
    let close = after_spaces(t, trail);
    assert forall|j: int| i < j < close + 2 implies !braces_open(t, j) by {
        if j == i + 1 {
            assert(t[i + 2] != '{');
        } else if j < close {
            assert(t[j] != '{');
        }
    }
}

/// The position after the spaces that start at `i`.
fn skip_spaces(chars: &Vec<char>, i: usize) -> (j: usize)
    requires
        i <= chars.len(),
    ensures
        j == after_spaces(chars@, i as int),
        i <= j <= chars.len(),
{
    let mut j: usize = i;
    while j < chars.len() && chars[j] == ' '
        invariant
            i <= j <= chars.len(),
            after_spaces(chars@, i as int) == after_spaces(chars@, j as int),
        decreases chars.len() - j,
    {
        j = j + 1;
    }
    j
}

/// Whether `c` may stand in a variable name.
pub fn name_char(c: char) -> (yes: bool)
    ensures
        yes == is_name_char(c),
{
    let code: u32 = c as u32;
    (0x61 <= code && code <= 0x7a) || (0x41 <= code && code <= 0x5a) || (0x30 <= code && code
        <= 0x39) || c == '_' || c == '-'
}

/// The position after the name characters that start at `i`.
fn skip_name(chars: &Vec<char>, i: usize) -> (j: usize)
    requires
        i <= chars.len(),
    ensures
        j == after_name(chars@, i as int),
        i <= j <= chars.len(),
{
    let mut j: usize = i;
    while j < chars.len() && name_char(chars[j])
        invariant
            i <= j <= chars.len(),
            after_name(chars@, i as int) == after_name(chars@, j as int),
        decreases chars.len() - j,
    {
        j = j + 1;
    }
    j
}

/// The last position at which `}}` stands, if it stands anywhere.
fn last_close(chars: &Vec<char>) -> (last: Option<usize>)
    ensures
        match last {
            Some(l) => braces_close(chars@, l as int) && forall|j: int|
                l < j ==> !braces_close(chars@, j),
            None => forall|j: int| !braces_close(chars@, j),
        },
{
    let n = chars.len();
    if n < 2 {
        return None;
    }
    let mut l: usize = n - 1;
    while l > 0
        invariant
            n == chars.len(),
            l < n,
            forall|j: int| l <= j ==> !braces_close(chars@, j),
        decreases l,
    {
        l = l - 1;
        if chars[l] == '}' && chars[l + 1] == '}' {
            return Some(l);
        }
    }
    None
}

/// Where the tag that opens at `i` ends, if it is well formed.
fn scan_tag(chars: &Vec<char>, i: usize) -> (end: Option<usize>)
    requires
        braces_open(chars@, i as int),
    ensures
        match end {
            Some(e) => tag_end(chars@, i as int) == Some(e as int),
            None => tag_end(chars@, i as int) is None,
        },
{
    let n = chars.len();
    let sigil: usize = i + 2;
    let lead: usize = if sigil < n && (chars[sigil] == '#' || chars[sigil] == '/' || chars[sigil]
        == '^' || chars[sigil] == '&') {
        sigil + 1
    } else {
        sigil
    };
    let name = skip_spaces(chars, lead);
    let trail = skip_name(chars, name);
    let close = skip_spaces(chars, trail);
    if name < trail && close < n - 1 && chars[close] == '}' && chars[close + 1] == '}' {
        Some(close + 2)
    } else {
        None
    }
}

/// The names of the sections in `open`, in order.
pub open spec fn labels(open: Seq<Vec<char>>) -> Seq<Seq<char>> {
    Seq::new(open.len(), |k: int| open[k]@)
}

/// Whether two names hold the same characters.
fn same_chars(a: &Vec<char>, b: &Vec<char>) -> (same: bool)
    ensures
        same == (a@ == b@),
{
    if a.len() != b.len() {
        return false;
    }
    let mut k: usize = 0;
    while k < a.len()
        invariant
            k <= a.len(),
            a.len() == b.len(),
            forall|j: int| 0 <= j < k ==> a@[j] == b@[j],
        decreases a.len() - k,
    {
        if a[k] != b[k] {
            return false;
        }
        k = k + 1;
    }
    assert(a@ =~= b@);
    true
}

/// The name by which the renderer knows the section of the tag at `i`.
fn label_of(chars: &Vec<char>, i: usize) -> (label: Vec<char>)
    requires
        braces_open(chars@, i as int),
        tag_end(chars@, i as int) is Some,
    ensures
        label@ == tag_label(chars@, i as int),
{
    proof {
        lemma_tag_is_closed(chars@, i as int);
    }
    let n = chars.len();
    let sigil: usize = i + 2;
    let lead: usize = if sigil < n && (chars[sigil] == '#' || chars[sigil] == '/' || chars[sigil]
        == '^' || chars[sigil] == '&') {
        sigil + 1
    } else {
        sigil
    };
    let name = skip_spaces(chars, lead);
    let trail = skip_name(chars, name);
    let close = skip_spaces(chars, trail);
    let third = close < n - 2 && chars[close + 2] == '}';
    let stop = if third {
        close
    } else {
        trail
    };
    let mut label: Vec<char> = Vec::new();
    let mut k: usize = name;
    while k < stop
        invariant
            name <= k <= stop <= chars.len(),
            label@ == chars@.subrange(name as int, k as int),
        decreases stop - k,
    {
        label.push(chars[k]);
        assert(label@ =~= chars@.subrange(name as int, k + 1));
        k = k + 1;
    }
    if third {
        label.push('}');
    }
    label
}

/// The open sections after the well-formed tag at `i`.
fn after_tag(open: &mut Vec<Vec<char>>, chars: &Vec<char>, i: usize)
    requires
        braces_open(chars@, i as int),
        tag_end(chars@, i as int) is Some,
    ensures
        labels(final(open)@) == open_after_tag(labels(old(open)@), chars@, i as int),
{
    proof {
        lemma_tag_is_closed(chars@, i as int);
        assert(i + 2 < chars.len());
    }
    let ghost before = open@;
    let sigil = chars[i + 2];
    if sigil == '#' || sigil == '^' {
        let label = label_of(chars, i);
        open.push(label);
        assert(labels(open@) =~= labels(before).push(tag_label(chars@, i as int)));
    } else if sigil == '/' {
        let label = label_of(chars, i);
        let mut k: usize = open.len();
        while k > 0
            invariant
                k <= open.len(),
                open@ == before,
                before == old(open)@,
                i + 2 < chars.len(),
                chars@[i + 2] == '/',
                label@ == tag_label(chars@, i as int),
                forall|j: int| k <= j < open.len() ==> labels(before)[j] != label@,
            decreases k,
        {
            k = k - 1;
            if same_chars(&open[k], &label) {
                open.remove(k);
                proof {
                    lemma_without_last_at(labels(before), label@, k as int);
                    assert(labels(open@) =~= labels(before).remove(k as int));
                }
                return ;
            }
        }
        proof {
            lemma_without_last_none(labels(before), label@);
        }
    }
}

/// Classifies a template: plain text, text with well-formed tags, or text
/// that the renderer does not take.
pub fn classify(template: &str) -> (kind: TemplateKind)
    ensures
        kind == kind_of(template@),
{
    let chars = chars_of(template);
    let n = chars.len();
    let last = last_close(&chars);
    let mut i: usize = 0;
    let mut tagged = false;
    let mut open: Vec<Vec<char>> = Vec::new();
    proof {
        assert(labels(open@) =~= open_sections(chars@, 0));
    }
    while i < n
        invariant
            n == chars.len(),
            chars@ == template@,
            i <= n,
            labels(open@) == open_sections(chars@, i as int),
            forall|m: int| 0 <= m <= i ==> (#[trigger] open_sections(chars@, m)).len() <= MAX_DEPTH,
            match last {
                Some(l) => braces_close(chars@, l as int) && forall|j: int|
                    l < j ==> !braces_close(chars@, j),
                None => forall|j: int| !braces_close(chars@, j),
            },
            forall|j: int| j < i && #[trigger] opens_tag(chars@, j) ==> tag_end(chars@, j) is Some,
            tagged <==> exists|j: int| j < i && #[trigger] opens_tag(chars@, j),
        decreases n - i,
    {
        let closes = match last {
            Some(l) => l >= 2 && i <= l - 2,
            None => false,
        };
        if closes && chars[i] == '{' && chars[i + 1] == '{' {
            assert(opens_tag(chars@, i as int));
            match scan_tag(&chars, i) {
                Some(end) => {
                    after_tag(&mut open, &chars, i);
                    proof {
                        lemma_tag_is_closed(chars@, i as int);
                        assert(labels(open@) == open_sections(chars@, i + 1));
                    }
                    if open.len() > MAX_DEPTH {
                        assert(open_sections(chars@, i + 1).len() > MAX_DEPTH);
                        return TemplateKind::Unsupported;
                    }
                    proof {
                        assert forall|m: int| 0 <= m <= end implies (#[trigger] open_sections(
                            chars@,
                            m,
                        )).len() <= MAX_DEPTH by {
                            if m > i {
                                lemma_open_between(chars@, i + 1, m);
                            }
                        }
                        lemma_open_between(chars@, i + 1, end as int);
                    }
                    tagged = true;
                    i = end;
                },
                None => {
                    return TemplateKind::Unsupported;
                },
            }
        } else {
            assert(!opens_tag(chars@, i as int));
            i = i + 1;
        }
    }
    if tagged {
        TemplateKind::Tagged
    } else {
        TemplateKind::Plain
    }
}

} // verus!
