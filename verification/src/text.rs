use vstd::prelude::*;
use vstd::string::*;

use crate::contract_check_id::ContractCheckId;

verus! {

/// Whether a character has the Unicode `White_Space` property: tab, line
/// feed, vertical tab, form feed, carriage return, space, next line,
/// no-break space, ogham space mark, the spaces from en quad to hair space,
/// line and paragraph separators, narrow no-break space, medium
/// mathematical space and ideographic space.
pub open spec fn white_space(c: char) -> bool {
    let code = c as u32;
    ||| 0x09 <= code <= 0x0D
    ||| code == 0x20
    ||| code == 0x85
    ||| code == 0xA0
    ||| code == 0x1680
    ||| 0x2000 <= code <= 0x200A
    ||| code == 0x2028
    ||| code == 0x2029
    ||| code == 0x202F
    ||| code == 0x205F
    ||| code == 0x3000
}

/// Returns whether `c` has the Unicode `White_Space` property, as
/// `char::is_whitespace` reports it.
fn char_is_whitespace(c: char) -> (result: bool)
    ensures
        result == white_space(c),
{
    let code = c as u32;
    (0x09 <= code && code <= 0x0D) || code == 0x20 || code == 0x85 || code == 0xA0 || code == 0x1680 || (0x2000
        <= code && code <= 0x200A) || code == 0x2028 || code == 0x2029 || code == 0x202F || code == 0x205F || code
        == 0x3000
}

/// A text whose trimmed form is empty: every character is white space.
pub open spec fn is_blank(text: Seq<char>) -> bool {
    forall|i: int| 0 <= i < text.len() ==> white_space(#[trigger] text[i])
}

/// Returns whether trimming white space from `text` leaves nothing.
pub fn blank(text: &str) -> (result: bool)
    ensures
        result == is_blank(text@),
{
    let count = text.unicode_len();
    let mut index: usize = 0;
    while index < count
        invariant
            count == text@.len(),
            index <= count,
            forall|j: int| 0 <= j < index ==> white_space(#[trigger] text@[j]),
        decreases count - index,
    {
        let c = text.get_char(index);
        if !char_is_whitespace(c) {
            return false;
        }
        index = index + 1;
    }
    true
}

/// `text` without its trailing slashes.
pub open spec fn trim_slashes(text: Seq<char>) -> Seq<char>
    decreases text.len(),
{
    if text.len() > 0 && text.last() == '/' {
        trim_slashes(text.drop_last())
    } else {
        text
    }
}

/// Returns `text` without its trailing slashes.
pub fn trimmed_of_slashes(text: &str) -> (trimmed: String)
    ensures
        trimmed@ == trim_slashes(text@),
{
    let mut end = text.unicode_len();
    proof {
        assert(text@.subrange(0, end as int) =~= text@);
    }
    while end > 0 && text.get_char(end - 1) == '/'
        invariant
            end <= text@.len(),
            trim_slashes(text@) == trim_slashes(text@.subrange(0, end as int)),
        decreases end,
    {
        proof {
            let prefix = text@.subrange(0, end as int);
            assert(prefix.drop_last() =~= text@.subrange(0, end - 1));
        }
        end = end - 1;
    }
    proof {
        assert(text@.subrange(0, text@.len() as int) =~= text@);
    }
    String::from_str(text.substring_char(0, end))
}

/// Whether `text` ends with `suffix`.
pub open spec fn ends_with(text: Seq<char>, suffix: Seq<char>) -> bool {
    suffix.len() <= text.len() && text.subrange(text.len() - suffix.len(), text.len() as int) == suffix
}

/// Whether `needle` occurs in `text` from position `start`.
pub open spec fn occurs_at(text: Seq<char>, needle: Seq<char>, start: int) -> bool {
    0 <= start && start + needle.len() <= text.len() && text.subrange(start, start + needle.len()) == needle
}

/// Whether `needle` occurs anywhere in `text`.
pub open spec fn contains_text(text: Seq<char>, needle: Seq<char>) -> bool {
    exists|start: int| occurs_at(text, needle, start)
}

/// Returns whether `needle` occurs in `text` from position `start`.
fn matches_at(text: &str, needle: &str, start: usize) -> (found: bool)
    requires
        start + needle@.len() <= text@.len(),
    ensures
        found == occurs_at(text@, needle@, start as int),
{
    let text_len = text.unicode_len();
    let count = needle.unicode_len();
    let mut index: usize = 0;
    while index < count
        invariant
            text_len == text@.len(),
            count == needle@.len(),
            start + count <= text@.len(),
            index <= count,
            forall|j: int| 0 <= j < index ==> text@[start + j] == needle@[j],
        decreases count - index,
    {
        if text.get_char(start + index) != needle.get_char(index) {
            assert(text@.subrange(start as int, start + count)[index as int] != needle@[index as int]);
            return false;
        }
        index = index + 1;
    }
    assert(text@.subrange(start as int, start + count) =~= needle@);
    true
}

/// Returns whether `text` ends with `suffix`.
pub fn has_suffix(text: &str, suffix: &str) -> (found: bool)
    ensures
        found == ends_with(text@, suffix@),
{
    let text_len = text.unicode_len();
    let suffix_len = suffix.unicode_len();
    if suffix_len > text_len {
        return false;
    }
    matches_at(text, suffix, text_len - suffix_len)
}

/// Returns whether `needle` occurs anywhere in `text`.
pub fn has_text(text: &str, needle: &str) -> (found: bool)
    ensures
        found == contains_text(text@, needle@),
{
    let text_len = text.unicode_len();
    let needle_len = needle.unicode_len();
    if needle_len > text_len {
        return false;
    }
    let last = text_len - needle_len;
    let mut start: usize = 0;
    while start < last
        invariant
            text_len == text@.len(),
            needle_len == needle@.len(),
            last + needle_len == text_len,
            start <= last,
            forall|j: int| 0 <= j < start ==> !occurs_at(text@, needle@, j),
        decreases last - start,
    {
        if matches_at(text, needle, start) {
            return true;
        }
        start = start + 1;
    }
    if matches_at(text, needle, last) {
        return true;
    }
    assert forall|j: int| !occurs_at(text@, needle@, j) by {
        if 0 <= j && j + needle_len <= text_len && j != last {
            assert(j < start);
        }
    }
    false
}

/// `text` followed by a parenthesised note, as diagnostics print a check.
pub open spec fn labelled(id: ContractCheckId, note: Seq<char>) -> Seq<char> {
    id.stable_name() + " ("@ + note + ")"@
}

/// Renders a check name with a parenthesised note.
pub fn label(id: ContractCheckId, note: &str) -> (text: String)
    ensures
        text@ == labelled(id, note@),
{
    let mut text = String::from_str(id.as_str());
    text.append(" (");
    text.append(note);
    text.append(")");
    text
}

/// Joins texts with a separator between neighbours.
pub open spec fn joined(parts: Seq<Seq<char>>, separator: Seq<char>) -> Seq<char>
    decreases parts.len(),
{
    if parts.len() == 0 {
        Seq::empty()
    } else if parts.len() == 1 {
        parts[0]
    } else {
        joined(parts.drop_last(), separator) + separator + parts.last()
    }
}

/// The character views of a sequence of strings.
pub open spec fn texts(strings: Seq<String>) -> Seq<Seq<char>> {
    strings.map_values(|s: String| s@)
}

/// Joins strings with a separator between neighbours.
pub fn join(parts: &Vec<String>, separator: &str) -> (text: String)
    ensures
        text@ == joined(texts(parts@), separator@),
{
    let mut text = String::new();
    let mut index: usize = 0;
    while index < parts.len()
        invariant
            index <= parts.len(),
            text@ == joined(texts(parts@).take(index as int), separator@),
        decreases parts.len() - index,
    {
        proof {
            assert(texts(parts@).take(index + 1).drop_last() =~= texts(parts@).take(index as int));
        }
        if index > 0 {
            text.append(separator);
        }
        text.append(parts[index].as_str());
        index = index + 1;
    }
    proof {
        assert(texts(parts@).take(parts.len() as int) =~= texts(parts@));
    }
    text
}

/// Whether a sequence of identities holds `id`.
pub fn contains_id(ids: &[ContractCheckId], id: ContractCheckId) -> (found: bool)
    ensures
        found == ids@.contains(id),
{
    let mut index: usize = 0;
    while index < ids.len()
        invariant
            index <= ids.len(),
            forall|j: int| 0 <= j < index ==> ids@[j] != id,
        decreases ids.len() - index,
    {
        if ids[index] == id {
            assert(ids@[index as int] == id);
            return true;
        }
        index = index + 1;
    }
    false
}

} // verus!
