//! The pattern that selects units by path and name.

use vstd::prelude::*;
use vstd::std_specs::iter::IteratorSpec;

verus! {

/// The characters that part a unit's path from its name.
pub open spec fn separator() -> Seq<char> {
    seq![':', ':']
}

/// The text that a pattern is held against: path, separator, name.
pub open spec fn unit_label(path: Seq<char>, name: Seq<char>) -> Seq<char> {
    path + separator() + name
}

/// `pattern` stands in `text` from position `i` on.
pub open spec fn occurs_at(pattern: Seq<char>, text: Seq<char>, i: int) -> bool {
    &&& 0 <= i
    &&& i + pattern.len() <= text.len()
    &&& text.subrange(i, i + pattern.len()) == pattern
}

/// `pattern` stands somewhere in `text`.
pub open spec fn occurs_in(pattern: Seq<char>, text: Seq<char>) -> bool {
    exists|i: int| occurs_at(pattern, text, i)
}

/// A unit runs where no pattern is given, or where the pattern stands
/// somewhere in the unit's label.
pub open spec fn selected(pattern: Option<Seq<char>>, path: Seq<char>, name: Seq<char>) -> bool {
    match pattern {
        Some(p) => occurs_in(p, unit_label(path, name)),
        None => true,
    }
}

/// A pattern as plain characters.
pub open spec fn pattern_view(pattern: Option<&str>) -> Option<Seq<char>> {
    match pattern {
        Some(p) => Some(p@),
        None => None,
    }
}

/// Appends the characters of `s` to `out`.
fn push_chars(out: &mut Vec<char>, s: &str)
    ensures
        final(out)@ == old(out)@ + s@,
{
    let mut it = s.chars();
    let ghost mut taken: Seq<char> = Seq::empty();
    loop
        invariant
            taken + it.remaining() == s@,
            out@ == old(out)@ + taken,
            it.obeys_prophetic_iter_laws(),
        ensures
            out@ == old(out)@ + s@,
        decreases s@.len() - taken.len(),
    {
        match it.next() {
            Some(c) => {
                out.push(c);
                proof {
                    taken = taken.push(c);
                }
            },
            None => {
                break;
            },
        }
    }
}

/// Decides whether `pattern` stands in `text` from position `i` on.
fn matches_at(pattern: &Vec<char>, text: &Vec<char>, i: usize) -> (r: bool)
    requires
        i + pattern@.len() <= text@.len(),
    ensures
        r == occurs_at(pattern@, text@, i as int),
{
    let text_len: usize = text.len();
    let mut j: usize = 0;
    while j < pattern.len()
        invariant
            j <= pattern@.len(),
            i + pattern@.len() <= text@.len(),
            text_len == text@.len(),
            forall|k: int| 0 <= k < j ==> text@[i + k] == pattern@[k],
        decreases pattern@.len() - j,
    {
        if text[i + j] != pattern[j] {
            return false;
        }
        j += 1;
    }
    assert(text@.subrange(i as int, i + pattern@.len()) =~= pattern@);
    true
}

/// Decides whether `pattern` stands somewhere in `text`.
fn contains_chars(text: &Vec<char>, pattern: &Vec<char>) -> (r: bool)
    ensures
        r == occurs_in(pattern@, text@),
{
    if pattern.len() > text.len() {
        return false;
    }
    let last: usize = text.len() - pattern.len();
    let mut i: usize = 0;
    loop
        invariant
            i <= last,
            last + pattern@.len() == text@.len(),
            forall|k: int| 0 <= k < i ==> !occurs_at(pattern@, text@, k),
        decreases last - i,
    {
        if matches_at(pattern, text, i) {
            return true;
        }
        if i == last {
            return false;
        }
        i += 1;
    }
}

/// Decides whether `pattern` stands somewhere in `text`.
pub fn text_contains(text: &str, pattern: &str) -> (r: bool)
    ensures
        r == occurs_in(pattern@, text@),
{
    let mut text_chars: Vec<char> = Vec::new();
    push_chars(&mut text_chars, text);
    let mut pattern_chars: Vec<char> = Vec::new();
    push_chars(&mut pattern_chars, pattern);
    contains_chars(&text_chars, &pattern_chars)
}

/// Decides whether a unit runs under the given pattern.
pub fn unit_selected(pattern: Option<&str>, path: &String, name: &String) -> (r: bool)
    ensures
        r == selected(pattern_view(pattern), path@, name@),
{
    match pattern {
        Some(p) => {
            let mut label: Vec<char> = Vec::new();
            push_chars(&mut label, path.as_str());
            label.push(':');
            label.push(':');
            push_chars(&mut label, name.as_str());
            let mut pattern_chars: Vec<char> = Vec::new();
            push_chars(&mut pattern_chars, p);
            assert(label@ =~= unit_label(path@, name@));
            contains_chars(&label, &pattern_chars)
        },
        None => true,
    }
}

} // verus!
