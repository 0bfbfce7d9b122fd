//! Searching text, character by character.

use vstd::prelude::*;

verus! {

/// `pattern` stands in `text` at position `at`.
pub open spec fn occurs_at(text: Seq<char>, pattern: Seq<char>, at: int) -> bool {
    &&& 0 <= at
    &&& at + pattern.len() <= text.len()
    &&& text.subrange(at, at + pattern.len()) == pattern
}

/// `pattern` stands somewhere in `text`.
pub open spec fn occurs_in(text: Seq<char>, pattern: Seq<char>) -> bool {
    exists|at: int| occurs_at(text, pattern, at)
}

/// The characters of `text`, in order.
pub fn chars_of(text: &str) -> (r: Vec<char>)
    ensures
        r@ == text@,
{
    let mut chars: Vec<char> = Vec::new();
    for c in it: text.chars()
        invariant
            chars@ == text@.take(it.index() as int),
            it.seq() == text@,
    {
        chars.push(c);
    }
    chars
}

/// Whether `pattern` stands in `text` at position `at`.
fn matches_at(text: &Vec<char>, pattern: &Vec<char>, at: usize) -> (r: bool)
    requires
        at + pattern@.len() <= text@.len(),
    ensures
        r == occurs_at(text@, pattern@, at as int),
{
    let end: usize = text.len();
    let mut i: usize = 0;
    while i < pattern.len()
        invariant
            end == text@.len(),
            at + pattern@.len() <= end,
            i <= pattern@.len(),
            forall|k: int| 0 <= k < i ==> text@[at + k] == #[trigger] pattern@[k],
        decreases pattern@.len() - i,
    {
        if text[at + i] != pattern[i] {
            assert(text@.subrange(at as int, at + pattern@.len())[i as int] != pattern@[i as int]);
            return false;
        }
        i += 1;
    }
    assert(text@.subrange(at as int, at + pattern@.len()) =~= pattern@);
    true
}

/// Whether `pattern` stands somewhere in `text`.
pub fn contains(text: &str, pattern: &str) -> (r: bool)
    ensures
        r == occurs_in(text@, pattern@),
        r == exists|before: Seq<char>, after: Seq<char>|
            text@ == #[trigger] (before + pattern@ + after),
{
    proof {
        a_pattern_occurs_between_what_surrounds_it(text@, pattern@);
    }
    let text_chars = chars_of(text);
    let pattern_chars = chars_of(pattern);
    if pattern_chars.len() > text_chars.len() {
        return false;
    }
    let last: usize = text_chars.len() - pattern_chars.len();
    let mut at: usize = 0;
    loop
        invariant
            text_chars@ == text@,
            pattern_chars@ == pattern@,
            last + pattern@.len() == text@.len(),
            at <= last,
            forall|k: int| 0 <= k < at ==> !occurs_at(text@, pattern@, k),
        decreases last - at,
    {
        proof {
            a_pattern_occurs_between_what_surrounds_it(text@, pattern@);
        }
        if matches_at(&text_chars, &pattern_chars, at) {
            return true;
        }
        if at == last {
            assert forall|k: int| !occurs_at(text@, pattern@, k) by {
                if k > last {
                    assert(k + pattern@.len() > text@.len());
                }
            }
            return false;
        }
        at += 1;
    }
}

/// Whether `text` ends in `pattern`.
pub fn ends_with(text: &str, pattern: &str) -> (r: bool)
    ensures
        r == pattern@.is_suffix_of(text@),
        r == exists|before: Seq<char>| text@ == #[trigger] (before + pattern@),
{
    proof {
        a_suffix_follows_what_stands_before_it(text@, pattern@);
    }
    let text_chars = chars_of(text);
    let pattern_chars = chars_of(pattern);
    if pattern_chars.len() > text_chars.len() {
        return false;
    }
    matches_at(&text_chars, &pattern_chars, text_chars.len() - pattern_chars.len())
}

/// Whether two texts are the same.
pub fn same(a: &str, b: &str) -> (r: bool)
    ensures
        r == (a@ == b@),
{
    let a_chars = chars_of(a);
    let b_chars = chars_of(b);
    if a_chars.len() != b_chars.len() {
        return false;
    }
    let r = matches_at(&a_chars, &b_chars, 0);
    assert(a@.subrange(0, a@.len() as int) == a@);
    r
}


/// A pattern occurs in a text exactly if the text is the pattern with something, or nothing,
/// before and after it.
pub proof fn a_pattern_occurs_between_what_surrounds_it(text: Seq<char>, pattern: Seq<char>)
    ensures
        occurs_in(text, pattern) <==> exists|before: Seq<char>, after: Seq<char>|
            text == #[trigger] (before + pattern + after),
{
    if occurs_in(text, pattern) {
        let at = choose|at: int| occurs_at(text, pattern, at);
        let before = text.take(at);
        let after = text.skip(at + pattern.len());
        assert(text =~= before + pattern + after) by {
            assert(text.subrange(at, at + pattern.len()) == pattern);
            assert forall|i: int| 0 <= i < text.len() implies text[i] == (before + pattern
                + after)[i] by {
                if at <= i < at + pattern.len() {
                    assert(text.subrange(at, at + pattern.len())[i - at] == text[i]);
                }
            }
        }
    }
    if exists|before: Seq<char>, after: Seq<char>| text == #[trigger] (before + pattern + after) {
        let (before, after) = choose|before: Seq<char>, after: Seq<char>|
            text == #[trigger] (before + pattern + after);
        let at = before.len() as int;
        assert(text.subrange(at, at + pattern.len()) =~= pattern);
        assert(occurs_at(text, pattern, at));
    }
}

/// A text ends in a pattern exactly if it is the pattern with something, or nothing, before it.
pub proof fn a_suffix_follows_what_stands_before_it(text: Seq<char>, pattern: Seq<char>)
    ensures
        pattern.is_suffix_of(text) <==> exists|before: Seq<char>|
            text == #[trigger] (before + pattern),
{
    if pattern.is_suffix_of(text) {
        let before = text.take(text.len() - pattern.len());
        let end = text.subrange(text.len() - pattern.len(), text.len() as int);
        assert(text =~= before + end);
        assert(text == before + pattern);
    }
    if exists|before: Seq<char>| text == #[trigger] (before + pattern) {
        let before = choose|before: Seq<char>| text == #[trigger] (before + pattern);
        assert(text.subrange(before.len() as int, text.len() as int) =~= pattern);
    }
}

} // verus!
