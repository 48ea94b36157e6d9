//! Searching a text for a pattern, character by character.

use vstd::prelude::*;

verus! {

/// The pattern stands in the text at position `at`.
pub open spec fn occurs_at(text: Seq<char>, pattern: Seq<char>, at: int) -> bool {
    &&& 0 <= at
    &&& at + pattern.len() <= text.len()
    &&& text.subrange(at, at + pattern.len()) == pattern
}

/// The pattern stands somewhere in the text.
pub open spec fn contains_text(text: Seq<char>, pattern: Seq<char>) -> bool {
    exists|at: int| occurs_at(text, pattern, at)
}

/// The first position at or after `from` at which the pattern stands in the
/// text, if there is one.
pub open spec fn first_occurrence_from(text: Seq<char>, pattern: Seq<char>, from: int) -> Option<
    int,
>
    decreases text.len() - from + 1,
{
    if from < 0 || from + pattern.len() > text.len() {
        None
    } else if occurs_at(text, pattern, from) {
        Some(from)
    } else {
        first_occurrence_from(text, pattern, from + 1)
    }
}

/// The first position at which the pattern stands in the text, if there is one.
pub open spec fn first_occurrence(text: Seq<char>, pattern: Seq<char>) -> Option<int> {
    first_occurrence_from(text, pattern, 0)
}

/// A text with another put in before the character at position `at`.
pub open spec fn inserted(text: Seq<char>, at: int, addition: Seq<char>) -> Seq<char> {
    text.subrange(0, at) + addition + text.subrange(at, text.len() as int)
}

/// A pattern that stands in a text stands at the same position when more
/// text follows.
pub proof fn lemma_kept_by_appending(text: Seq<char>, more: Seq<char>, pattern: Seq<char>, at: int)
    requires
        occurs_at(text, pattern, at),
    ensures
        occurs_at(text + more, pattern, at),
        contains_text(text + more, pattern),
{
    assert((text + more).subrange(at, at + pattern.len()) =~= text.subrange(
        at,
        at + pattern.len(),
    ));
}

/// A pattern that stands in a text stands as far later as the text that is
/// put in front is long.
pub proof fn lemma_kept_by_prepending(
    front: Seq<char>,
    text: Seq<char>,
    pattern: Seq<char>,
    at: int,
)
    requires
        occurs_at(text, pattern, at),
    ensures
        occurs_at(front + text, pattern, front.len() + at),
        contains_text(front + text, pattern),
{
    assert((front + text).subrange(front.len() + at, front.len() + at + pattern.len())
        =~= text.subrange(at, at + pattern.len()));
}

/// A pattern that stands in a text still stands in it after an insertion
/// that falls before, behind or at an end of the place where it stands.
pub proof fn lemma_kept_by_inserting(
    text: Seq<char>,
    at: int,
    addition: Seq<char>,
    pattern: Seq<char>,
    held: int,
)
    requires
        0 <= at <= text.len(),
        occurs_at(text, pattern, held),
        held + pattern.len() <= at || at <= held,
    ensures
        contains_text(inserted(text, at, addition), pattern),
{
    let joined = inserted(text, at, addition);
    if held + pattern.len() <= at {
        assert(joined.subrange(held, held + pattern.len()) =~= text.subrange(
            held,
            held + pattern.len(),
        ));
        assert(occurs_at(joined, pattern, held));
    } else {
        let moved = held + addition.len();
        assert(joined.subrange(moved, moved + pattern.len()) =~= text.subrange(
            held,
            held + pattern.len(),
        ));
        assert(occurs_at(joined, pattern, moved));
    }
}

/// The text holds the character nowhere.
pub open spec fn without(text: Seq<char>, mark: char) -> bool {
    forall|i: int| 0 <= i < text.len() ==> text[i] != mark
}

/// Texts that agree after the same front was put before them agree.
pub proof fn lemma_cancel_front(front: Seq<char>, left: Seq<char>, right: Seq<char>)
    requires
        front + left == front + right,
    ensures
        left == right,
{
    let n = front.len() as int;
    assert(left =~= (front + left).subrange(n, n + left.len()));
    assert(right =~= (front + right).subrange(n, n + right.len()));
    assert((front + left).len() == (front + right).len());
}

/// A text that ends where a mark first comes can be told from what
/// follows it: where two texts without the mark, each followed by a rest
/// that has the mark first at the same position, agree as wholes, the two
/// texts agree and so do the rests.
pub proof fn lemma_split_at_mark(
    left: Seq<char>,
    left_rest: Seq<char>,
    right: Seq<char>,
    right_rest: Seq<char>,
    mark: char,
    at: int,
)
    requires
        left + left_rest == right + right_rest,
        without(left, mark),
        without(right, mark),
        0 <= at < left_rest.len(),
        0 <= at < right_rest.len(),
        left_rest[at] == mark,
        right_rest[at] == mark,
        forall|j: int| 0 <= j < at ==> left_rest[j] != mark && right_rest[j] != mark,
    ensures
        left == right,
        left_rest == right_rest,
{
    let whole = left + left_rest;
    let again = right + right_rest;
    if left.len() < right.len() {
        let p = left.len() + at;
        assert(whole[p] == left_rest[at]);
        if p < right.len() {
            assert(again[p] == right[p]);
        } else {
            assert(again[p] == right_rest[p - right.len()]);
        }
        assert(false);
    }
    if right.len() < left.len() {
        let p = right.len() + at;
        assert(again[p] == right_rest[at]);
        if p < left.len() {
            assert(whole[p] == left[p]);
        } else {
            assert(whole[p] == left_rest[p - left.len()]);
        }
        assert(false);
    }
    assert forall|i: int| 0 <= i < left.len() implies left[i] == right[i] by {
        assert(whole[i] == left[i]);
        assert(again[i] == right[i]);
    }
    assert(left =~= right);
    lemma_cancel_front(left, left_rest, right_rest);
}

/// The characters of a text, one by one.
pub fn characters(text: &str) -> (list: Vec<char>)
    ensures
        list@ == text@,
{
    let mut list: Vec<char> = Vec::new();
    for c in it: text.chars()
        invariant
            it.seq() == text@,
            list@ == text@.take(it.index() as int),
    {
        list.push(c);
    }
    list
}

/// Whether the pattern stands in the text at position `at`.
fn stands_at(text: &Vec<char>, pattern: &Vec<char>, at: usize) -> (found: bool)
    requires
        at + pattern.len() <= text.len(),
    ensures
        found == occurs_at(text@, pattern@, at as int),
{
    let mut k: usize = 0;
    while k < pattern.len()
        invariant
            k <= pattern.len(),
            at + pattern.len() <= text.len(),
            forall|j: int| 0 <= j < k ==> text@[at + j] == pattern@[j],
        decreases pattern.len() - k,
    {
        if text[at + k] != pattern[k] {
            proof {
                let part = text@.subrange(at as int, at + pattern.len());
                assert(part[k as int] == text@[at + k]);
            }
            return false;
        }
        k += 1;
    }
    assert(text@.subrange(at as int, at + pattern.len()) =~= pattern@);
    true
}

/// A search that has passed every position before `from` without a match
/// goes on as a search from `from` does.
proof fn lemma_search_resumes(text: Seq<char>, pattern: Seq<char>, start: int, from: int)
    requires
        0 <= start <= from,
        forall|at: int| start <= at < from ==> !occurs_at(text, pattern, at),
    ensures
        first_occurrence_from(text, pattern, start) == first_occurrence_from(text, pattern, from),
    decreases from - start,
{
    if start < from {
        lemma_search_resumes(text, pattern, start + 1, from);
    }
}

/// Where a text first holds a pattern: the position of the first character
/// of the first match, counted in characters.
pub fn find_text(text: &str, pattern: &str) -> (found: Option<usize>)
    ensures
        found is Some <==> first_occurrence(text@, pattern@) is Some,
        found matches Some(at) ==> first_occurrence(text@, pattern@) == Some(at as int),
{
    let hay = characters(text);
    let needle = characters(pattern);
    if needle.len() > hay.len() {
        return None;
    }
    let last: usize = hay.len() - needle.len();
    let mut at: usize = 0;
    while at < last
        invariant
            hay@ == text@,
            needle@ == pattern@,
            last == hay.len() - needle.len(),
            at <= last,
            forall|e: int| 0 <= e < at ==> !occurs_at(text@, pattern@, e),
        decreases last - at,
    {
        if stands_at(&hay, &needle, at) {
            proof {
                lemma_search_resumes(text@, pattern@, 0, at as int);
            }
            return Some(at);
        }
        at += 1;
    }
    proof {
        lemma_search_resumes(text@, pattern@, 0, at as int);
        assert(first_occurrence_from(text@, pattern@, at + 1) is None);
    }
    if stands_at(&hay, &needle, at) {
        Some(at)
    } else {
        None
    }
}

/// The first match of a search is a match, and no position between the
/// start of the search and it is one.
pub proof fn lemma_first_occurrence_is_first(text: Seq<char>, pattern: Seq<char>, from: int)
    requires
        0 <= from,
    ensures
        match first_occurrence_from(text, pattern, from) {
            Some(at) => from <= at && occurs_at(text, pattern, at) && forall|e: int|
                from <= e < at ==> !occurs_at(text, pattern, e),
            None => forall|e: int| from <= e ==> !occurs_at(text, pattern, e),
        },
    decreases text.len() - from + 1,
{
    if from + pattern.len() > text.len() {
    } else if occurs_at(text, pattern, from) {
    } else {
        lemma_first_occurrence_is_first(text, pattern, from + 1);
    }
}

/// A text holds a pattern exactly when a search from its start finds it.
pub proof fn lemma_contains_is_found(text: Seq<char>, pattern: Seq<char>)
    ensures
        contains_text(text, pattern) <==> first_occurrence(text, pattern) is Some,
{
    lemma_first_occurrence_is_first(text, pattern, 0);
    if contains_text(text, pattern) {
        let at = choose|at: int| occurs_at(text, pattern, at);
        assert(occurs_at(text, pattern, at));
    }
}

/// Whether a text holds a pattern.
pub fn contains(text: &str, pattern: &str) -> (found: bool)
    ensures
        found == contains_text(text@, pattern@),
{
    proof {
        lemma_contains_is_found(text@, pattern@);
    }
    find_text(text, pattern).is_some()
}

/// Whether two texts are the same, character for character.
pub fn same_text(left: &str, right: &str) -> (same: bool)
    ensures
        same == (left@ == right@),
{
    let a = characters(left);
    let b = characters(right);
    if a.len() != b.len() {
        return false;
    }
    let mut k: usize = 0;
    while k < a.len()
        invariant
            a@ == left@,
            b@ == right@,
            a.len() == b.len(),
            k <= a.len(),
            forall|j: int| 0 <= j < k ==> a@[j] == b@[j],
        decreases a.len() - k,
    {
        if a[k] != b[k] {
            assert(left@[k as int] != right@[k as int]);
            return false;
        }
        k += 1;
    }
    assert(a@ =~= b@);
    true
}

} // verus!
