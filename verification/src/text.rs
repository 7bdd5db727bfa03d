//! Character-level text operations on which parsing and rendering rest.

use vstd::prelude::*;

verus! {

/// `pattern` occurs in `text` starting at index `at`.
pub open spec fn occurs_at(text: Seq<char>, pattern: Seq<char>, at: int) -> bool {
    &&& 0 <= at
    &&& at + pattern.len() <= text.len()
    &&& text.subrange(at, at + pattern.len()) == pattern
}

/// `pattern` occurs somewhere in `text`.
pub open spec fn occurs_in(text: Seq<char>, pattern: Seq<char>) -> bool {
    exists|at: int| occurs_at(text, pattern, at)
}

/// `text` with every occurrence of `from` replaced by `to`, scanning from the
/// left and resuming after each replaced occurrence, so that occurrences never
/// overlap. An empty `from` replaces nothing.
pub open spec fn replaced(text: Seq<char>, from: Seq<char>, to: Seq<char>) -> Seq<char>
    decreases text.len(),
{
    if from.len() == 0 || text.len() < from.len() {
        text
    } else if occurs_at(text, from, 0) {
        to + replaced(text.skip(from.len() as int), from, to)
    } else {
        text.take(1) + replaced(text.skip(1), from, to)
    }
}

/// The characters of `s`, in order.
pub fn chars_of(s: &str) -> (chars: Vec<char>)
    ensures
        chars@ == s@,
{
    let mut chars: Vec<char> = Vec::new();
    for c in it: s.chars()
        invariant
            it.seq() == s@,
            chars@ == it.seq().take(it.index() as int),
    {
        chars.push(c);
    }
    chars
}

/// Whether `pattern` occurs in `text` at index `at`.
pub fn matches_at(text: &Vec<char>, pattern: &Vec<char>, at: usize) -> (hit: bool)
    ensures
        hit == occurs_at(text@, pattern@, at as int),
{
    let n = text.len();
    let m = pattern.len();
    if at > n || m > n - at {
        return false;
    }
    let mut k: usize = 0;
    while k < m
        invariant
            k <= m,
            m == pattern@.len(),
            n == text@.len(),
            at + m <= n,
            forall|j: int| 0 <= j < k ==> text@[at + j] == pattern@[j],
        decreases m - k,
    {
        if text[at + k] != pattern[k] {
            return false;
        }
        k += 1;
    }
    assert(text@.subrange(at as int, at + m) =~= pattern@);
    true
}

/// Whether `a` and `b` hold the same characters.
pub fn same_text(a: &str, b: &str) -> (yes: bool)
    ensures
        yes == (a@ == b@),
{
    let left = chars_of(a);
    let right = chars_of(b);
    if left.len() != right.len() {
        return false;
    }
    let hit = matches_at(&left, &right, 0);
    assert(left@.subrange(0, left@.len() as int) =~= left@);
    hit
}

/// Index of the first `mark` in `chars` at or after `from`, if there is one.
pub(crate) fn find_from(chars: &Vec<char>, mark: char, from: usize) -> (found: Option<usize>)
    requires
        from <= chars@.len(),
    ensures
        match chars@.skip(from as int).index_of_first(mark) {
            Some(offset) => found matches Some(at) && at == from + offset,
            None => found is None,
        },
{
    let ghost rest = chars@.skip(from as int);
    let mut at = from;
    while at < chars.len()
        invariant
            from <= at <= chars@.len(),
            rest == chars@.skip(from as int),
            forall|j: int| 0 <= j < at - from ==> rest[j] != mark,
        decreases chars@.len() - at,
    {
        if chars[at] == mark {
            proof {
                assert(rest[at - from] == mark);
                rest.index_of_first_ensures(mark);
            }
            return Some(at);
        }
        at += 1;
    }
    proof {
        rest.index_of_first_ensures(mark);
    }
    None
}

/// Whether `s` ends with `suffix`.
pub fn ends_with(s: &str, suffix: &str) -> (yes: bool)
    ensures
        yes == suffix@.is_suffix_of(s@),
{
    let text = chars_of(s);
    let pattern = chars_of(suffix);
    if pattern.len() > text.len() {
        return false;
    }
    matches_at(&text, &pattern, text.len() - pattern.len())
}

/// Replaces every occurrence of `from` in `text` by `to`.
pub fn replace_all(text: &str, from: &str, to: &str) -> (out: String)
    ensures
        out@ == replaced(text@, from@, to@),
{
    let source = chars_of(text);
    let pattern = chars_of(from);
    let n = source.len();
    let m = pattern.len();
    if m == 0 {
        return String::from_str(text);
    }
    let mut out = String::new();
    let mut kept: usize = 0;
    let mut at: usize = 0;
    assert(source@.skip(0) =~= source@);
    while m <= n - at
        invariant
            0 < m == pattern@.len(),
            n == source@.len(),
            source@ == text@,
            pattern@ == from@,
            kept <= at <= n,
            out@ + source@.subrange(kept as int, at as int) + replaced(
                source@.skip(at as int),
                from@,
                to@,
            ) == replaced(text@, from@, to@),
        decreases n - at,
    {
        let ghost rest = source@.skip(at as int);
        if matches_at(&source, &pattern, at) {
            assert(occurs_at(rest, from@, 0)) by {
                assert(rest.subrange(0, m as int) =~= source@.subrange(at as int, at + m));
            }
            assert(rest.skip(m as int) =~= source@.skip(at + m));
            out.append(text.substring_char(kept, at));
            out.append(to);
            at += m;
            kept = at;
        } else {
            assert(!occurs_at(rest, from@, 0)) by {
                assert(rest.subrange(0, m as int) =~= source@.subrange(at as int, at + m));
            }
            assert(rest.skip(1) =~= source@.skip(at + 1));
            at += 1;
        }
    }
    out.append(text.substring_char(kept, n));
    out
}

} // verus!
