//! Character-level building blocks of the symbol file grammar: white space,
//! trimming, lines, searching and columns.

use vstd::prelude::*;
use vstd::slice::slice_subrange;

verus! {

/// Whether `c` is a Unicode white space character.
pub open spec fn is_whitespace(c: char) -> bool {
    let u = c as u32;
    (0x09 <= u <= 0x0D) || u == 0x20 || u == 0x85 || u == 0xA0 || u == 0x1680 || (0x2000 <= u
        <= 0x200A) || u == 0x2028 || u == 0x2029 || u == 0x202F || u == 0x205F || u == 0x3000
}

/// The first index at or after `from` that holds no white space, or the
/// length where there is none.
pub open spec fn skip_whitespace(s: Seq<char>, from: int) -> int
    decreases s.len() - from,
{
    if 0 <= from < s.len() && is_whitespace(s[from]) {
        skip_whitespace(s, from + 1)
    } else {
        from
    }
}

/// The first index at or after `from` that holds white space, or the length
/// where there is none.
pub open spec fn skip_non_whitespace(s: Seq<char>, from: int) -> int
    decreases s.len() - from,
{
    if 0 <= from < s.len() && !is_whitespace(s[from]) {
        skip_non_whitespace(s, from + 1)
    } else {
        from
    }
}

/// The end of `s[..upto]` once trailing white space is taken off.
pub open spec fn trim_end_index(s: Seq<char>, upto: int) -> int
    decreases upto,
{
    if 0 < upto <= s.len() && is_whitespace(s[upto - 1]) {
        trim_end_index(s, upto - 1)
    } else {
        upto
    }
}

/// `s` without leading and trailing white space.
pub open spec fn trimmed(s: Seq<char>) -> Seq<char> {
    let start = skip_whitespace(s, 0);
    let end = trim_end_index(s, s.len() as int);
    if start < end {
        s.subrange(start, end)
    } else {
        Seq::empty()
    }
}

/// The first index at or after `from` that holds `c`, or the length where
/// there is none.
pub open spec fn index_of(s: Seq<char>, c: char, from: int) -> int
    decreases s.len() - from,
{
    if 0 <= from < s.len() && s[from] != c {
        index_of(s, c, from + 1)
    } else {
        from
    }
}

/// Whether `pattern` stands in `s` at index `at`.
pub open spec fn occurs_at(s: Seq<char>, pattern: Seq<char>, at: int) -> bool {
    0 <= at && at + pattern.len() <= s.len() && s.subrange(at, at + pattern.len()) == pattern
}

/// Whether `pattern` stands somewhere in `s`.
pub open spec fn contains(s: Seq<char>, pattern: Seq<char>) -> bool {
    exists|at: int| occurs_at(s, pattern, at)
}

/// Whether `s` begins with `pattern`.
pub open spec fn starts_with(s: Seq<char>, pattern: Seq<char>) -> bool {
    occurs_at(s, pattern, 0)
}

/// The search for a character never moves backwards and stops at the end.
pub proof fn lemma_index_of_bounds(s: Seq<char>, c: char, from: int)
    requires
        0 <= from <= s.len(),
    ensures
        from <= index_of(s, c, from) <= s.len(),
        index_of(s, c, from) < s.len() ==> s[index_of(s, c, from)] == c,
    decreases s.len() - from,
{
    if from < s.len() && s[from] != c {
        lemma_index_of_bounds(s, c, from + 1);
    }
}

/// The line that starts at `from`: the characters up to the next line feed
/// or the end. A carriage return right before the line feed is no part of
/// the line.
pub open spec fn line_at(s: Seq<char>, from: int) -> Seq<char> {
    let brk = index_of(s, '\n', from);
    if brk < s.len() && from < brk && s[brk - 1] == '\r' {
        s.subrange(from, brk - 1)
    } else {
        s.subrange(from, brk)
    }
}

/// Where the line after the one at `from` starts.
pub open spec fn after_line(s: Seq<char>, from: int) -> int {
    let brk = index_of(s, '\n', from);
    if brk < s.len() {
        brk + 1
    } else {
        brk
    }
}

/// The lines of `s` from `from` on.
pub open spec fn lines_from(s: Seq<char>, from: int) -> Seq<Seq<char>>
    decreases s.len() - from,
    via lines_from_decreases
{
    if 0 <= from < s.len() {
        seq![line_at(s, from)] + lines_from(s, after_line(s, from))
    } else {
        Seq::empty()
    }
}

#[via_fn]
proof fn lines_from_decreases(s: Seq<char>, from: int) {
    if 0 <= from < s.len() {
        lemma_index_of_bounds(s, '\n', from);
    }
}

/// The lines of `s`. A line ends at a line feed or at the end of `s`; a
/// line feed at the very end starts no further line.
pub open spec fn lines(s: Seq<char>) -> Seq<Seq<char>> {
    lines_from(s, 0)
}

/// Where the column that starts at `from` ends: at the first white space
/// after its first character that is none, or at the end of `s`.
pub open spec fn column_break(s: Seq<char>, from: int) -> int {
    skip_non_whitespace(s, skip_whitespace(s, from))
}

/// The columns of `s` from `from` on, at most `limit` of them, each without
/// the white space around it. The last column allowed takes the rest of `s`.
pub open spec fn columns_from(s: Seq<char>, from: int, limit: nat) -> Seq<Seq<char>>
    decreases limit,
{
    if limit == 0 {
        Seq::empty()
    } else {
        let brk = column_break(s, from);
        if limit == 1 || brk >= s.len() {
            seq![trimmed(s.subrange(from, s.len() as int))]
        } else {
            seq![trimmed(s.subrange(from, brk))] + columns_from(s, brk + 1, (limit - 1) as nat)
        }
    }
}

/// The columns of `s`, at most `limit` of them. Columns are separated by
/// white space; a run of white space separates once.
pub open spec fn columns(s: Seq<char>, limit: nat) -> Seq<Seq<char>> {
    columns_from(s, 0, limit)
}

/// There is at least one column and there are at most `limit` of them.
pub proof fn lemma_columns_count(s: Seq<char>, from: int, limit: nat)
    requires
        limit >= 1,
    ensures
        1 <= columns_from(s, from, limit).len() <= limit,
    decreases limit,
{
    let brk = column_break(s, from);
    if !(limit == 1 || brk >= s.len()) {
        lemma_columns_count(s, brk + 1, (limit - 1) as nat);
    }
}

/// The views of slices.
pub open spec fn slice_views(slices: Seq<&[char]>) -> Seq<Seq<char>> {
    Seq::new(slices.len(), |i: int| slices[i]@)
}

/// Whether `c` is a Unicode white space character.
pub fn char_is_whitespace(c: char) -> (white: bool)
    ensures
        white == is_whitespace(c),
{
    let u: u32 = c as u32;
    (0x09 <= u && u <= 0x0D) || u == 0x20 || u == 0x85 || u == 0xA0 || u == 0x1680 || (0x2000 <= u
        && u <= 0x200A) || u == 0x2028 || u == 0x2029 || u == 0x202F || u == 0x205F || u == 0x3000
}

/// The first index at or after `from` that holds no white space.
pub fn skip_whitespace_from(s: &[char], from: usize) -> (index: usize)
    requires
        from <= s@.len(),
    ensures
        index == skip_whitespace(s@, from as int),
        from <= index <= s@.len(),
{
    let mut i: usize = from;
    while i < s.len() && char_is_whitespace(s[i])
        invariant
            from <= i <= s@.len(),
            skip_whitespace(s@, from as int) == skip_whitespace(s@, i as int),
        decreases s@.len() - i,
    {
        i += 1;
    }
    i
}

/// The first index at or after `from` that holds white space.
pub fn skip_non_whitespace_from(s: &[char], from: usize) -> (index: usize)
    requires
        from <= s@.len(),
    ensures
        index == skip_non_whitespace(s@, from as int),
        from <= index <= s@.len(),
{
    let mut i: usize = from;
    while i < s.len() && !char_is_whitespace(s[i])
        invariant
            from <= i <= s@.len(),
            skip_non_whitespace(s@, from as int) == skip_non_whitespace(s@, i as int),
        decreases s@.len() - i,
    {
        i += 1;
    }
    i
}

/// `s` without leading and trailing white space.
pub fn trim<'a>(s: &'a [char]) -> (t: &'a [char])
    ensures
        t@ == trimmed(s@),
{
    let start = skip_whitespace_from(s, 0);
    let mut end: usize = s.len();
    while end > 0 && char_is_whitespace(s[end - 1])
        invariant
            end <= s@.len(),
            trim_end_index(s@, s@.len() as int) == trim_end_index(s@, end as int),
        decreases end,
    {
        end -= 1;
    }
    if start < end {
        slice_subrange(s, start, end)
    } else {
        slice_subrange(s, 0, 0)
    }
}

/// The first index at or after `from` that holds `c`.
pub fn find_char_from(s: &[char], c: char, from: usize) -> (index: usize)
    requires
        from <= s@.len(),
    ensures
        index == index_of(s@, c, from as int),
        from <= index <= s@.len(),
{
    let mut i: usize = from;
    while i < s.len() && s[i] != c
        invariant
            from <= i <= s@.len(),
            index_of(s@, c, from as int) == index_of(s@, c, i as int),
        decreases s@.len() - i,
    {
        i += 1;
    }
    i
}

/// Whether `pattern` stands in `s` at index `at`.
pub fn pattern_occurs_at(s: &[char], pattern: &[char], at: usize) -> (found: bool)
    ensures
        found == occurs_at(s@, pattern@, at as int),
{
    if pattern.len() > s.len() || at > s.len() - pattern.len() {
        return false;
    }
    let mut k: usize = 0;
    while k < pattern.len()
        invariant
            k <= pattern@.len(),
            at + pattern@.len() <= s@.len() <= usize::MAX,
            forall|j: int| 0 <= j < k ==> s@[at + j] == pattern@[j],
        decreases pattern@.len() - k,
    {
        if s[at + k] != pattern[k] {
            assert(s@.subrange(at as int, at + pattern@.len())[k as int] == s@[at + k]);
            return false;
        }
        k += 1;
    }
    assert(s@.subrange(at as int, at + pattern@.len()) =~= pattern@);
    true
}

/// Whether `pattern` stands somewhere in `s`.
pub fn contains_pattern(s: &[char], pattern: &[char]) -> (found: bool)
    ensures
        found == contains(s@, pattern@),
{
    if pattern.len() > s.len() {
        return false;
    }
    let last: usize = s.len() - pattern.len();
    let mut at: usize = 0;
    loop
        invariant
            at <= last,
            last == s@.len() - pattern@.len(),
            forall|j: int| 0 <= j < at ==> !occurs_at(s@, pattern@, j),
        decreases last - at,
    {
        if pattern_occurs_at(s, pattern, at) {
            return true;
        }
        if at == last {
            return false;
        }
        at += 1;
    }
}

/// Whether `s` begins with `pattern`.
pub fn begins_with(s: &[char], pattern: &[char]) -> (found: bool)
    ensures
        found == starts_with(s@, pattern@),
{
    pattern_occurs_at(s, pattern, 0)
}

/// The line that starts at `from`, and where the next one starts.
pub fn next_line<'a>(s: &'a [char], from: usize) -> (found: (&'a [char], usize))
    requires
        from < s@.len(),
    ensures
        found.0@ == line_at(s@, from as int),
        found.1 == after_line(s@, from as int),
        from < found.1 <= s@.len(),
{
    let brk = find_char_from(s, '\n', from);
    let next: usize = if brk < s.len() {
        brk + 1
    } else {
        brk
    };
    let line = if brk < s.len() && from < brk && s[brk - 1] == '\r' {
        slice_subrange(s, from, brk - 1)
    } else {
        slice_subrange(s, from, brk)
    };
    (line, next)
}

/// The columns of `s`, at most `limit` of them.
pub fn split_columns<'a>(s: &'a [char], limit: usize) -> (found: Vec<&'a [char]>)
    ensures
        slice_views(found@) == columns(s@, limit as nat),
{
    let mut found: Vec<&'a [char]> = Vec::new();
    let mut from: usize = 0;
    let mut remaining: usize = limit;
    assert(slice_views(found@) + columns_from(s@, 0, limit as nat) =~= columns(s@, limit as nat));
    while remaining > 0
        invariant
            from <= s@.len(),
            slice_views(found@) + columns_from(s@, from as int, remaining as nat) == columns(
                s@,
                limit as nat,
            ),
        decreases remaining,
    {
        let start = skip_whitespace_from(s, from);
        let brk = skip_non_whitespace_from(s, start);
        let ghost before = found@;
        if remaining == 1 || brk >= s.len() {
            let column = trim(slice_subrange(s, from, s.len()));
            found.push(column);
            assert(slice_views(found@) =~= slice_views(before) + seq![column@]);
            assert(columns_from(s@, from as int, 0) =~= Seq::<Seq<char>>::empty());
            assert(slice_views(found@) + Seq::<Seq<char>>::empty() =~= slice_views(found@));
            remaining = 0;
        } else {
            let column = trim(slice_subrange(s, from, brk));
            found.push(column);
            assert(slice_views(found@) =~= slice_views(before) + seq![column@]);
            assert(slice_views(before) + (seq![column@] + columns_from(
                s@,
                brk + 1,
                (remaining - 1) as nat,
            )) =~= slice_views(found@) + columns_from(s@, brk + 1, (remaining - 1) as nat));
            from = brk + 1;
            remaining -= 1;
        }
    }
    assert(slice_views(found@) + Seq::<Seq<char>>::empty() =~= slice_views(found@));
    found
}

} // verus!
