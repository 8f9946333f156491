//! Lines of text: joining them, splitting at line breaks, and looking for a
//! character.

use vstd::prelude::*;

verus! {

/// The lines of `lines`, each by its characters.
pub open spec fn lines_view(lines: Seq<String>) -> Seq<Seq<char>> {
    lines.map_values(|l: String| l@)
}

/// The lines with a line break between each two.
pub open spec fn joined(lines: Seq<Seq<char>>) -> Seq<char>
    decreases lines.len(),
{
    if lines.len() == 0 {
        Seq::<char>::empty()
    } else if lines.len() == 1 {
        lines[0]
    } else {
        joined(lines.drop_last()) + seq!['\n'] + lines.last()
    }
}

/// The pieces of `text` between the occurrences of `separator`. A text
/// without the separator is one piece, the empty text too.
pub open spec fn split_on(text: Seq<char>, separator: char) -> Seq<Seq<char>>
    decreases text.len(),
{
    if text.len() == 0 {
        seq![Seq::<char>::empty()]
    } else {
        let before = split_on(text.drop_last(), separator);
        if text.last() == separator {
            before.push(Seq::<char>::empty())
        } else {
            before.update(before.len() - 1, before.last().push(text.last()))
        }
    }
}

/// The pieces of `text` between its line breaks.
pub open spec fn split_lines(text: Seq<char>) -> Seq<Seq<char>> {
    split_on(text, '\n')
}

/// Splitting gives at least one piece.
pub proof fn lemma_split_nonempty(text: Seq<char>, separator: char)
    ensures
        split_on(text, separator).len() >= 1,
    decreases text.len(),
{
    if text.len() > 0 {
        lemma_split_nonempty(text.drop_last(), separator);
    }
}

/// Joining the pieces of a text gives the text back.
pub proof fn lemma_join_split(text: Seq<char>)
    ensures
        joined(split_lines(text)) == text,
    decreases text.len(),
{
    if text.len() > 0 {
        let head = text.drop_last();
        let before = split_lines(head);
        lemma_split_nonempty(head, '\n');
        lemma_join_split(head);
        let after = split_lines(text);
        if text.last() == '\n' {
            assert(after.drop_last() =~= before);
        } else if before.len() > 1 {
            assert(after.drop_last() =~= before.drop_last());
            assert(joined(after) =~= joined(before).push(text.last()));
        }
    }
}

/// The lines with a line break between each two.
pub fn join_lines(lines: &Vec<String>) -> (r: String)
    ensures
        r@ == joined(lines_view(lines@)),
{
    let ghost all = lines_view(lines@);
    let mut out = String::new();
    let mut i: usize = 0;
    while i < lines.len()
        invariant
            i <= lines@.len(),
            all == lines_view(lines@),
            out@ == joined(all.subrange(0, i as int)),
        decreases lines@.len() - i,
    {
        let ghost done = all.subrange(0, i as int);
        let ghost next = all.subrange(0, i + 1);
        proof {
            reveal_strlit("\n");
            assert(next.drop_last() =~= done);
        }
        if i > 0 {
            out.append("\n");
        }
        out.append(lines[i].as_str());
        i += 1;
    }
    assert(all.subrange(0, i as int) =~= all);
    out
}

/// The pieces of `text` between the occurrences of `separator`.
pub fn split_at(text: &str, separator: char) -> (r: Vec<String>)
    ensures
        lines_view(r@) == split_on(text@, separator),
        r@.len() >= 1,
{
    let n = text.unicode_len();
    let mut parts: Vec<String> = Vec::new();
    let mut start: usize = 0;
    let mut i: usize = 0;
    assert(text@.subrange(0, 0) =~= Seq::<char>::empty());
    while i < n
        invariant
            n == text@.len(),
            start <= i <= n,
            lines_view(parts@).push(text@.subrange(start as int, i as int)) == split_on(
                text@.subrange(0, i as int),
                separator,
            ),
        decreases n - i,
    {
        let c = text.get_char(i);
        let ghost seen = text@.subrange(0, i as int);
        let ghost grown = text@.subrange(0, i + 1);
        proof {
            assert(grown.drop_last() =~= seen);
        }
        if c == separator {
            let piece = text.substring_char(start, i).to_owned();
            parts.push(piece);
            start = i + 1;
            proof {
                assert(text@.subrange(start as int, i + 1) =~= Seq::<char>::empty());
            }
        } else {
            proof {
                let before = split_on(seen, separator);
                assert(text@.subrange(start as int, i + 1) =~= before.last().push(c));
            }
        }
        i += 1;
    }
    let last = text.substring_char(start, n).to_owned();
    parts.push(last);
    proof {
        assert(text@.subrange(0, n as int) =~= text@);
    }
    parts
}

/// The pieces of `text` between its line breaks.
pub fn split_at_line_breaks(text: &str) -> (r: Vec<String>)
    ensures
        lines_view(r@) == split_lines(text@),
        r@.len() >= 1,
{
    split_at(text, '\n')
}

/// Whether `c` occurs in `text`.
pub fn contains_char(text: &str, c: char) -> (r: bool)
    ensures
        r == text@.contains(c),
{
    let n = text.unicode_len();
    let mut i: usize = 0;
    while i < n
        invariant
            n == text@.len(),
            i <= n,
            forall|k: int| 0 <= k < i ==> text@[k] != c,
        decreases n - i,
    {
        if text.get_char(i) == c {
            return true;
        }
        i += 1;
    }
    false
}

/// Whether `text` begins with `prefix`.
pub open spec fn has_prefix(text: Seq<char>, prefix: Seq<char>) -> bool {
    prefix.len() <= text.len() && text.subrange(0, prefix.len() as int) == prefix
}

/// Whether `pattern` stands in `text` at position `at`.
pub open spec fn occurs_at(text: Seq<char>, pattern: Seq<char>, at: int) -> bool {
    0 <= at && at + pattern.len() <= text.len() && text.subrange(at, at + pattern.len()) == pattern
}

/// Whether `pattern` stands somewhere in `text`.
pub open spec fn has_part(text: Seq<char>, pattern: Seq<char>) -> bool {
    exists|at: int| occurs_at(text, pattern, at)
}

/// Whether two texts hold the same characters.
pub fn same_text(a: &str, b: &str) -> (r: bool)
    ensures
        r == (a@ == b@),
{
    a.to_owned() == b.to_owned()
}

/// `first` followed by `second`.
pub fn chain(first: &str, second: &str) -> (r: String)
    ensures
        r@ == first@ + second@,
{
    let mut out = first.to_owned();
    out.append(second);
    out
}

/// `first` followed by `second` and `third`.
pub fn chain3(first: &str, second: &str, third: &str) -> (r: String)
    ensures
        r@ == first@ + second@ + third@,
{
    let mut out = first.to_owned();
    out.append(second);
    out.append(third);
    out
}

/// Whether `pattern` stands in `text` at position `at`.
pub fn matches_at(text: &str, pattern: &str, at: usize) -> (r: bool)
    ensures
        r == occurs_at(text@, pattern@, at as int),
{
    let n = text.unicode_len();
    let m = pattern.unicode_len();
    if at > n || m > n - at {
        return false;
    }
    let mut k: usize = 0;
    while k < m
        invariant
            n == text@.len(),
            m == pattern@.len(),
            at + m <= n,
            k <= m,
            forall|j: int| 0 <= j < k ==> text@[at + j] == pattern@[j],
        decreases m - k,
    {
        if text.get_char(at + k) != pattern.get_char(k) {
            return false;
        }
        k += 1;
    }
    assert(text@.subrange(at as int, at + m) =~= pattern@);
    true
}

/// Whether `text` begins with `prefix`.
pub fn starts_with(text: &str, prefix: &str) -> (r: bool)
    ensures
        r == has_prefix(text@, prefix@),
{
    matches_at(text, prefix, 0)
}

/// Whether `pattern` stands somewhere in `text`.
pub fn contains_text(text: &str, pattern: &str) -> (r: bool)
    ensures
        r == has_part(text@, pattern@),
{
    let n = text.unicode_len();
    let mut at: usize = 0;
    while at <= n
        invariant
            n == text@.len(),
            at <= n + 1,
            forall|j: int| 0 <= j < at ==> !occurs_at(text@, pattern@, j),
        decreases n + 1 - at,
    {
        if matches_at(text, pattern, at) {
            return true;
        }
        if at == n {
            return false;
        }
        at += 1;
    }
    false
}

} // verus!
