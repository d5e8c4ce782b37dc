use vstd::prelude::*;
use vstd::string::StrSliceExecFns;

verus! {

broadcast use vstd::seq_lib::group_seq_properties;

/// Index of the first `'\n'` in `s` at or after `from`, or `s.len()` when there is none.
pub open spec fn next_newline(s: Seq<char>, from: int) -> int
    decreases s.len() - from,
{
    if from >= s.len() {
        s.len() as int
    } else if s[from] == '\n' {
        from
    } else {
        next_newline(s, from + 1)
    }
}

/// A line as `str::lines` yields it: a `'\r'` that precedes the `'\n'` is dropped.
pub open spec fn strip_cr(line: Seq<char>) -> Seq<char> {
    if line.len() > 0 && line.last() == '\r' {
        line.drop_last()
    } else {
        line
    }
}

/// The lines of `s` that start at or after position `from`.
pub open spec fn lines_from(s: Seq<char>, from: int) -> Seq<Seq<char>>
    decreases s.len() - from,
{
    if from < 0 || from >= s.len() {
        Seq::empty()
    } else {
        let end = next_newline(s, from);
        if end >= s.len() {
            seq![s.subrange(from, s.len() as int)]
        } else {
            proof {
                lemma_next_newline_bounds(s, from);
            }
            seq![strip_cr(s.subrange(from, end))] + lines_from(s, end + 1)
        }
    }
}

/// The lines of `s`: split at `"\n"` or `"\r\n"`, terminators removed, and no empty
/// line after a final terminator.
pub open spec fn lines(s: Seq<char>) -> Seq<Seq<char>> {
    lines_from(s, 0)
}

/// `pat` occurs in `text` starting at position `i`.
pub open spec fn occurs_at(text: Seq<char>, pat: Seq<char>, i: int) -> bool {
    0 <= i && i + pat.len() <= text.len() && text.subrange(i, i + pat.len()) == pat
}

/// `pat` occurs somewhere in `text` (the empty pattern occurs everywhere).
pub open spec fn has_substring(text: Seq<char>, pat: Seq<char>) -> bool {
    exists|i: int| occurs_at(text, pat, i)
}

/// The lines of `contents` that contain `pattern`, in their order.
pub open spec fn matching_lines(pattern: Seq<char>, contents: Seq<char>) -> Seq<Seq<char>> {
    lines(contents).filter(|line: Seq<char>| has_substring(line, pattern))
}

/// The next newline from `from` lies between `from` and the end, and nothing before it is
/// a newline.
pub proof fn lemma_next_newline_bounds(s: Seq<char>, from: int)
    requires
        0 <= from,
    ensures
        from <= next_newline(s, from) || (from > s.len() && next_newline(s, from) == s.len()),
        next_newline(s, from) <= s.len() || from > s.len(),
        next_newline(s, from) < s.len() ==> s[next_newline(s, from)] == '\n',
        forall|j: int| from <= j < next_newline(s, from) ==> s[j] != '\n',
    decreases s.len() - from,
{
    if from < s.len() && s[from] != '\n' {
        lemma_next_newline_bounds(s, from + 1);
    }
}

/// Where no `'\n'` stands in `s[from..i]`, the next one at or after `from` is the next one
/// at or after `i`.
proof fn lemma_next_newline_skip(s: Seq<char>, from: int, i: int)
    requires
        0 <= from <= i <= s.len(),
        forall|j: int| from <= j < i ==> s[j] != '\n',
    ensures
        next_newline(s, from) == next_newline(s, i),
    decreases i - from,
{
    if from < i {
        lemma_next_newline_skip(s, from + 1, i);
    }
}

/// The characters of `s`, in order.
pub fn chars_of(s: &str) -> (v: Vec<char>)
    ensures
        v@ == s@,
{
    let mut v: Vec<char> = Vec::new();
    for c in it: s.chars()
        invariant
            v@ == it.seq().take(it.index() as int),
            it.seq() == s@,
    {
        v.push(c);
    }
    v
}

/// Whether `pat` occurs in `text[start..end]`.
pub(crate) fn occurs_in(text: &Vec<char>, start: usize, end: usize, pat: &Vec<char>) -> (b: bool)
    requires
        start <= end <= text.len(),
    ensures
        b == has_substring(text@.subrange(start as int, end as int), pat@),
{
    let ghost line = text@.subrange(start as int, end as int);
    let m = pat.len();
    if m > end - start {
        assert forall|i: int| !occurs_at(line, pat@, i) by {}
        return false;
    }
    let last = end - m;
    let mut i = start;
    while i <= last
        invariant
            start <= i <= last + 1,
            last + m == end,
            end <= text.len(),
            m == pat.len(),
            line == text@.subrange(start as int, end as int),
            forall|k: int| 0 <= k < i - start ==> !occurs_at(line, pat@, k),
        decreases last + 1 - i,
    {
        let mut j: usize = 0;
        let mut same = true;
        while j < m
            invariant
                j <= m,
                m == pat.len(),
                i + m <= end,
                end <= text.len(),
                same ==> forall|k: int| 0 <= k < j ==> text@[i + k] == pat@[k],
                !same ==> exists|k: int| 0 <= k < m && text@[i + k] != pat@[k],
            decreases m - j,
        {
            if text[i + j] != pat[j] {
                same = false;
            }
            j = j + 1;
        }
        if same {
            assert(line.subrange(i - start, i - start + m) =~= pat@);
            assert(occurs_at(line, pat@, i - start));
            return true;
        }
        proof {
            let k = choose|k: int| 0 <= k < m && text@[i + k] != pat@[k];
            assert(line.subrange(i - start, i - start + m)[k] != pat@[k]);
        }
        i = i + 1;
    }
    assert forall|k: int| !occurs_at(line, pat@, k) by {
        if 0 <= k && k + m <= line.len() {
            assert(k < i - start);
        }
    }
    false
}

/// The lines of `contents` that contain `pattern`, in their order, each a slice of
/// `contents`.
pub fn search_lines<'a>(pattern: &str, contents: &'a str) -> (r: Vec<&'a str>)
    ensures
        r@.map_values(|line: &str| line@) == matching_lines(pattern@, contents@),
{
    let text = chars_of(contents);
    let pat = chars_of(pattern);
    let n = text.len();
    let ghost s = text@;
    let ghost pred = |line: Seq<char>| has_substring(line, pat@);
    let ghost mut done: Seq<Seq<char>> = Seq::empty();
    let mut results: Vec<&'a str> = Vec::new();
    let mut start: usize = 0;
    let mut i: usize = 0;
    while i < n
        invariant
            n == text.len(),
            s == text@,
            s == contents@,
            pat@ == pattern@,
            pred == (|line: Seq<char>| has_substring(line, pat@)),
            start <= i <= n,
            forall|j: int| start <= j < i ==> s[j] != '\n',
            lines(s) == done + lines_from(s, start as int),
            results@.map_values(|line: &str| line@) == done.filter(pred),
        decreases n - i,
    {
        if text[i] == '\n' {
            proof {
                lemma_next_newline_skip(s, start as int, i as int);
                assert(next_newline(s, start as int) == i);
            }
            let mut end = i;
            if end > start && text[end - 1] == '\r' {
                end = end - 1;
            }
            let line: &'a str = contents.substring_char(start, end);
            assert(line@ == strip_cr(s.subrange(start as int, i as int)));
            let keep = occurs_in(&text, start, end, &pat);
            proof {
                assert(lines_from(s, start as int) == seq![line@] + lines_from(s, i + 1));
                assert(done + lines_from(s, start as int) == done.push(line@) + lines_from(s, i + 1));
                done.lemma_filter_push(line@, pred);
            }
            assert(line@ == text@.subrange(start as int, end as int));
            assert(pred(line@) == keep);
            let ghost before = results@;
            if keep {
                results.push(line);
                assert(results@.map_values(|l: &str| l@) =~= before.map_values(|l: &str| l@).push(line@));
            }
            proof {
                done = done.push(line@);
            }
            start = i + 1;
        }
        i = i + 1;
    }
    proof {
        lemma_next_newline_skip(s, start as int, n as int);
    }
    if start < n {
        let line: &'a str = contents.substring_char(start, n);
        let keep = occurs_in(&text, start, n, &pat);
        proof {
            assert(lines_from(s, start as int) == seq![line@]);
            done.lemma_filter_push(line@, pred);
        }
        assert(line@ == text@.subrange(start as int, n as int));
        assert(pred(line@) == keep);
        let ghost before = results@;
        if keep {
            results.push(line);
            assert(results@.map_values(|l: &str| l@) =~= before.map_values(|l: &str| l@).push(line@));
        }
        proof {
            assert(lines(s) == done.push(line@));
        }
    } else {
        assert(lines(s) == done);
    }
    results
}

/// Every line that the search returns contains the pattern and is a line of the
/// contents.
pub proof fn law_matches_contain_pattern(pattern: Seq<char>, contents: Seq<char>, i: int)
    requires
        0 <= i < matching_lines(pattern, contents).len(),
    ensures
        has_substring(matching_lines(pattern, contents)[i], pattern),
        lines(contents).contains(matching_lines(pattern, contents)[i]),
{
    let pred = |line: Seq<char>| has_substring(line, pattern);
    lines(contents).lemma_filter_pred(pred, i);
    assert(matching_lines(pattern, contents).contains(matching_lines(pattern, contents)[i]));
    lines(contents).lemma_filter_contains_rev(pred, matching_lines(pattern, contents)[i]);
}

/// Every line of the contents that contains the pattern is returned by the search.
pub proof fn law_lines_with_pattern_match(pattern: Seq<char>, contents: Seq<char>, i: int)
    requires
        0 <= i < lines(contents).len(),
        has_substring(lines(contents)[i], pattern),
    ensures
        matching_lines(pattern, contents).contains(lines(contents)[i]),
{
    let pred = |line: Seq<char>| has_substring(line, pattern);
    lines(contents).lemma_filter_contains(pred, i);
}

/// Filtering by a test that every item passes keeps everything.
proof fn lemma_filter_all(s: Seq<Seq<char>>, pred: spec_fn(Seq<char>) -> bool)
    requires
        forall|i: int| 0 <= i < s.len() ==> pred(#[trigger] s[i]),
    ensures
        s.filter(pred) == s,
    decreases s.len(),
{
    reveal(Seq::filter);
    if s.len() > 0 {
        lemma_filter_all(s.drop_last(), pred);
        assert(s.drop_last().push(s.last()) =~= s);
    }
}

/// The empty pattern occurs in every line, so searching for it gives every line.
pub proof fn law_empty_pattern_matches_every_line(contents: Seq<char>)
    ensures
        matching_lines(Seq::empty(), contents) == lines(contents),
{
    let pred = |line: Seq<char>| has_substring(line, Seq::<char>::empty());
    assert forall|i: int| 0 <= i < lines(contents).len() implies pred(
        #[trigger] lines(contents)[i],
    ) by {
        assert(lines(contents)[i].subrange(0, 0) =~= Seq::<char>::empty());
        assert(occurs_at(lines(contents)[i], Seq::empty(), 0));
    }
    lemma_filter_all(lines(contents), pred);
}

/// No line holds a `'\n'`: the terminators are not part of the lines.
pub proof fn law_lines_have_no_newline(s: Seq<char>, from: int, i: int, j: int)
    requires
        0 <= from,
        0 <= i < lines_from(s, from).len(),
        0 <= j < lines_from(s, from)[i].len(),
    ensures
        lines_from(s, from)[i][j] != '\n',
    decreases s.len() - from,
{
    if from < s.len() {
        let end = next_newline(s, from);
        lemma_next_newline_bounds(s, from);
        if end < s.len() && i > 0 {
            law_lines_have_no_newline(s, end + 1, i - 1, j);
        }
    }
}

/// A line of the contents in which the pattern stands at some position, any position, is
/// among the lines the search returns.
pub proof fn law_line_with_occurrence_is_returned(
    pattern: Seq<char>,
    contents: Seq<char>,
    i: int,
    k: int,
)
    requires
        0 <= i < lines(contents).len(),
        0 <= k,
        k + pattern.len() <= lines(contents)[i].len(),
        lines(contents)[i].subrange(k, k + pattern.len()) == pattern,
    ensures
        matching_lines(pattern, contents).contains(lines(contents)[i]),
{
    assert(occurs_at(lines(contents)[i], pattern, k));
    law_lines_with_pattern_match(pattern, contents, i);
}

/// Every line the search returns holds the pattern at some position and is a line of the
/// contents.
pub proof fn law_returned_line_has_occurrence(pattern: Seq<char>, contents: Seq<char>, i: int)
    requires
        0 <= i < matching_lines(pattern, contents).len(),
    ensures
        exists|k: int|
            0 <= k && k + pattern.len() <= matching_lines(pattern, contents)[i].len()
                && #[trigger] matching_lines(pattern, contents)[i].subrange(k, k + pattern.len())
                == pattern,
        lines(contents).contains(matching_lines(pattern, contents)[i]),
{
    law_matches_contain_pattern(pattern, contents, i);
    let line = matching_lines(pattern, contents)[i];
    let k = choose|k: int| occurs_at(line, pattern, k);
    assert(line.subrange(k, k + pattern.len()) == pattern);
}

} // verus!
