use vstd::prelude::*;
use crate::search::{is_match, keep_matches, lowercase_of, matching_lines};
use crate::text::{
    contains, lemma_first_position_bounds, lemma_first_position_is, line_end, lines_of, occurs_at,
    strip_cr, texts,
};

verus! {

/// The positions in `lines` of the hits for `query`, in rising order.
pub open spec fn hit_positions(lines: Seq<Seq<char>>, query: Seq<char>, ignore_case: bool) -> Seq<
    int,
>
    decreases lines.len(),
{
    if lines.len() == 0 {
        Seq::empty()
    } else {
        let before = hit_positions(lines.drop_last(), query, ignore_case);
        if is_match(lines.last(), query, ignore_case) {
            before.push(lines.len() - 1)
        } else {
            before
        }
    }
}

/// The hits are the lines at the hit positions: each position lies within `lines`
/// and holds a hit, the positions rise strictly, so no line is moved or repeated,
/// and no position that holds a hit is left out.
pub proof fn lemma_hits_in_order(lines: Seq<Seq<char>>, query: Seq<char>, ignore_case: bool)
    ensures
        hit_positions(lines, query, ignore_case).len() == keep_matches(
            lines,
            query,
            ignore_case,
        ).len(),
        forall|i: int|
            0 <= i < hit_positions(lines, query, ignore_case).len() ==> {
                let p = #[trigger] hit_positions(lines, query, ignore_case)[i];
                &&& 0 <= p < lines.len()
                &&& is_match(lines[p], query, ignore_case)
                &&& keep_matches(lines, query, ignore_case)[i] == lines[p]
            },
        forall|i: int, j: int|
            0 <= i < j < hit_positions(lines, query, ignore_case).len() ==> hit_positions(
                lines,
                query,
                ignore_case,
            )[i] < hit_positions(lines, query, ignore_case)[j],
        forall|k: int|
            0 <= k < lines.len() && is_match(#[trigger] lines[k], query, ignore_case)
                ==> hit_positions(lines, query, ignore_case).contains(k),
    decreases lines.len(),
{
    reveal(Seq::filter);
    if lines.len() > 0 {
        let init = lines.drop_last();
        lemma_hits_in_order(init, query, ignore_case);
        let before = hit_positions(init, query, ignore_case);
        let pos = hit_positions(lines, query, ignore_case);
        assert forall|k: int|
            0 <= k < lines.len() && is_match(
                #[trigger] lines[k],
                query,
                ignore_case,
            ) implies pos.contains(k) by {
            if k < lines.len() - 1 {
                assert(init[k] == lines[k]);
                let w = choose|w: int| 0 <= w < before.len() && before[w] == k;
                assert(pos[w] == k);
            } else {
                assert(pos[pos.len() - 1] == k);
            }
        }
    }
}

/// A case-sensitive search returns only lines of the content that hold the query
/// as a contiguous run of characters, in the order in which they stand in the
/// content.
pub proof fn lemma_case_sensitive_search(query: Seq<char>, content: Seq<char>)
    ensures
        hit_positions(lines_of(content), query, false).len() == matching_lines(
            query,
            content,
            false,
        ).len(),
        forall|i: int|
            0 <= i < matching_lines(query, content, false).len() ==> {
                let p = hit_positions(lines_of(content), query, false)[i];
                &&& 0 <= p < lines_of(content).len()
                &&& #[trigger] matching_lines(query, content, false)[i] == lines_of(content)[p]
                &&& contains(lines_of(content)[p], query)
            },
        forall|i: int, j: int|
            0 <= i < j < matching_lines(query, content, false).len() ==> hit_positions(
                lines_of(content),
                query,
                false,
            )[i] < hit_positions(lines_of(content), query, false)[j],
{
    lemma_hits_in_order(lines_of(content), query, false);
}

/// A search that ignores case returns exactly the lines of the content whose
/// lowercase form holds the lowercase form of the query: each line returned is such
/// a line as it stands in the content, in the order of the content, and each such
/// line is returned.
pub proof fn lemma_case_insensitive_search(query: Seq<char>, content: Seq<char>)
    ensures
        hit_positions(lines_of(content), query, true).len() == matching_lines(
            query,
            content,
            true,
        ).len(),
        forall|i: int|
            0 <= i < matching_lines(query, content, true).len() ==> {
                let p = hit_positions(lines_of(content), query, true)[i];
                &&& 0 <= p < lines_of(content).len()
                &&& #[trigger] matching_lines(query, content, true)[i] == lines_of(content)[p]
                &&& contains(lowercase_of(lines_of(content)[p]), lowercase_of(query))
            },
        forall|i: int, j: int|
            0 <= i < j < matching_lines(query, content, true).len() ==> hit_positions(
                lines_of(content),
                query,
                true,
            )[i] < hit_positions(lines_of(content), query, true)[j],
        forall|k: int|
            0 <= k < lines_of(content).len() && contains(
                lowercase_of(#[trigger] lines_of(content)[k]),
                lowercase_of(query),
            ) ==> hit_positions(lines_of(content), query, true).contains(k),
{
    lemma_hits_in_order(lines_of(content), query, true);
}

/// No line holds a line feed: the line feeds of a text are its line ends.
pub proof fn lemma_lines_hold_no_line_feed(s: Seq<char>)
    ensures
        forall|i: int, j: int|
            0 <= i < lines_of(s).len() && 0 <= j < lines_of(s)[i].len() ==> #[trigger] lines_of(
                s,
            )[i][j] != '\n',
    decreases s.len(),
{
    lemma_first_position_bounds(s, '\n');
    if s.len() > 0 && line_end(s) < s.len() {
        let first = strip_cr(s.subrange(0, line_end(s)));
        let rest = s.subrange(line_end(s) + 1, s.len() as int);
        lemma_lines_hold_no_line_feed(rest);
        assert forall|i: int, j: int|
            0 <= i < lines_of(s).len() && 0 <= j < lines_of(s)[i].len() implies #[trigger] lines_of(
                s,
            )[i][j] != '\n' by {
            if i == 0 {
                assert(first[j] == s[j]);
            } else {
                assert(lines_of(s)[i] == lines_of(rest)[i - 1]);
            }
        }
    }
}

/// A line feed at the end of a text ends its last line and starts no new one: a
/// text that is not empty and ends neither in a line feed nor in a carriage
/// return has the same lines with a line feed after it as without.
pub proof fn lemma_final_line_feed_adds_no_line(s: Seq<char>)
    requires
        s.len() > 0,
        s.last() != '\n',
        s.last() != '\r',
    ensures
        lines_of(s.push('\n')) == lines_of(s),
    decreases s.len(),
{
    let t = s.push('\n');
    let end = line_end(s);
    lemma_first_position_bounds(s, '\n');
    assert forall|j: int| 0 <= j < end implies t[j] != '\n' by {
        assert(t[j] == s[j]);
    }
    lemma_first_position_is(t, '\n', end);
    assert(t.subrange(0, end) =~= s.subrange(0, end));
    if end == s.len() {
        assert(s.subrange(0, end) =~= s);
        let after = t.subrange(end + 1, t.len() as int);
        assert(after.len() == 0);
        assert(lines_of(after) =~= Seq::<Seq<char>>::empty());
        assert(strip_cr(s) == s);
        assert(lines_of(s) =~= seq![s]);
        assert(lines_of(t) =~= seq![strip_cr(t.subrange(0, end))] + lines_of(after));
        assert(lines_of(t) =~= lines_of(s));
    } else {
        let rest = s.subrange(end + 1, s.len() as int);
        assert(rest.len() > 0 && rest.last() == s.last());
        assert(t.subrange(end + 1, t.len() as int) =~= rest.push('\n'));
        lemma_final_line_feed_adds_no_line(rest);
    }
}

/// The empty query occurs in every text.
pub proof fn lemma_contains_empty(hay: Seq<char>)
    ensures
        contains(hay, Seq::<char>::empty()),
{
    assert(hay.subrange(0, 0) =~= Seq::<char>::empty());
    assert(occurs_at(hay, Seq::<char>::empty(), 0));
}

/// A case-sensitive search for the empty query returns every line of the content
/// unchanged.
pub proof fn lemma_empty_query_returns_every_line(content: Seq<char>)
    ensures
        matching_lines(Seq::<char>::empty(), content, false) == lines_of(content),
{
    lemma_all_kept(lines_of(content));
}

/// Where every line is a hit for the empty query, all lines are kept.
proof fn lemma_all_kept(lines: Seq<Seq<char>>)
    ensures
        keep_matches(lines, Seq::<char>::empty(), false) == lines,
    decreases lines.len(),
{
    reveal(Seq::filter);
    if lines.len() > 0 {
        lemma_all_kept(lines.drop_last());
        lemma_contains_empty(lines.last());
        assert(lines.drop_last().push(lines.last()) =~= lines);
    }
}

/// Two searches with the same query, content and mode return the same lines: what
/// a search returns is fixed by these three alone.
pub proof fn lemma_search_is_deterministic(
    query: Seq<char>,
    content: Seq<char>,
    ignore_case: bool,
    first: Seq<&str>,
    second: Seq<&str>,
)
    requires
        texts(first) == matching_lines(query, content, ignore_case),
        texts(second) == matching_lines(query, content, ignore_case),
    ensures
        first.len() == second.len(),
        forall|i: int| 0 <= i < first.len() ==> (#[trigger] first[i])@ == second[i]@,
{
    assert(texts(first).len() == first.len());
    assert(texts(second).len() == second.len());
    assert forall|i: int| 0 <= i < first.len() implies (#[trigger] first[i])@ == second[i]@ by {
        assert(texts(first)[i] == texts(second)[i]);
    }
}

} // verus!
