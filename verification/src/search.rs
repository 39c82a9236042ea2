use vstd::prelude::*;
use crate::text::{chars_of, contains, contains_chars, lines_of, split_lines, texts};

verus! {

/// The lowercase form that `str::to_lowercase` gives `s`. It follows the Unicode
/// character database and is not written out here.
pub uninterp spec fn lowercase_of(s: Seq<char>) -> Seq<char>;

/// The lowercase form of `s`, by `str::to_lowercase` of the standard library.
/// Nothing is proved of it: the contract only names what the call returns, which
/// depends on the characters of `s` alone.
#[verifier::external_body]
fn to_lowercase(s: &str) -> (r: String)
    ensures
        r@ == lowercase_of(s@),
{
    s.to_lowercase()
}

/// Whether `line` counts as a hit for `query`: it holds `query` as a contiguous run
/// of characters, after both were put in lowercase where `ignore_case` is set.
pub open spec fn is_match(line: Seq<char>, query: Seq<char>, ignore_case: bool) -> bool {
    if ignore_case {
        contains(lowercase_of(line), lowercase_of(query))
    } else {
        contains(line, query)
    }
}

/// Those of `lines` that are hits for `query`, in the order in which they stand.
pub open spec fn keep_matches(lines: Seq<Seq<char>>, query: Seq<char>, ignore_case: bool) -> Seq<
    Seq<char>,
> {
    lines.filter(|line: Seq<char>| is_match(line, query, ignore_case))
}

/// The lines of `content` that are hits for `query`, in the order in which they stand.
pub open spec fn matching_lines(query: Seq<char>, content: Seq<char>, ignore_case: bool) -> Seq<
    Seq<char>,
> {
    keep_matches(lines_of(content), query, ignore_case)
}

/// Adding one line at the end adds it to the hits exactly when it is one.
pub proof fn lemma_keep_matches_push(
    lines: Seq<Seq<char>>,
    line: Seq<char>,
    query: Seq<char>,
    ignore_case: bool,
)
    ensures
        keep_matches(lines.push(line), query, ignore_case) == if is_match(
            line,
            query,
            ignore_case,
        ) {
            keep_matches(lines, query, ignore_case).push(line)
        } else {
            keep_matches(lines, query, ignore_case)
        },
{
    reveal(Seq::filter);
    assert(lines.push(line).drop_last() =~= lines);
}

/// The characters of `s` as the search compares them: in lowercase where
/// `ignore_case` is set, else as they are.
pub fn folded_chars(s: &str, ignore_case: bool) -> (v: Vec<char>)
    ensures
        v@ == if ignore_case {
            lowercase_of(s@)
        } else {
            s@
        },
{
    if ignore_case {
        let lower = to_lowercase(s);
        chars_of(lower.as_str())
    } else {
        chars_of(s)
    }
}

/// The lines of `content` that hold `query`, each as it stands in `content` and in
/// the order in which they stand there. With `ignore_case` the comparison is made on
/// the lowercase forms of the line and of `query`.
pub fn search<'a>(query: &str, content: &'a str, ignore_case: bool) -> (out: Vec<&'a str>)
    ensures
        texts(out@) == matching_lines(query@, content@, ignore_case),
{
    let lines = split_lines(content);
    let needle = folded_chars(query, ignore_case);
    let mut out: Vec<&'a str> = Vec::new();
    let mut i: usize = 0;
    proof {
        reveal(Seq::filter);
        assert(texts(lines@.subrange(0, 0)) =~= Seq::<Seq<char>>::empty());
    }
    while i < lines.len()
        invariant
            i <= lines.len(),
            needle@ == if ignore_case {
                lowercase_of(query@)
            } else {
                query@
            },
            texts(out@) == keep_matches(texts(lines@.subrange(0, i as int)), query@, ignore_case),
        decreases lines.len() - i,
    {
        let line = lines[i];
        let hay = folded_chars(line, ignore_case);
        let ghost seen = texts(lines@.subrange(0, i as int));
        let ghost found = out@;
        proof {
            lemma_keep_matches_push(seen, line@, query@, ignore_case);
            assert(texts(lines@.subrange(0, i + 1)) =~= seen.push(line@));
        }
        if contains_chars(&hay, &needle) {
            out.push(line);
            assert(texts(out@) =~= texts(found).push(line@));
        }
        i += 1;
    }
    assert(lines@.subrange(0, i as int) =~= lines@);
    out
}

/// The lines of `content` whose lowercase form holds the lowercase form of `query`.
pub fn search_case_insensitive<'a>(query: &str, content: &'a str) -> (out: Vec<&'a str>)
    ensures
        texts(out@) == matching_lines(query@, content@, true),
{
    search(query, content, true)
}

} // verus!
