use vstd::prelude::*;
use vstd::string::StringSliceAdditionalSpecFns;
use vstd::utf8::*;
use crate::encoding::{
    lemma_ascii_char_has_byte, lemma_ascii_last_char_is_last_byte, lemma_boundary_after_ascii,
    lemma_boundary_at_ascii, lemma_single_ascii_byte, lemma_split_at_boundary,
};

verus! {

/// `needle` occurs in `hay` starting at position `i`.
pub open spec fn occurs_at(hay: Seq<char>, needle: Seq<char>, i: int) -> bool {
    &&& 0 <= i
    &&& i + needle.len() <= hay.len()
    &&& hay.subrange(i, i + needle.len()) == needle
}

/// `needle` is a contiguous run of characters somewhere in `hay`.
pub open spec fn contains(hay: Seq<char>, needle: Seq<char>) -> bool {
    exists|i: int| occurs_at(hay, needle, i)
}

/// The position of the first `c` in `s`, or `s.len()` where there is none.
pub open spec fn first_position(s: Seq<char>, c: char) -> int
    decreases s.len(),
{
    if s.len() == 0 || s[0] == c {
        0
    } else {
        1 + first_position(s.drop_first(), c)
    }
}

/// The position of the first line feed in `s`, or `s.len()` where there is none.
pub open spec fn line_end(s: Seq<char>) -> int {
    first_position(s, '\n')
}

/// `line` without the carriage return that it may end in.
pub open spec fn strip_cr(line: Seq<char>) -> Seq<char> {
    if line.len() > 0 && line.last() == '\r' {
        line.drop_last()
    } else {
        line
    }
}

/// The lines of `s`. A line ends at a line feed, or at a carriage return followed
/// by a line feed, and does not include them. What follows the last line feed is a
/// line of its own unless it is empty, and is kept as it stands.
pub open spec fn lines_of(s: Seq<char>) -> Seq<Seq<char>>
    decreases s.len(),
    via lines_of_decreases
{
    if s.len() == 0 {
        Seq::empty()
    } else if line_end(s) >= s.len() {
        seq![s]
    } else {
        seq![strip_cr(s.subrange(0, line_end(s)))] + lines_of(
            s.subrange(line_end(s) + 1, s.len() as int),
        )
    }
}

#[via_fn]
proof fn lines_of_decreases(s: Seq<char>) {
    lemma_first_position_bounds(s, '\n');
}

/// `first_position` stays within the text and stops at the first `c`.
pub proof fn lemma_first_position_bounds(s: Seq<char>, c: char)
    ensures
        0 <= first_position(s, c) <= s.len(),
        first_position(s, c) < s.len() ==> s[first_position(s, c)] == c,
        forall|j: int| 0 <= j < first_position(s, c) ==> s[j] != c,
    decreases s.len(),
{
    if s.len() == 0 || s[0] == c {
    } else {
        let t = s.drop_first();
        lemma_first_position_bounds(t, c);
        assert forall|j: int| 0 <= j < first_position(s, c) implies s[j] != c by {
            if j > 0 {
                assert(s[j] == t[j - 1]);
            }
        }
    }
}

/// `first_position` is the one position that has no `c` before it and either a `c`
/// at it or the end of the text.
pub proof fn lemma_first_position_is(s: Seq<char>, c: char, k: int)
    requires
        0 <= k <= s.len(),
        forall|j: int| 0 <= j < k ==> s[j] != c,
        k < s.len() ==> s[k] == c,
    ensures
        first_position(s, c) == k,
{
    lemma_first_position_bounds(s, c);
    let e = first_position(s, c);
    if e < k {
        assert(s[e] == c);
    } else if k < e {
        assert(s[k] == c);
    }
}

/// The texts of a list of string slices.
pub open spec fn texts(v: Seq<&str>) -> Seq<Seq<char>> {
    Seq::new(v.len(), |i: int| v[i]@)
}

/// The characters of `s`, in order.
pub fn chars_of(s: &str) -> (v: Vec<char>)
    ensures
        v@ == s@,
{
    let mut v: Vec<char> = Vec::new();
    for c in it: s.chars()
        invariant
            it.seq() == s@,
            v@ == s@.subrange(0, it.index() as int),
    {
        v.push(c);
        assert(v@ =~= s@.subrange(0, it.index() + 1));
    }
    assert(v@ =~= s@);
    v
}

/// Whether the first `needle.len()` characters of `hay` from position `i` spell `needle`.
pub fn matches_at(hay: &Vec<char>, needle: &Vec<char>, i: usize) -> (r: bool)
    requires
        i + needle.len() <= hay.len(),
    ensures
        r == occurs_at(hay@, needle@, i as int),
{
    let mut j: usize = 0;
    while j < needle.len()
        invariant
            i + needle.len() <= hay.len(),
            j <= needle.len(),
            forall|k: int| 0 <= k < j ==> hay@[i + k] == needle@[k],
        decreases needle.len() - j,
    {
        if hay[i + j] != needle[j] {
            proof {
                let w = hay@.subrange(i as int, i + needle.len());
                assert(w[j as int] == hay@[i + j]);
            }
            return false;
        }
        j += 1;
    }
    assert(hay@.subrange(i as int, i + needle.len()) =~= needle@);
    true
}

/// Whether `needle` occurs anywhere in `hay`.
pub fn contains_chars(hay: &Vec<char>, needle: &Vec<char>) -> (r: bool)
    ensures
        r == contains(hay@, needle@),
{
    if needle.len() > hay.len() {
        return false;
    }
    let last: usize = hay.len() - needle.len();
    let mut i: usize = 0;
    while i < last
        invariant
            last == hay.len() - needle.len(),
            i <= last,
            forall|k: int| 0 <= k < i ==> !occurs_at(hay@, needle@, k),
        decreases last - i,
    {
        if matches_at(hay, needle, i) {
            return true;
        }
        i += 1;
    }
    matches_at(hay, needle, last)
}

/// The position of the first byte `b` in `bytes`, or their number where there is none.
pub fn find_byte(bytes: &[u8], b: u8) -> (k: usize)
    ensures
        k <= bytes@.len(),
        forall|j: int| 0 <= j < k ==> bytes@[j] != b,
        k < bytes@.len() ==> bytes@[k as int] == b,
{
    let mut k: usize = 0;
    while k < bytes.len() && bytes[k] != b
        invariant
            k <= bytes@.len(),
            forall|j: int| 0 <= j < k ==> bytes@[j] != b,
        decreases bytes@.len() - k,
    {
        k += 1;
    }
    k
}

/// `line` without the carriage return that it may end in.
pub fn trim_cr<'a>(line: &'a str) -> (r: &'a str)
    ensures
        r@ == strip_cr(line@),
{
    let bytes = line.as_bytes();
    let n: usize = bytes.len();
    proof {
        encode_utf8_valid_utf8(line@);
    }
    if n > 0 && bytes[n - 1] == 13u8 {
        proof {
            lemma_boundary_at_ascii(line.spec_bytes(), n - 1);
        }
        let (kept, cr) = line.split_at(n - 1);
        proof {
            assert(cr.spec_bytes() =~= seq!['\r' as u8]);
            lemma_single_ascii_byte(cr@, '\r');
            lemma_split_at_boundary(line@, kept@, cr@, n - 1);
            assert(kept@ =~= line@.drop_last());
        }
        kept
    } else {
        proof {
            if line@.len() > 0 && line@.last() == '\r' {
                lemma_ascii_last_char_is_last_byte(line@);
            }
        }
        line
    }
}

/// Cuts `s` at the first character with the ASCII code `b`: what stands before it,
/// and what follows it. Where there is no such character, all of `s` and nothing.
pub fn cut_at<'a>(s: &'a str, b: u8) -> (r: (&'a str, Option<&'a str>))
    requires
        b <= 0x7f,
    ensures
        r.0@ == s@.subrange(0, first_position(s@, b as char)),
        first_position(s@, b as char) >= s@.len() ==> r.1 is None,
        first_position(s@, b as char) < s@.len() ==> r.1 is Some && r.1->0@ == s@.subrange(
            first_position(s@, b as char) + 1,
            s@.len() as int,
        ),
{
    let ghost c = b as char;
    let bytes = s.as_bytes();
    let k: usize = find_byte(bytes, b);
    proof {
        encode_utf8_valid_utf8(s@);
    }
    if k == bytes.len() {
        proof {
            assert forall|j: int| 0 <= j < s@.len() implies s@[j] != c by {
                if s@[j] == c {
                    let i = lemma_ascii_char_has_byte(s@, j);
                    assert(bytes@[i] == b);
                }
            }
            lemma_first_position_is(s@, c, s@.len() as int);
            assert(s@.subrange(0, s@.len() as int) =~= s@);
        }
        (s, None)
    } else {
        proof {
            lemma_boundary_at_ascii(s.spec_bytes(), k as int);
        }
        let (head, tail) = s.split_at(k);
        proof {
            lemma_split_at_boundary(s@, head@, tail@, k as int);
            encode_utf8_valid_utf8(tail@);
            assert(tail.spec_bytes()[0] == b);
            lemma_boundary_after_ascii(tail.spec_bytes());
        }
        let (mark, after) = tail.split_at(1);
        proof {
            assert(mark.spec_bytes() =~= seq![c as u8]);
            lemma_single_ascii_byte(mark@, c);
            lemma_split_at_boundary(tail@, mark@, after@, 1);
            assert forall|j: int| 0 <= j < head@.len() implies head@[j] != c by {
                if head@[j] == c {
                    let i = lemma_ascii_char_has_byte(head@, j);
                    assert(head.spec_bytes()[i] == bytes@[i]);
                }
            }
            assert(s@ =~= head@ + seq![c] + after@);
            lemma_first_position_is(s@, c, head@.len() as int);
            assert(s@.subrange(0, head@.len() as int) =~= head@);
            assert(s@.subrange(head@.len() as int + 1, s@.len() as int) =~= after@);
        }
        (head, Some(after))
    }
}

/// Cuts the first line off a text that is not empty: the line, and what follows its
/// line feed.
pub fn take_line<'a>(rest: &'a str) -> (r: (&'a str, &'a str))
    requires
        rest@.len() > 0,
    ensures
        line_end(rest@) >= rest@.len() ==> r.0@ == rest@ && r.1@.len() == 0,
        line_end(rest@) < rest@.len() ==> r.0@ == strip_cr(rest@.subrange(0, line_end(rest@)))
            && r.1@ == rest@.subrange(line_end(rest@) + 1, rest@.len() as int),
        r.1@.len() < rest@.len(),
{
    proof {
        lemma_first_position_bounds(rest@, '\n');
    }
    match cut_at(rest, 10u8) {
        (head, Some(after)) => (trim_cr(head), after),
        (head, None) => {
            proof {
                reveal_strlit("");
                assert(rest@.subrange(0, rest@.len() as int) =~= rest@);
            }
            (head, "")
        },
    }
}

/// The lines of `content`, each a slice of it, in the order in which they stand.
pub fn split_lines<'a>(content: &'a str) -> (out: Vec<&'a str>)
    ensures
        texts(out@) == lines_of(content@),
{
    let mut out: Vec<&'a str> = Vec::new();
    let mut rest: &'a str = content;
    while !rest.is_empty()
        invariant
            lines_of(content@) == texts(out@) + lines_of(rest@),
        decreases rest@.len(),
    {
        let ghost before = out@;
        let ghost whole = rest@;
        let (line, after) = take_line(rest);
        out.push(line);
        rest = after;
        proof {
            assert(texts(out@) =~= texts(before) + seq![line@]);
            if line_end(whole) >= whole.len() {
                assert(lines_of(rest@) =~= Seq::<Seq<char>>::empty());
                assert(lines_of(whole) =~= seq![line@] + lines_of(rest@));
            }
            assert(lines_of(content@) =~= texts(out@) + lines_of(rest@));
        }
    }
    assert(lines_of(content@) =~= texts(out@));
    out
}

} // verus!
