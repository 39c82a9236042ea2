use vstd::prelude::*;
use vstd::utf8::*;

verus! {

/// Encoding a concatenation gives the concatenation of the encodings.
pub proof fn lemma_encode_concat(a: Seq<char>, b: Seq<char>)
    ensures
        encode_utf8(a + b) == encode_utf8(a) + encode_utf8(b),
    decreases a.len(),
{
    if a.len() == 0 {
        assert(a + b =~= b);
        assert(encode_utf8(a) + encode_utf8(b) =~= encode_utf8(b));
    } else {
        assert((a + b).drop_first() =~= a.drop_first() + b);
        lemma_encode_concat(a.drop_first(), b);
        assert((a + b)[0] == a[0]);
        assert(encode_utf8(a + b) =~= encode_utf8(a) + encode_utf8(b));
    }
}

/// A single ASCII character is encoded as the one byte that holds its code.
pub proof fn lemma_encode_ascii(c: char)
    requires
        c <= '\u{7f}',
    ensures
        encode_utf8(seq![c]) == seq![c as u8],
{
    let s = seq![c];
    assert(is_ascii_chars(s));
    is_ascii_chars_encode_utf8(s);
    assert(encode_utf8(s) =~= seq![c as u8]);
}

/// An ASCII character at position `j` shows up as its own byte in the encoding.
pub proof fn lemma_ascii_char_has_byte(chars: Seq<char>, j: int) -> (i: int)
    requires
        0 <= j < chars.len(),
        chars[j] <= '\u{7f}',
    ensures
        0 <= i < encode_utf8(chars).len(),
        encode_utf8(chars)[i] == chars[j] as u8,
{
    let a = chars.subrange(0, j);
    let m = seq![chars[j]];
    let b = chars.subrange(j + 1, chars.len() as int);
    assert(chars =~= (a + m) + b);
    lemma_encode_concat(a + m, b);
    lemma_encode_concat(a, m);
    lemma_encode_ascii(chars[j]);
    encode_utf8(a).len() as int
}

/// When the last character is ASCII, the last byte of the encoding is its code.
pub proof fn lemma_ascii_last_char_is_last_byte(chars: Seq<char>)
    requires
        chars.len() > 0,
        chars.last() <= '\u{7f}',
    ensures
        encode_utf8(chars).len() > 0,
        encode_utf8(chars).last() == chars.last() as u8,
{
    let a = chars.drop_last();
    let m = seq![chars.last()];
    assert(chars =~= a + m);
    lemma_encode_concat(a, m);
    lemma_encode_ascii(chars.last());
}

/// A text whose encoding is one ASCII byte is that one character.
pub proof fn lemma_single_ascii_byte(chars: Seq<char>, c: char)
    requires
        c <= '\u{7f}',
        encode_utf8(chars) == seq![c as u8],
    ensures
        chars == seq![c],
{
    lemma_encode_ascii(c);
    encode_utf8_decode_utf8(chars);
    encode_utf8_decode_utf8(seq![c]);
}

/// Cutting an encoding at a character boundary cuts the text in two.
pub proof fn lemma_split_at_boundary(whole: Seq<char>, head: Seq<char>, tail: Seq<char>, k: int)
    requires
        is_char_boundary(encode_utf8(whole), k),
        0 <= k <= encode_utf8(whole).len(),
        encode_utf8(head) == encode_utf8(whole).subrange(0, k),
        encode_utf8(tail) == encode_utf8(whole).subrange(k, encode_utf8(whole).len() as int),
    ensures
        whole == head + tail,
{
    let bytes = encode_utf8(whole);
    encode_utf8_valid_utf8(whole);
    decode_utf8_split(bytes, k);
    encode_utf8_decode_utf8(whole);
    encode_utf8_decode_utf8(head);
    encode_utf8_decode_utf8(tail);
}

/// The position right after a leading ASCII byte is a character boundary.
pub proof fn lemma_boundary_after_ascii(bytes: Seq<u8>)
    requires
        valid_utf8(bytes),
        bytes.len() > 0,
        bytes[0] <= 0x7f,
    ensures
        is_char_boundary(bytes, 1),
{
    reveal_with_fuel(is_char_boundary, 2);
    assert(length_of_first_scalar(bytes) == 1);
    assert(valid_utf8(pop_first_scalar(bytes)));
}

/// A byte below 0x80 inside a valid encoding starts a character.
pub proof fn lemma_boundary_at_ascii(bytes: Seq<u8>, k: int)
    requires
        valid_utf8(bytes),
        0 <= k < bytes.len(),
        bytes[k] <= 0x7f,
    ensures
        is_char_boundary(bytes, k),
{
    is_char_boundary_iff_not_is_continuation_byte(bytes, k);
}

} // verus!
