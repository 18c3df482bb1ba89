use vstd::prelude::*;
use vstd::utf8::{encode_scalar, encode_utf8};

verus! {

/// `String::push` from std: appends `ch` at the end of `s`, so the characters of
/// `s` afterwards are its former characters followed by `ch`.
#[verifier::external_body]
pub(crate) fn push_char(s: &mut String, ch: char)
    ensures
        final(s)@ == old(s)@.push(ch),
{
    s.push(ch);
}

/// A string made of the single character `ch`.
pub fn char_string(ch: char) -> (s: String)
    ensures
        s@ == seq![ch],
{
    let mut s = String::new();
    push_char(&mut s, ch);
    assert(s@ =~= seq![ch]);
    s
}

/// Whether `c` has the Unicode `White_Space` property, the test that
/// `char::is_whitespace` and `str::trim` apply.
pub open spec fn is_white_space(c: char) -> bool {
    let v = c as u32;
    ||| 0x09 <= v <= 0x0d
    ||| v == 0x20
    ||| v == 0x85
    ||| v == 0xa0
    ||| v == 0x1680
    ||| 0x2000 <= v <= 0x200a
    ||| v == 0x2028
    ||| v == 0x2029
    ||| v == 0x202f
    ||| v == 0x205f
    ||| v == 0x3000
}

/// Whether every character of `s` is white space, so that trimming `s` leaves
/// nothing.
pub open spec fn is_blank(s: Seq<char>) -> bool {
    forall|i: int| 0 <= i < s.len() ==> is_white_space(#[trigger] s[i])
}

/// Decides `is_white_space`.
pub fn white_space(c: char) -> (r: bool)
    ensures
        r == is_white_space(c),
{
    let v = c as u32;
    (0x09 <= v && v <= 0x0d) || v == 0x20 || v == 0x85 || v == 0xa0 || v == 0x1680 || (0x2000
        <= v && v <= 0x200a) || v == 0x2028 || v == 0x2029 || v == 0x202f || v == 0x205f || v
        == 0x3000
}

/// Whether `s` is empty once surrounding white space is trimmed away.
pub fn blank(s: &str) -> (r: bool)
    ensures
        r == is_blank(s@),
{
    let ghost t = s@;
    let n = s.unicode_len();
    let mut i: usize = 0;
    let mut it = s.chars();
    loop
        invariant
            i <= n,
            n == t.len(),
            t == s@,
            vstd::std_specs::iter::IteratorSpec::remaining(&it) == t.skip(i as int),
            vstd::std_specs::iter::IteratorSpec::obeys_prophetic_iter_laws(&it),
            forall|j: int| 0 <= j < i ==> is_white_space(#[trigger] t[j]),
        decreases n - i,
    {
        match it.next() {
            None => {
                assert(t.skip(i as int).len() == 0);
                return true;
            },
            Some(c) => {
                assert(t.skip(i as int)[0] == t[i as int]);
                assert(t.skip(i as int).drop_first() =~= t.skip(i + 1));
                if !white_space(c) {
                    return false;
                }
                i = i + 1;
            },
        }
    }
}

/// `str::len` from std: the number of bytes of `s`, which is the length of
/// its UTF-8 encoding. No object is larger than `isize::MAX` bytes (as the
/// safety section of std's `slice::from_raw_parts` says), so neither is the
/// result.
#[verifier::external_body]
fn utf8_len(s: &str) -> (n: usize)
    ensures
        n == encode_utf8(s@).len(),
        n <= isize::MAX,
{
    s.len()
}

/// A text has no more characters than its UTF-8 encoding has bytes.
pub proof fn lemma_chars_at_most_bytes(s: Seq<char>)
    ensures
        s.len() <= encode_utf8(s).len(),
    decreases s.len(),
{
    if s.len() > 0 {
        lemma_chars_at_most_bytes(s.drop_first());
        assert(encode_scalar(s[0] as u32).len() >= 1);
    }
}

/// The number of characters of `s`, which is below `usize::MAX`.
pub fn char_count(s: &str) -> (n: usize)
    ensures
        n == s@.len(),
        n < usize::MAX,
{
    let _bytes = utf8_len(s);
    proof {
        lemma_chars_at_most_bytes(s@);
    }
    s.unicode_len()
}

} // verus!
