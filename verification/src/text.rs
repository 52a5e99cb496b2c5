//! Texts: comparing them, changing their case, and replacing within them.
//!
//! Texts are modelled as sequences of characters. The three functions that
//! are marked `external_body` call the standard library; their contracts are
//! not proved here. Everything else works on the characters or on the bytes
//! of a text and is proved.

use vstd::prelude::*;
use vstd::string::*;
use vstd::utf8::{decode_utf8, encode_utf8_decode_utf8};

verus! {

/// The text that `str::to_uppercase` returns for `text`.
pub uninterp spec fn uppercase(text: Seq<char>) -> Seq<char>;

/// The text that `str::to_lowercase` returns for `text`.
pub uninterp spec fn lowercase(text: Seq<char>) -> Seq<char>;

/// `text` with every match of the pattern `from` replaced by `to`, the
/// matches being found from left to right and never overlapping. An empty
/// pattern matches nowhere.
pub open spec fn replaced(text: Seq<char>, from: Seq<char>, to: Seq<char>) -> Seq<char>
    decreases text.len(),
{
    if from.len() == 0 || text.len() < from.len() {
        text
    } else if text.subrange(0, from.len() as int) == from {
        to + replaced(text.subrange(from.len() as int, text.len() as int), from, to)
    } else {
        seq![text[0]] + replaced(text.subrange(1, text.len() as int), from, to)
    }
}

/// Whether `prefix` is the beginning of `text`.
pub open spec fn has_prefix(text: Seq<char>, prefix: Seq<char>) -> bool {
    prefix.len() <= text.len() && text.subrange(0, prefix.len() as int) == prefix
}

/// Calls `str::to_uppercase`; the result is known only by its name.
#[verifier::external_body]
pub(crate) fn to_uppercase(text: &str) -> (r: String)
    ensures
        r@ == uppercase(text@),
{
    text.to_uppercase()
}

/// Calls `str::to_lowercase`; the result is known only by its name.
#[verifier::external_body]
pub(crate) fn to_lowercase(text: &str) -> (r: String)
    ensures
        r@ == lowercase(text@),
{
    text.to_lowercase()
}

/// Calls `String::push`, which appends one character.
#[verifier::external_body]
pub(crate) fn push_char(text: &mut String, c: char)
    ensures
        final(text)@ == old(text)@.push(c),
{
    text.push(c)
}

/// The concatenation of two texts.
pub fn join(left: &str, right: &str) -> (r: String)
    ensures
        r@ == left@ + right@,
{
    let mut out = String::from_str(left);
    out.append(right);
    out
}

/// Whether two texts hold the same characters. The texts are compared byte
/// by byte; two texts with the same bytes are the same text.
pub fn same_text(left: &str, right: &str) -> (r: bool)
    ensures
        r == (left@ == right@),
{
    let a = left.as_bytes();
    let b = right.as_bytes();
    proof {
        encode_utf8_decode_utf8(left@);
        encode_utf8_decode_utf8(right@);
    }
    if a.len() != b.len() {
        return false;
    }
    let mut i: usize = 0;
    while i < a.len()
        invariant
            i <= a.len(),
            a.len() == b.len(),
            a@ == left.spec_bytes(),
            b@ == right.spec_bytes(),
            decode_utf8(left.spec_bytes()) == left@,
            decode_utf8(right.spec_bytes()) == right@,
            forall|j: int| 0 <= j < i ==> a@[j] == b@[j],
        decreases a.len() - i,
    {
        if a[i] != b[i] {
            return false;
        }
        i += 1;
    }
    assert(a@ =~= b@);
    true
}

/// The characters of a text.
pub fn chars_of(text: &str) -> (r: Vec<char>)
    ensures
        r@ == text@,
{
    let mut out: Vec<char> = Vec::new();
    for c in it: text.chars()
        invariant
            it.seq() == text@,
            out@ == text@.take(it.index()),
    {
        out.push(c);
    }
    assert(text@.take(text@.len() as int) =~= text@);
    out
}

/// Whether a pattern stands in a text at a place.
pub fn matches_at(text: &Vec<char>, at: usize, pattern: &Vec<char>) -> (r: bool)
    requires
        at <= text.len(),
    ensures
        r == (at + pattern.len() <= text.len() && text@.subrange(
            at as int,
            at + pattern.len(),
        ) == pattern@),
{
    if pattern.len() > text.len() - at {
        return false;
    }
    let ghost stretch = text@.subrange(at as int, at + pattern.len());
    let mut i: usize = 0;
    while i < pattern.len()
        invariant
            i <= pattern.len(),
            at + pattern.len() <= text.len(),
            stretch == text@.subrange(at as int, at + pattern.len()),
            forall|j: int| 0 <= j < i ==> stretch[j] == pattern@[j],
        decreases pattern.len() - i,
    {
        if text[at + i] != pattern[i] {
            assert(stretch[i as int] != pattern@[i as int]);
            return false;
        }
        i += 1;
    }
    assert(stretch =~= pattern@);
    true
}

/// Whether a text begins with a prefix.
pub fn starts_with(text: &str, prefix: &str) -> (r: bool)
    ensures
        r == has_prefix(text@, prefix@),
{
    let chars = chars_of(text);
    let wanted = chars_of(prefix);
    matches_at(&chars, 0, &wanted)
}

/// A text that is shorter than the pattern holds no match and stays as it is.
proof fn lemma_short_text_stays(text: Seq<char>, from: Seq<char>, to: Seq<char>)
    ensures
        text.len() < from.len() ==> replaced(text, from, to) == text,
{
}

/// Replaces every match of a pattern in a text, from left to right.
pub fn replace(text: &str, from: &str, to: &str) -> (r: String)
    ensures
        r@ == replaced(text@, from@, to@),
{
    let chars = chars_of(text);
    let pattern = chars_of(from);
    if pattern.len() == 0 {
        return String::from_str(text);
    }
    let mut out = String::new();
    let mut i: usize = 0;
    assert(text@.skip(0) =~= text@);
    assert(out@ + replaced(text@.skip(0), from@, to@) =~= replaced(text@, from@, to@));
    while i < chars.len()
        invariant
            i <= chars.len(),
            chars@ == text@,
            pattern@ == from@,
            from@.len() > 0,
            replaced(text@, from@, to@) == out@ + replaced(text@.skip(i as int), from@, to@),
        decreases chars.len() - i,
    {
        let ghost rest = text@.skip(i as int);
        let ghost before = out@;
        if matches_at(&chars, i, &pattern) {
            proof {
                assert(rest.subrange(0, from@.len() as int) =~= text@.subrange(
                    i as int,
                    i + from@.len(),
                ));
                assert(rest.subrange(from@.len() as int, rest.len() as int) =~= text@.skip(
                    i + from@.len(),
                ));
            }
            out.append(to);
            i += pattern.len();
            assert(out@ + replaced(text@.skip(i as int), from@, to@) =~= before + (to@ + replaced(
                text@.skip(i as int),
                from@,
                to@,
            )));
        } else {
            proof {
                if rest.len() >= from@.len() {
                    assert(rest.subrange(0, from@.len() as int) =~= text@.subrange(
                        i as int,
                        i + from@.len(),
                    ));
                }
                assert(rest.subrange(1, rest.len() as int) =~= text@.skip(i + 1));
                lemma_short_text_stays(rest, from@, to@);
                lemma_short_text_stays(text@.skip(i + 1), from@, to@);
                assert(rest =~= seq![rest[0]] + text@.skip(i + 1));
                assert(replaced(rest, from@, to@) == seq![rest[0]] + replaced(
                    text@.skip(i + 1),
                    from@,
                    to@,
                ));
            }
            push_char(&mut out, chars[i]);
            i += 1;
            assert(out@ + replaced(text@.skip(i as int), from@, to@) =~= before + (seq![rest[0]]
                + replaced(text@.skip(i as int), from@, to@)));
        }
    }
    assert(text@.skip(text@.len() as int) =~= Seq::<char>::empty());
    assert(out@ + Seq::<char>::empty() =~= out@);
    out
}

} // verus!
