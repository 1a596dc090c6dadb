//! What the text tests and the reading of headers tell of their arguments.

use vstd::prelude::*;

use crate::header::{header_or, is_plain, text_of};
use crate::text::{
    ascii_lower, chars_of, contains, eq_ignore_ascii_case, occurs_at, occurs_in,
    same_ignoring_case, starts_with,
};

verus! {

/// One character is the other, or the two are the upper and the lower case of one ASCII letter.
pub open spec fn same_letter(a: char, b: char) -> bool {
    ||| a == b
    ||| 'A' <= a <= 'Z' && b as int == a as int + 32
    ||| 'A' <= b <= 'Z' && a as int == b as int + 32
}

/// The text has this needle in it: something stands before it and something behind, if only
/// nothing.
pub open spec fn holds(text: Seq<char>, needle: Seq<char>) -> bool {
    exists|before: Seq<char>, behind: Seq<char>| text == #[trigger] (before + needle + behind)
}

/// The text is this prefix and something behind it, if only nothing.
pub open spec fn begins(text: Seq<char>, prefix: Seq<char>) -> bool {
    exists|behind: Seq<char>| text == #[trigger] (prefix + behind)
}

/// The bytes can be shown as text.
pub open spec fn printable(bytes: Seq<u8>) -> bool {
    forall|i: int| 0 <= i < bytes.len() ==> (#[trigger] bytes[i] == 9 || 32 <= bytes[i] <= 126)
}

/// The bytes spell the word, each in upper or lower case.
pub open spec fn spells(bytes: Seq<u8>, word: Seq<char>) -> bool {
    &&& bytes.len() == word.len()
    &&& forall|i: int| 0 <= i < bytes.len() ==> same_letter(#[trigger] bytes[i] as char, word[i])
}

/// A text is found where it stands, and nowhere else.
pub proof fn law_contains(text: &str, needle: &str, found: bool)
    requires
        call_ensures(contains, (text, needle), found),
    ensures
        found <==> holds(text@, needle@),
{
    lemma_occurs_in(text@, needle@);
}

pub(crate) proof fn lemma_occurs_in(text: Seq<char>, needle: Seq<char>)
    ensures
        occurs_in(text, needle) <==> holds(text, needle),
{
    if occurs_in(text, needle) {
        let at = choose|at: int| occurs_at(text, needle, at);
        let before = text.take(at);
        let behind = text.skip(at + needle.len());
        assert(text.subrange(at, at + needle.len()) == needle);
        assert(text =~= before + needle + behind) by {
            assert forall|i: int| 0 <= i < text.len() implies text[i] == (before + needle
                + behind)[i] by {
                if at <= i < at + needle.len() {
                    assert(text.subrange(at, at + needle.len())[i - at] == text[i]);
                }
            }
        }
    }
    if holds(text, needle) {
        let (before, behind) = choose|before: Seq<char>, behind: Seq<char>|
            text == #[trigger] (before + needle + behind);
        let at = before.len() as int;
        assert(text.subrange(at, at + needle.len()) =~= needle);
        assert(occurs_at(text, needle, at));
    }
}

/// A prefix is found exactly where the text begins with it.
pub proof fn law_starts_with(text: &str, prefix: &str, found: bool)
    requires
        call_ensures(starts_with, (text, prefix), found),
    ensures
        found <==> begins(text@, prefix@),
{
    lemma_begins(text@, prefix@);
}

pub(crate) proof fn lemma_begins(text: Seq<char>, prefix: Seq<char>)
    ensures
        occurs_at(text, prefix, 0) <==> begins(text, prefix),
{
    if occurs_at(text, prefix, 0) {
        let behind = text.skip(prefix.len() as int);
        assert(text =~= prefix + behind) by {
            assert forall|i: int| 0 <= i < prefix.len() implies text[i] == prefix[i] by {
                assert(text.subrange(0, prefix.len() as int)[i] == text[i]);
            }
        }
    }
    if begins(text, prefix) {
        assert(text.subrange(0, prefix.len() as int) =~= prefix);
    }
}

/// Texts are the same up to case exactly where they are as long as each other and have the same
/// letters.
pub proof fn law_eq_ignore_ascii_case(a: &str, b: &str, same: bool)
    requires
        call_ensures(eq_ignore_ascii_case, (a, b), same),
    ensures
        same <==> a@.len() == b@.len() && forall|i: int|
            0 <= i < a@.len() ==> same_letter(#[trigger] a@[i], b@[i]),
{
    lemma_same_letters(a@, b@);
}

pub(crate) proof fn lemma_same_letters(a: Seq<char>, b: Seq<char>)
    ensures
        same_ignoring_case(a, b) <==> a.len() == b.len() && forall|i: int|
            0 <= i < a.len() ==> same_letter(#[trigger] a[i], b[i]),
{
    if a.len() == b.len() {
        assert forall|i: int| 0 <= i < a.len() implies ((ascii_lower(#[trigger] a[i])
            == ascii_lower(b[i])) <==> same_letter(a[i], b[i])) by {
            lemma_same_letter(a[i], b[i]);
        }
    }
}

proof fn lemma_same_letter(a: char, b: char)
    ensures
        ascii_lower(a) == ascii_lower(b) <==> same_letter(a, b),
{
}

/// The characters of a text are all there, in their order.
pub proof fn law_chars_of(text: &str, chars: Vec<char>)
    requires
        call_ensures(chars_of, (text,), chars),
    ensures
        chars@.len() == text@.len(),
        forall|i: int| 0 <= i < text@.len() ==> chars@[i] == #[trigger] text@[i],
{
}

/// A header that is there and can be shown is read byte for byte; for any other the default
/// stands in.
pub proof fn law_header_or(value: &Option<Vec<u8>>, default: &str, text: String)
    requires
        call_ensures(header_or, (value, default), text),
    ensures
        *value is None ==> text@ == default@,
        *value matches Some(bytes) ==> if printable(bytes@) {
            text@.len() == bytes@.len() && forall|i: int|
                0 <= i < bytes@.len() ==> #[trigger] text@[i] as int == bytes@[i]
        } else {
            text@ == default@
        },
{
    if let Some(bytes) = *value {
        lemma_text_of(bytes@);
    }
}

pub(crate) proof fn lemma_text_of(bytes: Seq<u8>)
    ensures
        text_of(bytes) is Some <==> printable(bytes),
        text_of(bytes) matches Some(text) ==> text.len() == bytes.len() && forall|i: int|
            0 <= i < bytes.len() ==> #[trigger] text[i] as int == bytes[i],
{
    if printable(bytes) {
        assert forall|i: int| 0 <= i < bytes.len() implies is_plain(
            #[trigger] bytes[i],
        ) by {
            assert(bytes[i] == 9 || 32 <= bytes[i] <= 126);
        }
    }
}

/// A header names a word up to case exactly where its bytes spell it.
pub(crate) proof fn lemma_spelled(bytes: Seq<u8>, word: Seq<char>)
    requires
        forall|i: int| 0 <= i < word.len() ==> 'A' <= #[trigger] word[i] <= 'z',
    ensures
        spells(bytes, word) <==> text_of(bytes) is Some && same_ignoring_case(
            text_of(bytes)->0,
            word,
        ),
{
    lemma_text_of(bytes);
    if spells(bytes, word) {
        assert forall|i: int| 0 <= i < bytes.len() implies (#[trigger] bytes[i] == 9 || 32
            <= bytes[i] <= 126) by {
            assert(same_letter(bytes[i] as char, word[i]));
        }
    }
    if let Some(text) = text_of(bytes) {
        lemma_same_letters(text, word);
        if same_ignoring_case(text, word) {
            assert forall|i: int| 0 <= i < bytes.len() implies same_letter(
                #[trigger] bytes[i] as char,
                word[i],
            ) by {
                assert(same_letter(text[i], word[i]));
            }
        }
        if spells(bytes, word) {
            assert forall|i: int| 0 <= i < text.len() implies same_letter(
                #[trigger] text[i],
                word[i],
            ) by {
                assert(same_letter(bytes[i] as char, word[i]));
            }
        }
    }
}

} // verus!
