//! Identifier formats and the validation contract of data types.
//!
//! Two formats are recognised. A URI identifier is a scheme, a colon and a
//! non-empty tail that is not looked into. A legacy identifier is 21 or 22
//! characters of the base58 alphabet. Both are judged on the whole text, never
//! on a part of it, and neither check looks beyond the shape: a text of the
//! right shape that names nothing is accepted all the same.

use crate::error::ValidationError;
use vstd::prelude::*;
use vstd::std_specs::iter::IteratorSpec;

verus! {

broadcast use {vstd::string::axiom_spec_iter, vstd::string::next_postcondition};

/// The characters of a scheme: ASCII letters and digits, `+`, `-` and `.`.
pub open spec fn is_scheme_char(c: char) -> bool {
    ||| 'a' <= c <= 'z'
    ||| 'A' <= c <= 'Z'
    ||| '0' <= c <= '9'
    ||| c == '+'
    ||| c == '-'
    ||| c == '.'
}

/// The base58 alphabet: the digits without `0`, the upper case letters
/// without `I` and `O`, the lower case letters without `l`.
pub open spec fn is_base58_char(c: char) -> bool {
    ||| '1' <= c <= '9'
    ||| 'A' <= c <= 'H'
    ||| 'J' <= c <= 'N'
    ||| 'P' <= c <= 'Z'
    ||| 'a' <= c <= 'k'
    ||| 'm' <= c <= 'z'
}

/// `text` parts at `colon` into a scheme, a colon and a tail: the colon stands
/// there, at least one character stands before it and all of them are scheme
/// characters, and at least one character follows.
pub open spec fn is_uri_split(text: Seq<char>, colon: int) -> bool {
    &&& 0 < colon < text.len() - 1
    &&& text[colon] == ':'
    &&& forall|i: int| 0 <= i < colon ==> is_scheme_char(#[trigger] text[i])
}

/// The URI format: the whole of `text` is a non-empty scheme, a colon and a
/// non-empty tail of any characters.
pub open spec fn is_uri_text(text: Seq<char>) -> bool {
    exists|colon: int| is_uri_split(text, colon)
}

/// The legacy format: the whole of `text` is 21 or 22 characters, each of the
/// base58 alphabet.
pub open spec fn is_legacy_text(text: Seq<char>) -> bool {
    &&& (text.len() == 21 || text.len() == 22)
    &&& forall|i: int| 0 <= i < text.len() ==> is_base58_char(#[trigger] text[i])
}

/// Tells whether `c` may stand in a scheme.
fn scheme_char(c: char) -> (r: bool)
    ensures
        r == is_scheme_char(c),
{
    ('a' <= c && c <= 'z') || ('A' <= c && c <= 'Z') || ('0' <= c && c <= '9') || c == '+'
        || c == '-' || c == '.'
}

/// Tells whether `c` belongs to the base58 alphabet.
fn base58_char(c: char) -> (r: bool)
    ensures
        r == is_base58_char(c),
{
    ('1' <= c && c <= '9') || ('A' <= c && c <= 'H') || ('J' <= c && c <= 'N') || ('P' <= c && c
        <= 'Z') || ('a' <= c && c <= 'k') || ('m' <= c && c <= 'z')
}

/// Tells whether the whole of `id` has the URI format.
///
/// The text is read once, from the left, up to the character after its first
/// colon.
pub fn is_uri_identifier(id: &str) -> (r: bool)
    ensures
        r == is_uri_text(id@),
{
    let mut rest = id.chars();
    let mut in_scheme = false;
    let ghost mut at: int = 0;
    loop
        invariant
            0 <= at <= id@.len(),
            rest.remaining() == id@.skip(at),
            rest.obeys_prophetic_iter_laws(),
            in_scheme == (at > 0),
            forall|i: int| 0 <= i < at ==> is_scheme_char(#[trigger] id@[i]),
        decreases id@.len() - at,
    {
        match rest.next() {
            None => {
                assert forall|colon: int| !is_uri_split(id@, colon) by {
                    if 0 <= colon < id@.len() {
                        assert(is_scheme_char(id@[colon]));
                    }
                }
                return false;
            },
            Some(c) => {
                assert(c == id@[at]);
                if c == ':' {
                    let tail = rest.next();
                    assert forall|colon: int| colon != at implies !is_uri_split(id@, colon) by {
                        if 0 <= colon < at {
                            assert(is_scheme_char(id@[colon]));
                        } else if at < colon < id@.len() {
                            assert(!is_scheme_char(id@[at]));
                        }
                    }
                    assert(is_uri_split(id@, at) == (in_scheme && tail is Some));
                    return in_scheme && tail.is_some();
                }
                if !scheme_char(c) {
                    assert forall|colon: int| !is_uri_split(id@, colon) by {
                        if 0 <= colon < at {
                            assert(is_scheme_char(id@[colon]));
                        }
                    }
                    return false;
                }
                in_scheme = true;
                proof {
                    at = at + 1;
                }
            },
        }
    }
}

/// Tells whether the whole of `id` has the legacy format.
///
/// At most 23 characters are read, however long the text is.
pub fn is_legacy_identifier(id: &str) -> (r: bool)
    ensures
        r == is_legacy_text(id@),
{
    let mut rest = id.chars();
    let mut count: u8 = 0;
    loop
        invariant
            count <= 22,
            count <= id@.len(),
            rest.remaining() == id@.skip(count as int),
            rest.obeys_prophetic_iter_laws(),
            forall|i: int| 0 <= i < count ==> is_base58_char(#[trigger] id@[i]),
        decreases id@.len() - count,
    {
        match rest.next() {
            None => {
                return count >= 21;
            },
            Some(c) => {
                assert(c == id@[count as int]);
                if count == 22 || !base58_char(c) {
                    return false;
                }
                count = count + 1;
            },
        }
    }
}

/// A data type that can say of its own value whether it is well formed, for
/// values that came from outside the program.
pub trait Validatable {
    /// Looks at the value and reports success, or the failure with what is
    /// known of it.
    ///
    /// A type that takes this method as it stands is never looked into: the
    /// method as given here succeeds on every value. Only a type that writes
    /// the method itself checks anything, so that a value is `Validatable`
    /// says nothing of whether it was checked.
    fn validate(&self) -> (outcome: Result<(), ValidationError>)
        default_ensures
            outcome is Ok,
    {
        Ok(())
    }
}

/// A text without a colon is no URI identifier.
pub proof fn lemma_uri_needs_colon(text: Seq<char>)
    requires
        !text.contains(':'),
    ensures
        !is_uri_text(text),
{
    assert forall|colon: int| !is_uri_split(text, colon) by {
        if 0 <= colon < text.len() {
            assert(text[colon] != ':');
        }
    }
}

/// A non-empty scheme, a colon and a non-empty tail make a URI identifier,
/// whatever characters the tail holds.
pub proof fn lemma_scheme_colon_tail_is_uri(scheme: Seq<char>, tail: Seq<char>)
    requires
        scheme.len() > 0,
        forall|i: int| 0 <= i < scheme.len() ==> is_scheme_char(#[trigger] scheme[i]),
        tail.len() > 0,
    ensures
        is_uri_text(scheme + seq![':'] + tail),
{
    let text = scheme + seq![':'] + tail;
    let colon = scheme.len() as int;
    assert(text[colon] == ':');
    assert forall|i: int| 0 <= i < colon implies is_scheme_char(#[trigger] text[i]) by {
        assert(text[i] == scheme[i]);
    }
    assert(is_uri_split(text, colon));
}

/// A URI identifier parts in one way only, at its first colon: what stands
/// before it is the scheme, and what follows is the tail, further colons
/// included.
pub proof fn lemma_uri_splits_at_first_colon(text: Seq<char>, colon: int)
    requires
        is_uri_split(text, colon),
    ensures
        text.index_of_first(':') == Some(colon),
        forall|other: int| is_uri_split(text, other) ==> other == colon,
        text == text.take(colon) + seq![':'] + text.skip(colon + 1),
{
    text.index_of_first_ensures(':');
    let first = text.index_of_first(':').unwrap();
    if first < colon {
        assert(is_scheme_char(text[first]));
    }
    assert forall|other: int| is_uri_split(text, other) implies other == colon by {
        if other < colon {
            assert(is_scheme_char(text[other]));
        } else if colon < other {
            assert(is_scheme_char(text[colon]));
        }
    }
    assert(text =~= text.take(colon) + seq![':'] + text.skip(colon + 1));
}

/// A text that begins with a colon has no scheme, and is no URI identifier.
pub proof fn lemma_uri_needs_scheme(text: Seq<char>)
    requires
        text.len() > 0,
        text[0] == ':',
    ensures
        !is_uri_text(text),
{
    assert forall|colon: int| !is_uri_split(text, colon) by {
        if 0 < colon {
            assert(!is_scheme_char(text[0]));
        }
    }
}

/// A text of any length but 21 and 22 is no legacy identifier.
pub proof fn lemma_legacy_needs_length(text: Seq<char>)
    requires
        text.len() != 21,
        text.len() != 22,
    ensures
        !is_legacy_text(text),
{
}

/// A text of 21 or 22 characters, all of the base58 alphabet, is a legacy
/// identifier.
pub proof fn lemma_base58_of_length_is_legacy(text: Seq<char>)
    requires
        text.len() == 21 || text.len() == 22,
        forall|i: int| 0 <= i < text.len() ==> is_base58_char(#[trigger] text[i]),
    ensures
        is_legacy_text(text),
{
}

/// A text that holds one of `0`, `O`, `I` and `l` anywhere is no legacy
/// identifier, whatever its length.
pub proof fn lemma_legacy_rejects_ambiguous(text: Seq<char>, at: int)
    requires
        0 <= at < text.len(),
        text[at] == '0' || text[at] == 'O' || text[at] == 'I' || text[at] == 'l',
    ensures
        !is_legacy_text(text),
{
    assert(!is_base58_char(text[at]));
}

/// Asking again changes nothing: any two answers that `is_uri_identifier` can
/// give on one text are the same answer.
pub proof fn lemma_uri_answer_is_stable(id: &str, first: bool, second: bool)
    requires
        call_ensures(is_uri_identifier, (id,), first),
        call_ensures(is_uri_identifier, (id,), second),
    ensures
        first == second,
{
}

/// Asking again changes nothing: any two answers that `is_legacy_identifier`
/// can give on one text are the same answer.
pub proof fn lemma_legacy_answer_is_stable(id: &str, first: bool, second: bool)
    requires
        call_ensures(is_legacy_identifier, (id,), first),
        call_ensures(is_legacy_identifier, (id,), second),
    ensures
        first == second,
{
}

} // verus!
