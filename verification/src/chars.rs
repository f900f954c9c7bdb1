//! Character and string primitives of the standard library that the rest of
//! the crate builds on.
//!
//! Every executable function in this file is trusted: its body is one call
//! into `std`, and its contract restates what the standard library
//! documents. For the ASCII range the contracts spell the result out; beyond
//! it they give the result a name, since the Unicode tables behind it are
//! not written down here.

use vstd::prelude::*;

verus! {

/// What `char::is_alphabetic` answers for a character beyond ASCII.
pub uninterp spec fn unicode_alphabetic(c: char) -> bool;

/// What `char::is_alphanumeric` answers for a character beyond ASCII.
pub uninterp spec fn unicode_alphanumeric(c: char) -> bool;

/// What `char::is_whitespace` answers for a character beyond ASCII.
pub uninterp spec fn unicode_whitespace(c: char) -> bool;

/// The text that `str::to_lowercase` returns for a text that holds a
/// character beyond ASCII.
pub uninterp spec fn text_to_lowercase(s: Seq<char>) -> Seq<char>;

/// The text that `str::to_uppercase` returns for a text that holds a
/// character beyond ASCII.
pub uninterp spec fn text_to_uppercase(s: Seq<char>) -> Seq<char>;

/// Whether a character is an ASCII character.
pub open spec fn is_ascii_char(c: char) -> bool {
    c <= '\x7f'
}

/// Whether a character is one of `A` to `Z`.
pub open spec fn is_ascii_upper(c: char) -> bool {
    'A' <= c && c <= 'Z'
}

/// Whether a character is one of `a` to `z`.
pub open spec fn is_ascii_lower(c: char) -> bool {
    'a' <= c && c <= 'z'
}

/// Whether a character is one of `0` to `9`.
pub open spec fn is_ascii_digit(c: char) -> bool {
    '0' <= c && c <= '9'
}

/// Whether a character is an ASCII letter or digit.
pub open spec fn is_ascii_alnum(c: char) -> bool {
    is_ascii_upper(c) || is_ascii_lower(c) || is_ascii_digit(c)
}

/// The lowercase partner of an ASCII capital letter.
pub open spec fn ascii_lower_of(c: char) -> char
    recommends
        is_ascii_upper(c),
{
    ((c as u8) + 32) as char
}

/// The capital partner of an ASCII lowercase letter.
pub open spec fn ascii_upper_of(c: char) -> char
    recommends
        is_ascii_lower(c),
{
    ((c as u8) - 32) as char
}

/// `c` in lowercase, as far as ASCII goes: the lowercase partner of one of
/// `A` to `Z`, any other character as it is.
pub open spec fn lowered(c: char) -> char {
    if is_ascii_upper(c) {
        ascii_lower_of(c)
    } else {
        c
    }
}

/// `c` in uppercase, as far as ASCII goes: the capital partner of one of `a`
/// to `z`, any other character as it is.
pub open spec fn raised(c: char) -> char {
    if is_ascii_lower(c) {
        ascii_upper_of(c)
    } else {
        c
    }
}

/// Whether every character of the text is an ASCII character.
pub open spec fn is_ascii_text(s: Seq<char>) -> bool {
    forall|i: int| 0 <= i < s.len() ==> is_ascii_char(#[trigger] s[i])
}

/// The text in lowercase, in the sense of `str::to_lowercase`: of a text of
/// ASCII characters, each of `A` to `Z` lowered and every other character
/// as it is.
pub open spec fn lowercase_of(s: Seq<char>) -> Seq<char> {
    if is_ascii_text(s) {
        Seq::new(s.len(), |i: int| lowered(s[i]))
    } else {
        text_to_lowercase(s)
    }
}

/// The text in uppercase, in the sense of `str::to_uppercase`: of a text of
/// ASCII characters, each of `a` to `z` raised and every other character as
/// it is.
pub open spec fn uppercase_of(s: Seq<char>) -> Seq<char> {
    if is_ascii_text(s) {
        Seq::new(s.len(), |i: int| raised(s[i]))
    } else {
        text_to_uppercase(s)
    }
}

/// Whether the text holds ASCII characters only and none of `A` to `Z`.
pub open spec fn is_plain(s: Seq<char>) -> bool {
    forall|i: int| 0 <= i < s.len() ==> is_ascii_char(#[trigger] s[i]) && !is_ascii_upper(s[i])
}

/// A text of ASCII characters without a capital is its own lowercase form.
pub proof fn lemma_lowercase_of_plain_text(s: Seq<char>)
    requires
        is_plain(s),
    ensures
        lowercase_of(s) == s,
{
    assert(is_ascii_text(s));
    assert(lowercase_of(s) =~= s);
}

/// Whether a character is a letter, in the sense of `char::is_alphabetic`.
pub open spec fn is_alphabetic(c: char) -> bool {
    if is_ascii_char(c) {
        is_ascii_upper(c) || is_ascii_lower(c)
    } else {
        unicode_alphabetic(c)
    }
}

/// Whether a character is a letter or a digit, in the sense of
/// `char::is_alphanumeric`.
pub open spec fn is_alnum(c: char) -> bool {
    if is_ascii_char(c) {
        is_ascii_alnum(c)
    } else {
        unicode_alphanumeric(c)
    }
}

/// White space in the sense of `char::is_whitespace`: in ASCII the space and
/// the control characters U+0009 to U+000D.
pub open spec fn is_white(c: char) -> bool {
    if is_ascii_char(c) {
        c == ' ' || ('\x09' <= c && c <= '\x0d')
    } else {
        unicode_whitespace(c)
    }
}

/// `char::is_alphabetic`: the Unicode property `Alphabetic`, which in ASCII
/// is the letters.
#[verifier::external_body]
pub(crate) fn char_is_alphabetic(c: char) -> (r: bool)
    ensures
        r == is_alphabetic(c),
        !is_ascii_char(c) ==> r == unicode_alphabetic(c),
{
    c.is_alphabetic()
}

/// `char::is_alphanumeric`: alphabetic or numeric, which in ASCII is the
/// letters and the digits.
#[verifier::external_body]
pub(crate) fn char_is_alphanumeric(c: char) -> (r: bool)
    ensures
        r == is_alnum(c),
        !is_ascii_char(c) ==> r == unicode_alphanumeric(c),
{
    c.is_alphanumeric()
}

/// `char::is_whitespace`: the Unicode property `White_Space`.
#[verifier::external_body]
pub(crate) fn char_is_whitespace(c: char) -> (r: bool)
    ensures
        r == is_white(c),
        !is_ascii_char(c) ==> r == unicode_whitespace(c),
{
    c.is_whitespace()
}

/// `str::to_lowercase`: the lowercase equivalent of the text, which is a
/// function of the text alone. The standard library documents it as
/// lowering the ASCII characters as `str::to_ascii_lowercase` does, and the
/// others besides; so of a text of ASCII characters alone each of `A` to `Z`
/// is lowered and nothing else changes.
#[verifier::external_body]
pub(crate) fn str_to_lowercase(s: &str) -> (r: String)
    ensures
        r@ == lowercase_of(s@),
        !is_ascii_text(s@) ==> r@ == text_to_lowercase(s@),
{
    s.to_lowercase()
}

/// `str::to_uppercase`: the uppercase equivalent of the text, which is a
/// function of the text alone. The standard library documents it as raising
/// the ASCII characters as `str::to_ascii_uppercase` does, and the others
/// besides; so of a text of ASCII characters alone each of `a` to `z` is
/// raised and nothing else changes.
#[verifier::external_body]
pub(crate) fn str_to_uppercase(s: &str) -> (r: String)
    ensures
        r@ == uppercase_of(s@),
        !is_ascii_text(s@) ==> r@ == text_to_uppercase(s@),
{
    s.to_uppercase()
}

/// `String::push` appends one character.
pub assume_specification[ std::string::String::push ](s: &mut std::string::String, c: char)
    ensures
        final(s)@ == old(s)@.push(c),
;

} // verus!
