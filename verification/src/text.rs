//! Text utilities: English inflection, taken from the `inflector` crate, and
//! ASCII lower-casing. Everything else in the crate reaches `inflector`
//! through the contracts that are stated here.

use inflector::string::pluralize::to_plural;
use vstd::prelude::*;
use vstd::string::*;

verus! {

/// The word that `inflector::string::pluralize::to_plural` returns for `word`.
///
/// The inflection rules are a long table of suffix patterns; contracts refer
/// to their outcome by this name and do not restate them.
pub uninterp spec fn plural_form(word: Seq<char>) -> Seq<char>;

/// Whether `inflector::cases::pascalcase::is_pascal_case` accepts `word`, that
/// is, whether converting `word` to capitalized-word style leaves it unchanged.
pub uninterp spec fn pascal_cased(word: Seq<char>) -> bool;

/// `inflector::string::pluralize::to_plural` is a function of its argument
/// alone and returns on every input; its result is `plural_form` of the input.
pub assume_specification[ inflector::string::pluralize::to_plural ](
    non_plural_string: &str,
) -> (plural: String)
    ensures
        plural@ == plural_form(non_plural_string@),
;

/// `inflector::cases::pascalcase::is_pascal_case` is a function of its
/// argument alone and returns on every input; its result is `pascal_cased` of
/// the input.
pub assume_specification[ inflector::cases::pascalcase::is_pascal_case ](
    test_string: &str,
) -> (accepted: bool)
    ensures
        accepted == pascal_cased(test_string@),
;

/// `String::push` appends one character to the end of the string.
#[verifier::external_body]
pub(crate) fn push_char(s: &mut String, c: char)
    ensures
        final(s)@ == old(s)@.push(c),
{
    s.push(c)
}

/// The ASCII lower-case equivalent of a character: `'A'..='Z'` map to
/// `'a'..='z'`, every other character to itself.
pub open spec fn lower_char(c: char) -> char {
    if 'A' <= c && c <= 'Z' {
        ((c as u8) + 32) as char
    } else {
        c
    }
}

/// A text with every character replaced by its ASCII lower-case equivalent.
pub open spec fn ascii_lower(s: Seq<char>) -> Seq<char> {
    Seq::new(s.len(), |i: int| lower_char(s[i]))
}

/// Lower-cases one character.
pub fn to_lower_char(c: char) -> (r: char)
    ensures
        r == lower_char(c),
{
    if 'A' <= c && c <= 'Z' {
        let b: u8 = c as u8;
        (b + 32) as char
    } else {
        c
    }
}

/// Lower-cases the ASCII letters of `s` and keeps every other character.
pub fn to_ascii_lower(s: &str) -> (r: String)
    ensures
        r@ == ascii_lower(s@),
{
    let mut out = String::new();
    for c in it: s.chars()
        invariant
            it.seq() == s@,
            out@ == ascii_lower(s@.take(it.index())),
    {
        push_char(&mut out, to_lower_char(c));
    }
    out
}

/// The name under which the objects of a kind are collected: the plural of
/// the lower-cased kind.
pub open spec fn collection_name(kind: Seq<char>) -> Seq<char> {
    plural_form(ascii_lower(kind))
}

/// The name under which the objects of `kind` are collected, as `foos` for
/// `Foo`.
pub fn pluralize_kind(kind: &str) -> (name: String)
    ensures
        name@ == collection_name(kind@),
{
    let lowered = to_ascii_lower(kind);
    to_plural(lowered.as_str())
}

/// Whether two texts hold the same characters.
pub fn same_text(a: &str, b: &str) -> (r: bool)
    ensures
        r == (a@ == b@),
{
    String::from_str(a) == String::from_str(b)
}

} // verus!
