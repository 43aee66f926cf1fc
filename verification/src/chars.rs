//! Character classes used by the password policy and by input validation.

use vstd::prelude::*;

verus! {

/// What `char::is_uppercase` answers for a character outside ASCII.
pub uninterp spec fn unicode_uppercase(c: char) -> bool;

/// What `char::is_lowercase` answers for a character outside ASCII.
pub uninterp spec fn unicode_lowercase(c: char) -> bool;

/// What `char::is_numeric` answers for a character outside ASCII.
pub uninterp spec fn unicode_numeric(c: char) -> bool;

/// The classes of characters a password policy can ask for.
#[derive(Clone, Copy, Debug, PartialEq, Eq, Structural)]
pub enum CharClass {
    Uppercase,
    Lowercase,
    Number,
    Special,
}

/// A character of ASCII.
pub open spec fn is_ascii_char(c: char) -> bool {
    c <= '\u{7f}'
}

/// An uppercase letter: `A` to `Z` within ASCII, Unicode's Uppercase property beyond.
pub open spec fn is_uppercase_char(c: char) -> bool {
    if is_ascii_char(c) {
        'A' <= c && c <= 'Z'
    } else {
        unicode_uppercase(c)
    }
}

/// A lowercase letter: `a` to `z` within ASCII, Unicode's Lowercase property beyond.
pub open spec fn is_lowercase_char(c: char) -> bool {
    if is_ascii_char(c) {
        'a' <= c && c <= 'z'
    } else {
        unicode_lowercase(c)
    }
}

/// A number: `0` to `9` within ASCII, Unicode's numeric categories beyond.
pub open spec fn is_numeric_char(c: char) -> bool {
    if is_ascii_char(c) {
        '0' <= c && c <= '9'
    } else {
        unicode_numeric(c)
    }
}

/// One of the punctuation characters that count as special in a password.
pub open spec fn is_special_char(c: char) -> bool {
    ||| c == '!' || c == '@' || c == '#' || c == '$' || c == '%' || c == '^' || c == '&'
    ||| c == '*' || c == '(' || c == ')' || c == '_' || c == '+' || c == '-' || c == '='
    ||| c == '[' || c == ']' || c == '{' || c == '}' || c == '|' || c == ';' || c == '\''
    ||| c == ':' || c == '"' || c == ',' || c == '.' || c == '/' || c == '<' || c == '>'
    ||| c == '?'
}

/// A control character: U+0000 to U+001F and U+007F to U+009F.
pub open spec fn is_control_char(c: char) -> bool {
    c <= '\u{1f}' || ('\u{7f}' <= c && c <= '\u{9f}')
}

/// Membership of a character in a class.
pub open spec fn in_class(class: CharClass, c: char) -> bool {
    match class {
        CharClass::Uppercase => is_uppercase_char(c),
        CharClass::Lowercase => is_lowercase_char(c),
        CharClass::Number => is_numeric_char(c),
        CharClass::Special => is_special_char(c),
    }
}

/// Some character of `s` belongs to `class`.
pub open spec fn has_class(s: Seq<char>, class: CharClass) -> bool {
    exists|i: int| 0 <= i < s.len() && in_class(class, #[trigger] s[i])
}

/// `char::is_uppercase`. Within ASCII the uppercase characters are the letters `A`
/// to `Z`; beyond it the answer is that of the Unicode tables std carries.
#[verifier::external_body]
fn std_is_uppercase(c: char) -> (yes: bool)
    ensures
        yes == (if c <= '\u{7f}' {
            'A' <= c && c <= 'Z'
        } else {
            unicode_uppercase(c)
        }),
{
    c.is_uppercase()
}

/// `char::is_lowercase`. Within ASCII the lowercase characters are the letters `a`
/// to `z`; beyond it the answer is that of the Unicode tables std carries.
#[verifier::external_body]
fn std_is_lowercase(c: char) -> (yes: bool)
    ensures
        yes == (if c <= '\u{7f}' {
            'a' <= c && c <= 'z'
        } else {
            unicode_lowercase(c)
        }),
{
    c.is_lowercase()
}

/// `char::is_numeric`. Within ASCII the numeric characters are the digits `0` to
/// `9`; beyond it the answer is that of the Unicode tables std carries.
#[verifier::external_body]
fn std_is_numeric(c: char) -> (yes: bool)
    ensures
        yes == (if c <= '\u{7f}' {
            '0' <= c && c <= '9'
        } else {
            unicode_numeric(c)
        }),
{
    c.is_numeric()
}

/// Whether `c` counts as a special character.
pub fn is_special(c: char) -> (yes: bool)
    ensures
        yes == is_special_char(c),
{
    c == '!' || c == '@' || c == '#' || c == '$' || c == '%' || c == '^' || c == '&' || c == '*'
        || c == '(' || c == ')' || c == '_' || c == '+' || c == '-' || c == '=' || c == '['
        || c == ']' || c == '{' || c == '}' || c == '|' || c == ';' || c == '\'' || c == ':'
        || c == '"' || c == ',' || c == '.' || c == '/' || c == '<' || c == '>' || c == '?'
}

/// Whether `c` is a control character.
pub fn is_control(c: char) -> (yes: bool)
    ensures
        yes == is_control_char(c),
{
    c <= '\u{1f}' || ('\u{7f}' <= c && c <= '\u{9f}')
}

/// Whether `c` belongs to `class`.
pub fn char_in_class(class: CharClass, c: char) -> (yes: bool)
    ensures
        yes == in_class(class, c),
{
    match class {
        CharClass::Uppercase => std_is_uppercase(c),
        CharClass::Lowercase => std_is_lowercase(c),
        CharClass::Number => std_is_numeric(c),
        CharClass::Special => is_special(c),
    }
}

/// Whether some character of `chars` belongs to `class`.
pub fn contains_class(chars: &Vec<char>, class: CharClass) -> (found: bool)
    ensures
        found == has_class(chars@, class),
{
    let mut i: usize = 0;
    while i < chars.len()
        invariant
            i <= chars.len(),
            forall|j: int| 0 <= j < i ==> !in_class(class, #[trigger] chars@[j]),
        decreases chars.len() - i,
    {
        if char_in_class(class, chars[i]) {
            return true;
        }
        i += 1;
    }
    false
}

} // verus!
