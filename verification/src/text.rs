//! Small verified helpers on strings, stated over their character sequences.

use vstd::prelude::*;

verus! {

/// `String::push`: the character is appended at the end and nothing else changes.
pub assume_specification[ String::push ](s: &mut String, c: char)
    ensures
        final(s)@ == old(s)@.push(c),
;

/// What `str::to_lowercase` makes of a string.
pub uninterp spec fn lowercase_of(s: Seq<char>) -> Seq<char>;

/// `str::to_lowercase`: the lowercase equivalent of the string, as Unicode
/// defines it.
#[verifier::external_body]
pub(crate) fn to_lowercase(s: &str) -> (lower: String)
    ensures
        lower@ == lowercase_of(s@),
{
    s.to_lowercase()
}

/// What `str::trim` leaves of a string.
pub uninterp spec fn trimmed(s: Seq<char>) -> Seq<char>;

/// `str::trim`: the string without its leading and trailing whitespace, as
/// Unicode defines whitespace.
#[verifier::external_body]
pub(crate) fn trim(s: &str) -> (rest: &str)
    ensures
        rest@ == trimmed(s@),
{
    s.trim()
}

/// Whether the regular expression `pattern` matches somewhere in `text`, as the
/// `regex` crate decides it; `None` where the crate does not accept the pattern.
pub uninterp spec fn regex_search(pattern: Seq<char>, text: Seq<char>) -> Option<bool>;

/// `Regex::new` followed by `Regex::is_match`.
#[verifier::external_body]
pub(crate) fn regex_is_match(pattern: &str, text: &str) -> (found: Option<bool>)
    ensures
        found == regex_search(pattern@, text@),
{
    match regex::Regex::new(pattern) {
        Ok(compiled) => Some(compiled.is_match(text)),
        Err(_) => None,
    }
}

/// The number that a run of decimal digits denotes.
pub open spec fn digits_value(digits: Seq<char>) -> nat
    decreases digits.len(),
{
    if digits.len() == 0 {
        0
    } else {
        digits_value(digits.drop_last()) * 10 + (digits.last() as nat - '0' as nat) as nat
    }
}

/// Whether every character is one of `0` to `9`.
pub open spec fn all_digits(text: Seq<char>) -> bool {
    forall|i: int| 0 <= i < text.len() ==> '0' <= #[trigger] text[i] <= '9'
}

/// The number that a text denotes where it is one or more decimal digits whose
/// value is at most `limit`; none otherwise.
pub open spec fn digits_within(text: Seq<char>, limit: u64) -> Option<u64> {
    if text.len() > 0 && all_digits(text) && digits_value(text) <= limit {
        Some(digits_value(text) as u64)
    } else {
        None
    }
}

proof fn lemma_digits_value_grows(digits: Seq<char>, upto: int)
    requires
        0 <= upto <= digits.len(),
        all_digits(digits),
    ensures
        digits_value(digits.subrange(0, upto)) <= digits_value(digits),
    decreases digits.len() - upto,
{
    if upto < digits.len() {
        let shorter = digits.drop_last();
        assert(shorter.subrange(0, upto) == digits.subrange(0, upto));
        assert(all_digits(shorter));
        lemma_digits_value_grows(shorter, upto);
    } else {
        assert(digits.subrange(0, upto) == digits);
    }
}

/// Reads a number of at most `limit` from decimal digits.
pub fn read_digits(digits: &Vec<char>, limit: u64) -> (value: Option<u64>)
    requires
        limit <= 0xFFFF_FFFF_FFFF,
    ensures
        value == digits_within(digits@, limit),
{
    if digits.len() == 0 {
        return None;
    }
    let mut value: u64 = 0;
    let mut i: usize = 0;
    while i < digits.len()
        invariant
            i <= digits.len(),
            digits.len() > 0,
            limit <= 0xFFFF_FFFF_FFFF,
            value == digits_value(digits@.subrange(0, i as int)),
            value <= limit,
            forall|j: int| 0 <= j < i ==> '0' <= #[trigger] digits@[j] <= '9',
        decreases digits.len() - i,
    {
        let c = digits[i];
        if c < '0' || c > '9' {
            assert(!('0' <= digits@[i as int] <= '9'));
            return None;
        }
        proof {
            let next = digits@.subrange(0, i + 1);
            assert(next.drop_last() == digits@.subrange(0, i as int));
            assert(next.last() == c);
        }
        let digit: u64 = (c as u32 - '0' as u32) as u64;
        value = value * 10 + digit;
        if value > limit {
            proof {
                if all_digits(digits@) {
                    lemma_digits_value_grows(digits@, i + 1);
                }
            }
            return None;
        }
        i += 1;
    }
    assert(digits@.subrange(0, digits.len() as int) == digits@);
    Some(value)
}

/// The two strings, one after the other.
pub fn join_text(a: &str, b: &str) -> (joined: String)
    ensures
        joined@ == a@ + b@,
{
    let mut joined = a.to_owned();
    joined.append(b);
    joined
}

/// Whether two strings hold the same characters.
pub fn str_equals(a: &str, b: &str) -> (same: bool)
    ensures
        same == (a@ == b@),
{
    let left = a.to_owned();
    let right = b.to_owned();
    left.eq(&right)
}

/// The characters of a string, in order.
pub fn chars_of(s: &str) -> (chars: Vec<char>)
    ensures
        chars@ == s@,
{
    let mut chars: Vec<char> = Vec::new();
    for c in it: s.chars()
        invariant
            it.seq() == s@,
            chars@ == it.seq().subrange(0, it.index() as int),
    {
        chars.push(c);
    }
    assert(s@.subrange(0, s@.len() as int) == s@);
    chars
}

/// The string made of the given characters, in order.
pub fn string_of(chars: &Vec<char>) -> (s: String)
    ensures
        s@ == chars@,
{
    let mut s = String::new();
    let mut i: usize = 0;
    while i < chars.len()
        invariant
            i <= chars.len(),
            s@ == chars@.subrange(0, i as int),
        decreases chars.len() - i,
    {
        s.push(chars[i]);
        i += 1;
    }
    assert(chars@.subrange(0, chars.len() as int) == chars@);
    s
}

/// `prefix` is an initial segment of `s`.
pub open spec fn is_prefix(prefix: Seq<char>, s: Seq<char>) -> bool {
    prefix.len() <= s.len() && s.subrange(0, prefix.len() as int) == prefix
}

/// Whether `chars` begins with `prefix`.
pub fn starts_with_chars(chars: &Vec<char>, prefix: &Vec<char>) -> (yes: bool)
    ensures
        yes == is_prefix(prefix@, chars@),
{
    if prefix.len() > chars.len() {
        return false;
    }
    let mut i: usize = 0;
    while i < prefix.len()
        invariant
            prefix.len() <= chars.len(),
            i <= prefix.len(),
            chars@.subrange(0, i as int) == prefix@.subrange(0, i as int),
        decreases prefix.len() - i,
    {
        if chars[i] != prefix[i] {
            assert(chars@.subrange(0, prefix.len() as int)[i as int] != prefix@[i as int]);
            return false;
        }
        assert(chars@.subrange(0, i + 1) == chars@.subrange(0, i as int).push(chars@[i as int]));
        assert(prefix@.subrange(0, i + 1) == prefix@.subrange(0, i as int).push(prefix@[i as int]));
        i += 1;
    }
    assert(prefix@.subrange(0, prefix.len() as int) == prefix@);
    true
}

/// The characters of `chars` from position `from` to the end.
pub fn suffix_from(chars: &Vec<char>, from: usize) -> (rest: Vec<char>)
    requires
        from <= chars.len(),
    ensures
        rest@ == chars@.subrange(from as int, chars.len() as int),
{
    let mut rest: Vec<char> = Vec::new();
    let mut i: usize = from;
    while i < chars.len()
        invariant
            from <= i <= chars.len(),
            rest@ == chars@.subrange(from as int, i as int),
        decreases chars.len() - i,
    {
        rest.push(chars[i]);
        i += 1;
    }
    rest
}

} // verus!
