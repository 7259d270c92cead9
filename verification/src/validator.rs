//! Well-formedness rules for address text.
//!
//! An address is accepted when, after leading and trailing white space is
//! removed, it is not empty and not longer than the limit, which is
//! [`MAX_ADDRESS_LENGTH`] characters unless another is given, and when it
//! holds at least one character that is ASCII or lies in the CJK range
//! `U+3000..=U+9FFF`.
use vstd::prelude::*;
use vstd::string::*;
use crate::decimal::{decimal, push_decimal};

verus! {

/// The greatest number of characters an address may have once trimmed,
/// where no other limit is given.
pub const MAX_ADDRESS_LENGTH: usize = 500;

/// The characters with the Unicode property `White_Space`.
pub open spec fn is_whitespace(c: char) -> bool {
    let u = c as u32;
    ||| 0x09 <= u <= 0x0D
    ||| u == 0x20
    ||| u == 0x85
    ||| u == 0xA0
    ||| u == 0x1680
    ||| 0x2000 <= u <= 0x200A
    ||| u == 0x2028
    ||| u == 0x2029
    ||| u == 0x202F
    ||| u == 0x205F
    ||| u == 0x3000
}

/// The characters of which an address must hold at least one: ASCII, or the
/// CJK punctuation, kana and ideograph range.
pub open spec fn is_address_char(c: char) -> bool {
    let u = c as u32;
    u < 0x80 || 0x3000 <= u <= 0x9FFF
}

/// `s` without its leading white space.
pub open spec fn trim_start(s: Seq<char>) -> Seq<char>
    decreases s.len(),
{
    if s.len() > 0 && is_whitespace(s[0]) {
        trim_start(s.drop_first())
    } else {
        s
    }
}

/// `s` without its trailing white space.
pub open spec fn trim_end(s: Seq<char>) -> Seq<char>
    decreases s.len(),
{
    if s.len() > 0 && is_whitespace(s.last()) {
        trim_end(s.drop_last())
    } else {
        s
    }
}

/// `s` without its leading and trailing white space.
pub open spec fn trimmed(s: Seq<char>) -> Seq<char> {
    trim_end(trim_start(s))
}

/// Whether `s` holds a character that an address may be made of.
pub open spec fn has_address_char(s: Seq<char>) -> bool {
    exists|i: int| 0 <= i < s.len() && is_address_char(#[trigger] s[i])
}

/// Why an address was turned down.
#[derive(Clone, Copy, Debug, PartialEq, Eq, Structural)]
pub enum Rejection {
    /// Nothing is left of the text once it is trimmed.
    Empty,
    /// The trimmed text has more characters than the limit.
    TooLong,
    /// No character of the text is ASCII or in the CJK range.
    InvalidFormat,
}

/// The first rule that `text` breaks under the limit `max_len`, if any.
/// The rules are tried in the order of the variants of [`Rejection`].
pub open spec fn rejection_of(text: Seq<char>, max_len: nat) -> Option<Rejection> {
    if trimmed(text).len() == 0 {
        Some(Rejection::Empty)
    } else if trimmed(text).len() > max_len {
        Some(Rejection::TooLong)
    } else if !has_address_char(text) {
        Some(Rejection::InvalidFormat)
    } else {
        None
    }
}

/// The message that goes with a rejection under the limit `max_len`.
pub open spec fn rejection_message(reason: Rejection, max_len: nat) -> Seq<char> {
    match reason {
        Rejection::Empty => "Address cannot be empty"@,
        Rejection::TooLong => "Address too long (max "@ + decimal(max_len) + " characters)"@,
        Rejection::InvalidFormat => "Invalid address format"@,
    }
}

impl Rejection {
    /// The message that goes with this rejection under the limit `max_len`.
    pub fn message(&self, max_len: usize) -> (text: String)
        ensures
            text@ == rejection_message(*self, max_len as nat),
    {
        match self {
            Rejection::Empty => String::from_str("Address cannot be empty"),
            Rejection::TooLong => {
                let mut text = String::from_str("Address too long (max ");
                push_decimal(&mut text, max_len as u128);
                text.append(" characters)");
                text
            },
            Rejection::InvalidFormat => String::from_str("Invalid address format"),
        }
    }
}

/// Whether `c` has the Unicode property `White_Space`.
pub fn check_whitespace(c: char) -> (r: bool)
    ensures
        r == is_whitespace(c),
{
    let u: u32 = c as u32;
    (0x09 <= u && u <= 0x0D) || u == 0x20 || u == 0x85 || u == 0xA0 || u == 0x1680 || (0x2000 <= u
        && u <= 0x200A) || u == 0x2028 || u == 0x2029 || u == 0x202F || u == 0x205F || u == 0x3000
}

/// Leading white space is exactly the longest prefix of white space.
pub proof fn lemma_trim_start_is_suffix(s: Seq<char>, start: int)
    requires
        0 <= start <= s.len(),
        forall|i: int| 0 <= i < start ==> is_whitespace(#[trigger] s[i]),
        start < s.len() ==> !is_whitespace(s[start]),
    ensures
        trim_start(s) == s.subrange(start, s.len() as int),
    decreases start,
{
    if start > 0 {
        lemma_trim_start_is_suffix(s.drop_first(), start - 1);
    }
}

/// Trailing white space is exactly the longest suffix of white space.
pub proof fn lemma_trim_end_is_prefix(s: Seq<char>, end: int)
    requires
        0 <= end <= s.len(),
        forall|i: int| end <= i < s.len() ==> is_whitespace(#[trigger] s[i]),
        end > 0 ==> !is_whitespace(s[end - 1]),
    ensures
        trim_end(s) == s.subrange(0, end),
    decreases s.len() - end,
{
    if end < s.len() {
        lemma_trim_end_is_prefix(s.drop_last(), end);
    }
}

/// The part of `s` between its first and its last character that is not
/// white space is what trimming leaves; where there is no such character,
/// trimming leaves nothing.
pub proof fn lemma_trimmed_is_subrange(s: Seq<char>, start: int, end: int)
    requires
        0 <= start <= s.len(),
        0 <= end <= s.len(),
        forall|i: int| 0 <= i < start ==> is_whitespace(#[trigger] s[i]),
        start < s.len() ==> !is_whitespace(s[start]),
        forall|i: int| end <= i < s.len() ==> is_whitespace(#[trigger] s[i]),
        end > 0 ==> !is_whitespace(s[end - 1]),
    ensures
        start < s.len() ==> start < end && trimmed(s) == s.subrange(start, end),
        start == s.len() ==> end == 0 && trimmed(s) == Seq::<char>::empty(),
{
    lemma_trim_start_is_suffix(s, start);
    if start < s.len() {
        lemma_trim_end_is_prefix(s.subrange(start, s.len() as int), end - start);
    }
}

/// What is left of a text once trimmed neither begins nor ends with white
/// space, so that trimming it again changes nothing.
pub proof fn lemma_trimmed_is_idempotent(s: Seq<char>)
    ensures
        trimmed(s).len() > 0 ==> !is_whitespace(trimmed(s).first()) && !is_whitespace(
            trimmed(s).last(),
        ),
        trimmed(trimmed(s)) == trimmed(s),
{
    lemma_trim_start_shape(s);
    lemma_trim_end_shape(trim_start(s));
}

/// What is left once the leading white space is gone is empty or begins
/// with another character.
proof fn lemma_trim_start_shape(s: Seq<char>)
    ensures
        trim_start(s).len() == 0 || !is_whitespace(trim_start(s).first()),
    decreases s.len(),
{
    if s.len() > 0 && is_whitespace(s[0]) {
        lemma_trim_start_shape(s.drop_first());
    }
}

/// What is left once the trailing white space is gone is a prefix of the
/// text, and is empty or ends with another character.
proof fn lemma_trim_end_shape(s: Seq<char>)
    ensures
        trim_end(s).len() <= s.len(),
        trim_end(s) == s.take(trim_end(s).len() as int),
        trim_end(s).len() == 0 || !is_whitespace(trim_end(s).last()),
    decreases s.len(),
{
    if s.len() > 0 && is_whitespace(s.last()) {
        lemma_trim_end_shape(s.drop_last());
    }
}

/// `text` without its leading and trailing white space.
pub fn trim(text: &str) -> (r: &str)
    ensures
        r@ == trimmed(text@),
{
    let mut start: usize = 0;
    let mut end: usize = 0;
    let mut index: usize = 0;
    let total: usize = text.unicode_len();
    for c in it: text.chars()
        invariant
            it.seq() == text@,
            total == text@.len(),
            index == it.index(),
            start <= index,
            end <= index,
            forall|i: int| 0 <= i < start ==> is_whitespace(#[trigger] text@[i]),
            start < index ==> !is_whitespace(text@[start as int]),
            start < index || end == 0,
            forall|i: int| end <= i < index ==> is_whitespace(#[trigger] text@[i]),
            end > 0 ==> !is_whitespace(text@[end - 1]),
    {
        if check_whitespace(c) {
            if start == index {
                start = index + 1;
            }
        } else {
            end = index + 1;
        }
        index = index + 1;
    }
    proof {
        lemma_trimmed_is_subrange(text@, start as int, end as int);
    }
    if start < total {
        text.substring_char(start, end)
    } else {
        text.substring_char(0, 0)
    }
}

/// Whether `c` is ASCII or lies in the CJK range.
pub fn check_address_char(c: char) -> (r: bool)
    ensures
        r == is_address_char(c),
{
    let u: u32 = c as u32;
    u < 0x80 || (0x3000 <= u && u <= 0x9FFF)
}

/// Whether `text` holds a character that an address may be made of.
pub fn contains_address_char(text: &str) -> (r: bool)
    ensures
        r == has_address_char(text@),
{
    let mut found: bool = false;
    for c in it: text.chars()
        invariant
            it.seq() == text@,
            found == exists|i: int| 0 <= i < it.index() && is_address_char(#[trigger] text@[i]),
    {
        if check_address_char(c) {
            found = true;
        }
    }
    found
}

/// Holds `address` to the rules under the limit `max_len`, and names the
/// first one that it breaks.
pub fn check_address_within(address: &str, max_len: usize) -> (r: Result<(), Rejection>)
    ensures
        r is Ok <==> rejection_of(address@, max_len as nat) is None,
        r matches Err(reason) ==> rejection_of(address@, max_len as nat) == Some(reason),
{
    let kept = trim(address);
    let length = kept.unicode_len();
    if length == 0 {
        return Err(Rejection::Empty);
    }
    if length > max_len {
        return Err(Rejection::TooLong);
    }
    if !contains_address_char(address) {
        return Err(Rejection::InvalidFormat);
    }
    Ok(())
}

/// Holds `address` to the rules under the limit [`MAX_ADDRESS_LENGTH`],
/// and names the first one that it breaks.
pub fn check_address(address: &str) -> (r: Result<(), Rejection>)
    ensures
        r is Ok <==> rejection_of(address@, MAX_ADDRESS_LENGTH as nat) is None,
        r matches Err(reason) ==> rejection_of(address@, MAX_ADDRESS_LENGTH as nat) == Some(
            reason,
        ),
{
    check_address_within(address, MAX_ADDRESS_LENGTH)
}

/// Holds `address` to the rules under the limit `max_len`, and says in
/// words which one it breaks.
pub fn validate_address_within(address: &str, max_len: usize) -> (r: Result<(), String>)
    ensures
        r is Ok <==> rejection_of(address@, max_len as nat) is None,
        r matches Err(message) ==> rejection_of(address@, max_len as nat) matches Some(reason)
            && message@ == rejection_message(reason, max_len as nat),
{
    match check_address_within(address, max_len) {
        Ok(()) => Ok(()),
        Err(reason) => Err(reason.message(max_len)),
    }
}

/// Holds `address` to the rules under the limit [`MAX_ADDRESS_LENGTH`],
/// and says in words which one it breaks.
pub fn validate_address(address: &str) -> (r: Result<(), String>)
    ensures
        r is Ok <==> rejection_of(address@, MAX_ADDRESS_LENGTH as nat) is None,
        r matches Err(message) ==> rejection_of(address@, MAX_ADDRESS_LENGTH as nat) matches Some(
            reason,
        ) && message@ == rejection_message(reason, MAX_ADDRESS_LENGTH as nat),
{
    validate_address_within(address, MAX_ADDRESS_LENGTH)
}

/// An address that is too long once trimmed is turned down for its length,
/// whatever it is made of.
pub proof fn lemma_too_long_is_rejected(text: Seq<char>, max_len: nat)
    requires
        trimmed(text).len() > max_len,
    ensures
        rejection_of(text, max_len) == Some(Rejection::TooLong),
{
}

/// An address is accepted exactly when something is left of it once
/// trimmed, that is no longer than the limit, and one of its characters is
/// ASCII or in the CJK range; one of which nothing is left is turned down.
pub proof fn lemma_accepted_iff_valid(text: Seq<char>, max_len: nat)
    ensures
        rejection_of(text, max_len) is None <==> 0 < trimmed(text).len() <= max_len
            && has_address_char(text),
        trimmed(text).len() == 0 ==> rejection_of(text, max_len) == Some(Rejection::Empty),
{
}

} // verus!
