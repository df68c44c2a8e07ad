//! Text: what the crate needs of strings and characters beyond what `vstd`
//! specifies.

use vstd::prelude::*;
use vstd::utf8::{decode_utf8, encode_utf8, encode_utf8_decode_utf8, valid_utf8};

verus! {

/// Whether a character is white space as Unicode defines it: what
/// `char::is_whitespace` returns.
pub uninterp spec fn is_whitespace(c: char) -> bool;

/// Whether a character is a letter or a number as Unicode defines them: what
/// `char::is_alphanumeric` returns.
pub uninterp spec fn is_alphanumeric(c: char) -> bool;

/// The text that `String::from_utf8_lossy` reads from bytes: each run of bytes
/// that is no UTF-8 is replaced by U+FFFD.
pub uninterp spec fn utf8_lossy(bytes: Seq<u8>) -> Seq<char>;

/// A text as `Debug` writes a string: in double quotes, with what cannot stand
/// in a string literal escaped.
pub uninterp spec fn debug_text(text: Seq<char>) -> Seq<char>;

/// Whether a line holds nothing but white space.
pub open spec fn is_blank(line: Seq<char>) -> bool {
    forall|i: int| 0 <= i < line.len() ==> is_whitespace(#[trigger] line[i])
}

/// The `Debug` form of a string slice.
#[verifier::external_body]
pub(crate) fn str_debug(text: &str) -> (r: String)
    ensures
        r@ == debug_text(text@),
{
    format!("{:?}", text)
}

/// `char::is_whitespace`.
#[verifier::external_body]
pub(crate) fn char_is_whitespace(c: char) -> (r: bool)
    ensures
        r == is_whitespace(c),
{
    c.is_whitespace()
}

/// `char::is_alphanumeric`.
#[verifier::external_body]
pub(crate) fn char_is_alphanumeric(c: char) -> (r: bool)
    ensures
        r == is_alphanumeric(c),
{
    c.is_alphanumeric()
}

/// `String::from_utf8_lossy`: the text is fixed by the bytes, and bytes that
/// are UTF-8 give the text that they encode.
#[verifier::external_body]
pub(crate) fn string_from_utf8_lossy(bytes: &[u8]) -> (r: String)
    ensures
        r@ == utf8_lossy(bytes@),
        valid_utf8(bytes@) ==> r@ == decode_utf8(bytes@),
{
    String::from_utf8_lossy(bytes).into_owned()
}

/// Whether two string slices hold the same characters: whether they hold the
/// same bytes, since a text has one UTF-8 form and a UTF-8 form one text.
pub fn str_eq(left: &str, right: &str) -> (r: bool)
    ensures
        r == (left@ == right@),
{
    let left_bytes = left.as_bytes();
    let right_bytes = right.as_bytes();
    proof {
        encode_utf8_decode_utf8(left@);
        encode_utf8_decode_utf8(right@);
    }
    if left_bytes.len() != right_bytes.len() {
        return false;
    }
    let mut at: usize = 0;
    while at < left_bytes.len()
        invariant
            at <= left_bytes@.len(),
            left_bytes@.len() == right_bytes@.len(),
            left_bytes@ == encode_utf8(left@),
            right_bytes@ == encode_utf8(right@),
            forall|i: int| 0 <= i < at ==> left_bytes@[i] == right_bytes@[i],
        decreases left_bytes@.len() - at,
    {
        if left_bytes[at] != right_bytes[at] {
            return false;
        }
        at = at + 1;
    }
    assert(left_bytes@ =~= right_bytes@);
    true
}

/// The place of the first `needle` in `text`, counted in characters.
pub fn find_char(text: &str, needle: char) -> (r: Option<usize>)
    ensures
        match r {
            Some(at) => at < text@.len() && text@[at as int] == needle && forall|i: int|
                0 <= i < at ==> text@[i] != needle,
            None => forall|i: int| 0 <= i < text@.len() ==> text@[i] != needle,
        },
{
    let length = text.unicode_len();
    let mut at: usize = 0;
    for c in it: text.chars()
        invariant
            at == it.index(),
            it.seq() == text@,
            length == text@.len(),
            forall|i: int| 0 <= i < at ==> text@[i] != needle,
    {
        if c == needle {
            return Some(at);
        }
        at = at + 1;
    }
    None
}

/// Splits a text at the first `separator`: what stands before it and what
/// stands after it. `None` where the text holds no separator.
pub fn split_once_char<'a>(text: &'a str, separator: char) -> (r: Option<(&'a str, &'a str)>)
    ensures
        match r {
            Some((before, after)) => {
                &&& text@ == before@ + seq![separator] + after@
                &&& !before@.contains(separator)
            },
            None => !text@.contains(separator),
        },
{
    match find_char(text, separator) {
        Some(at) => {
            let length = text.unicode_len();
            let before = text.substring_char(0, at);
            let after = text.substring_char(at + 1, length);
            assert(text@ =~= before@ + seq![separator] + after@);
            Some((before, after))
        },
        None => None,
    }
}

/// Whether a text holds nothing but white space.
pub fn str_is_blank(text: &str) -> (r: bool)
    ensures
        r == is_blank(text@),
{
    for c in it: text.chars()
        invariant
            it.seq() == text@,
            forall|i: int| 0 <= i < it.index() ==> is_whitespace(#[trigger] text@[i]),
    {
        if !char_is_whitespace(c) {
            assert(!is_whitespace(text@[it.index() as int]));
            return false;
        }
    }
    true
}

/// The character that stands for a decimal digit.
pub open spec fn digit_of(digit: nat) -> char {
    if digit == 0 {
        '0'
    } else if digit == 1 {
        '1'
    } else if digit == 2 {
        '2'
    } else if digit == 3 {
        '3'
    } else if digit == 4 {
        '4'
    } else if digit == 5 {
        '5'
    } else if digit == 6 {
        '6'
    } else if digit == 7 {
        '7'
    } else if digit == 8 {
        '8'
    } else {
        '9'
    }
}

/// The decimal digits of a number, without leading zeros.
pub open spec fn decimal_digits(number: nat) -> Seq<char>
    decreases number,
{
    if number < 10 {
        seq![digit_of(number)]
    } else {
        decimal_digits(number / 10).push(digit_of(number % 10))
    }
}

/// A number in decimal, with a minus sign where it is negative.
pub open spec fn decimal(number: int) -> Seq<char> {
    if number < 0 {
        seq!['-'] + decimal_digits((-number) as nat)
    } else {
        decimal_digits(number as nat)
    }
}

/// `String::push`: the character is added at the end.
#[verifier::external_body]
pub(crate) fn string_push(text: &mut String, c: char)
    ensures
        final(text)@ == old(text)@.push(c),
{
    text.push(c);
}

fn digit_char(digit: u64) -> (r: char)
    requires
        digit < 10,
    ensures
        r == digit_of(digit as nat),
{
    if digit == 0 {
        '0'
    } else if digit == 1 {
        '1'
    } else if digit == 2 {
        '2'
    } else if digit == 3 {
        '3'
    } else if digit == 4 {
        '4'
    } else if digit == 5 {
        '5'
    } else if digit == 6 {
        '6'
    } else if digit == 7 {
        '7'
    } else if digit == 8 {
        '8'
    } else {
        '9'
    }
}

/// Adds a number in decimal at the end of a text.
pub fn push_decimal_u64(text: &mut String, number: u64)
    ensures
        final(text)@ == old(text)@ + decimal_digits(number as nat),
{
    let mut digits: Vec<char> = Vec::new();
    digits.push(digit_char(number % 10));
    let mut rest: u64 = number / 10;
    while rest > 0
        invariant
            decimal_digits(number as nat) == (if rest > 0 {
                decimal_digits(rest as nat)
            } else {
                Seq::<char>::empty()
            }) + digits@.reverse(),
            digits@.len() >= 1,
        decreases rest,
    {
        let ghost before = digits@;
        digits.push(digit_char(rest % 10));
        assert(digits@.reverse() =~= seq![digit_of((rest % 10) as nat)] + before.reverse());
        assert(decimal_digits(rest as nat) =~= (if rest / 10 > 0 {
            decimal_digits((rest / 10) as nat)
        } else {
            Seq::<char>::empty()
        }) + seq![digit_of((rest % 10) as nat)]);
        rest = rest / 10;
    }
    let ghost start = text@;
    let mut left: usize = digits.len();
    while left > 0
        invariant
            left <= digits@.len(),
            text@ == start + digits@.reverse().subrange(0, digits@.len() - left),
        decreases left,
    {
        left = left - 1;
        string_push(text, digits[left]);
        assert(digits@.reverse().subrange(0, digits@.len() - left) =~= digits@.reverse().subrange(
            0,
            digits@.len() - left - 1,
        ).push(digits@[left as int]));
    }
    assert(digits@.reverse().subrange(0, digits@.len() as int) =~= digits@.reverse());
    assert(Seq::<char>::empty() + digits@.reverse() =~= digits@.reverse());
}

/// Adds a number in decimal at the end of a text, with a minus sign where the
/// number is negative.
pub fn push_decimal_i64(text: &mut String, number: i64)
    ensures
        final(text)@ == old(text)@ + decimal(number as int),
{
    if number < 0 {
        string_push(text, '-');
        let magnitude: u64 = ((-(number + 1)) as u64) + 1;
        push_decimal_u64(text, magnitude);
        assert(old(text)@.push('-') + decimal_digits(magnitude as nat) =~= old(text)@ + (seq!['-']
            + decimal_digits((-number) as nat)));
    } else {
        push_decimal_u64(text, number as u64);
    }
}

/// A number in decimal.
pub fn i64_to_decimal(number: i64) -> (r: String)
    ensures
        r@ == decimal(number as int),
{
    let mut text = String::new();
    push_decimal_i64(&mut text, number);
    assert(Seq::<char>::empty() + decimal(number as int) =~= decimal(number as int));
    text
}

} // verus!
