//! Checks of what a user types, and a duration in round figures.

use crate::text::{
    char_is_alphanumeric, decimal, is_alphanumeric, push_decimal_i64, split_once_char,
};
use vstd::prelude::*;
use vstd::std_specs::convert::FromSpecImpl;
use vstd::string::StringExecFns;
use vstd::utf8::encode_utf8;

verus! {

/// `regex::Regex`: a compiled regular expression.
#[verifier::external_type_specification]
#[verifier::external_body]
pub struct ExRegex(regex::Regex);

/// `regex::Error`: why a pattern was refused.
#[verifier::external_type_specification]
#[verifier::external_body]
pub struct ExRegexError(regex::Error);

/// `chrono::TimeDelta`: a span of time.
#[verifier::external_type_specification]
#[verifier::external_body]
pub struct ExTimeDelta(chrono::TimeDelta);

/// Whether `Regex::new` accepts a pattern.
pub uninterp spec fn regex_compiles(pattern: Seq<char>) -> bool;

/// The pattern that a `Regex` was made from.
pub uninterp spec fn regex_pattern(regex: regex::Regex) -> Seq<char>;

/// Whether the regular expression of a pattern matches anywhere in a text:
/// what `Regex::is_match` returns.
pub uninterp spec fn regex_finds(pattern: Seq<char>, haystack: Seq<char>) -> bool;

/// The whole seconds of a `TimeDelta`, rounded towards zero: what
/// `TimeDelta::num_seconds` returns.
pub uninterp spec fn duration_seconds(duration: chrono::TimeDelta) -> i64;

/// `Regex::new`: whether a pattern is accepted is fixed by the pattern, and the
/// regular expression is the one of the pattern.
#[verifier::external_body]
fn regex_new(pattern: &str) -> (r: Result<regex::Regex, regex::Error>)
    ensures
        r is Ok <==> regex_compiles(pattern@),
        r matches Ok(regex) ==> regex_pattern(regex) == pattern@,
{
    regex::Regex::new(pattern)
}

/// `Regex::is_match`: whether there is a match is fixed by the pattern and the
/// text.
#[verifier::external_body]
fn regex_is_match(regex: &regex::Regex, haystack: &str) -> (r: bool)
    ensures
        r == regex_finds(regex_pattern(*regex), haystack@),
{
    regex.is_match(haystack)
}

/// The quotient of `number` by `divisor`, rounded towards zero.
pub open spec fn quotient_towards_zero(number: int, divisor: int) -> int {
    if number >= 0 {
        number / divisor
    } else {
        -((-number) / divisor)
    }
}

/// `TimeDelta::num_seconds`.
#[verifier::external_body]
fn duration_num_seconds(duration: &chrono::TimeDelta) -> (r: i64)
    ensures
        r == duration_seconds(*duration),
{
    duration.num_seconds()
}

/// `TimeDelta::num_minutes`: the whole seconds divided by 60, rounded towards
/// zero.
#[verifier::external_body]
fn duration_num_minutes(duration: &chrono::TimeDelta) -> (r: i64)
    ensures
        r == quotient_towards_zero(duration_seconds(*duration) as int, 60),
{
    duration.num_minutes()
}

/// `TimeDelta::num_hours`: the whole seconds divided by 3600, rounded towards
/// zero.
#[verifier::external_body]
fn duration_num_hours(duration: &chrono::TimeDelta) -> (r: i64)
    ensures
        r == quotient_towards_zero(duration_seconds(*duration) as int, 3600),
{
    duration.num_hours()
}

/// `TimeDelta::num_days`: the whole seconds divided by 86400, rounded towards
/// zero.
#[verifier::external_body]
fn duration_num_days(duration: &chrono::TimeDelta) -> (r: i64)
    ensures
        r == quotient_towards_zero(duration_seconds(*duration) as int, 86400),
{
    duration.num_days()
}

/// The pattern of an e-mail address: a local part, an at sign, a domain, a
/// dot, and a top-level domain of two letters or more.
pub const EMAIL_PATTERN: &'static str = r#"^[a-zA-Z0-9._%+-]+@[a-zA-Z0-9.-]+\.[a-zA-Z]{2,}$"#;

/// Whether a text has the form of an e-mail address: whether the regular
/// expression of `EMAIL_PATTERN` matches it.
pub fn validate_email(email: &str) -> (r: bool)
    ensures
        r == (regex_compiles(EMAIL_PATTERN@) && regex_finds(EMAIL_PATTERN@, email@)),
{
    match regex_new(EMAIL_PATTERN) {
        Ok(email_regex) => regex_is_match(&email_regex, email),
        Err(_) => false,
    }
}

/// Whether a character may stand in an account name: a letter, a number, an
/// underscore or a hyphen.
pub open spec fn is_account_name_char(c: char) -> bool {
    is_alphanumeric(c) || c == '_' || c == '-'
}

/// Whether a text can be an account name: 3 to 16 bytes of UTF-8, made of
/// letters, numbers, underscores and hyphens.
pub open spec fn is_account_name(name: Seq<char>) -> bool {
    &&& 3 <= encode_utf8(name).len() <= 16
    &&& forall|i: int| 0 <= i < name.len() ==> is_account_name_char(#[trigger] name[i])
}

/// Whether a text can be an account name.
pub fn validate_account_name(account_name: &str) -> (r: bool)
    ensures
        r == is_account_name(account_name@),
{
    let length = account_name.as_bytes().len();
    if length < 3 || length > 16 {
        return false;
    }
    for c in it: account_name.chars()
        invariant
            it.seq() == account_name@,
            3 <= encode_utf8(account_name@).len() <= 16,
            forall|i: int|
                0 <= i < it.index() ==> is_account_name_char(#[trigger] account_name@[i]),
    {
        if !(char_is_alphanumeric(c) || c == '_' || c == '-') {
            assert(!is_account_name_char(account_name@[it.index() as int]));
            return false;
        }
    }
    true
}

/// What is said of an argument that is no pair of a key and a value.
pub open spec fn key_value_complaint(argument: Seq<char>) -> Seq<char> {
    "invalid KEY=value: no `=` found in `"@ + argument + "`"@
}

/// Reads an argument of the form `key=value`: the key is what stands before
/// the first equals sign, the value what stands after it.
pub fn parse_key_val(s: &str) -> (r: Result<(String, String), String>)
    ensures
        match r {
            Ok((key, value)) => s@ == key@ + seq!['='] + value@ && !key@.contains('='),
            Err(complaint) => !s@.contains('=') && complaint@ == key_value_complaint(s@),
        },
{
    match split_once_char(s, '=') {
        Some((key, value)) => Ok((key.to_owned(), value.to_owned())),
        None => {
            let mut complaint = "invalid KEY=value: no `=` found in `".to_owned();
            complaint.append(s);
            complaint.append("`");
            Err(complaint)
        },
    }
}

/// A duration in round figures: in the largest of days, hours and minutes of
/// which it holds more than three, else in seconds.
#[derive(Debug, Clone, Copy, PartialEq, Eq, Structural)]
pub enum ApproximateDuration {
    Days(i64),
    Hours(i64),
    Minutes(i64),
    Seconds(i64),
}

/// The round figure for a duration of so many whole days, hours, minutes and
/// seconds.
pub open spec fn approximate(days: i64, hours: i64, minutes: i64, seconds: i64) -> ApproximateDuration {
    if days > 3 {
        ApproximateDuration::Days(days)
    } else if hours > 3 {
        ApproximateDuration::Hours(hours)
    } else if minutes > 3 {
        ApproximateDuration::Minutes(minutes)
    } else {
        ApproximateDuration::Seconds(seconds)
    }
}

/// The text of a round figure: the number and its unit.
pub open spec fn approximate_text(duration: ApproximateDuration) -> Seq<char> {
    match duration {
        ApproximateDuration::Days(days) => decimal(days as int) + " days"@,
        ApproximateDuration::Hours(hours) => decimal(hours as int) + " hours"@,
        ApproximateDuration::Minutes(minutes) => decimal(minutes as int) + " minutes"@,
        ApproximateDuration::Seconds(seconds) => decimal(seconds as int) + " seconds"@,
    }
}

impl ApproximateDuration {
    /// The round figure for a duration of so many whole days, hours, minutes
    /// and seconds.
    pub fn of_parts(days: i64, hours: i64, minutes: i64, seconds: i64) -> (r: ApproximateDuration)
        ensures
            r == approximate(days, hours, minutes, seconds),
    {
        if days > 3 {
            return ApproximateDuration::Days(days);
        }
        if hours > 3 {
            return ApproximateDuration::Hours(hours);
        }
        if minutes > 3 {
            return ApproximateDuration::Minutes(minutes);
        }
        ApproximateDuration::Seconds(seconds)
    }

    /// The round figure in words.
    pub fn to_string(&self) -> (r: String)
        ensures
            r@ == approximate_text(*self),
    {
        let mut text = String::new();
        match self {
            ApproximateDuration::Days(days) => {
                push_decimal_i64(&mut text, *days);
                text.append(" days");
            },
            ApproximateDuration::Hours(hours) => {
                push_decimal_i64(&mut text, *hours);
                text.append(" hours");
            },
            ApproximateDuration::Minutes(minutes) => {
                push_decimal_i64(&mut text, *minutes);
                text.append(" minutes");
            },
            ApproximateDuration::Seconds(seconds) => {
                push_decimal_i64(&mut text, *seconds);
                text.append(" seconds");
            },
        }
        assert(text@ =~= approximate_text(*self));
        text
    }
}

/// The round figure for a `TimeDelta`.
pub open spec fn approximate_duration(duration: chrono::TimeDelta) -> ApproximateDuration {
    let seconds = duration_seconds(duration);
    approximate(
        quotient_towards_zero(seconds as int, 86400) as i64,
        quotient_towards_zero(seconds as int, 3600) as i64,
        quotient_towards_zero(seconds as int, 60) as i64,
        seconds,
    )
}

impl From<chrono::TimeDelta> for ApproximateDuration {
    fn from(duration: chrono::TimeDelta) -> (r: ApproximateDuration) {
        let days = duration_num_days(&duration);
        let hours = duration_num_hours(&duration);
        let minutes = duration_num_minutes(&duration);
        let seconds = duration_num_seconds(&duration);
        ApproximateDuration::of_parts(days, hours, minutes, seconds)
    }
}

impl FromSpecImpl<chrono::TimeDelta> for ApproximateDuration {
    open spec fn obeys_from_spec() -> bool {
        true
    }

    open spec fn from_spec(duration: chrono::TimeDelta) -> ApproximateDuration {
        approximate_duration(duration)
    }
}

} // verus!
