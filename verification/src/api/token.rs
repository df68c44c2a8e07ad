//! API tokens.
//!
//! A token is written as its identifier, a dot, and its secret. The identifier
//! holds no dot, so a text is read back in one way only.

use crate::text::{split_once_char, string_push};
use vstd::prelude::*;
use vstd::string::StringExecFns;

verus! {

/// The character between the two parts of a token.
pub const SEPARATOR: char = '.';

/// A token: the identifier under which the service knows it, and its secret.
#[derive(Debug, Clone)]
pub struct ApiToken {
    pub id: String,
    pub token: String,
}

/// An `ApiToken` as a mathematical value.
pub struct ApiTokenView {
    pub id: Seq<char>,
    pub token: Seq<char>,
}

impl View for ApiToken {
    type V = ApiTokenView;

    open spec fn view(&self) -> ApiTokenView {
        ApiTokenView { id: self.id@, token: self.token@ }
    }
}

/// Why a text is no token.
#[derive(Debug, Clone, Copy, PartialEq, Eq, Structural)]
pub enum ApiTokenError {
    /// The text holds no separator.
    InvalidFormat,
}

impl ApiTokenError {
    /// The error in words.
    pub fn to_string(&self) -> (r: String)
        ensures
            r@ == "Invalid token format"@,
    {
        "Invalid token format".to_owned()
    }
}

/// The text of a token: identifier, separator, secret.
pub open spec fn token_text(token: ApiTokenView) -> Seq<char> {
    token.id + seq![SEPARATOR] + token.token
}

/// Whether `token` is what `text` reads as: the identifier is what stands
/// before the first separator, the secret what stands after it.
pub open spec fn is_token_of(token: ApiTokenView, text: Seq<char>) -> bool {
    &&& token_text(token) == text
    &&& !token.id.contains(SEPARATOR)
}

impl ApiToken {
    /// Reads a token from a text that holds a separator.
    pub fn new(token: String) -> (r: ApiToken)
        requires
            token@.contains(SEPARATOR),
        ensures
            is_token_of(r@, token@),
    {
        match split_once_char(token.as_str(), SEPARATOR) {
            Some((id, secret)) => ApiToken { id: id.to_owned(), token: secret.to_owned() },
            None => unreached(),
        }
    }

    /// Reads a token from a text. A text with a separator is a token; one
    /// without is none.
    pub fn from_str(s: &str) -> (r: Result<ApiToken, ApiTokenError>)
        ensures
            match r {
                Ok(token) => is_token_of(token@, s@),
                Err(error) => error == ApiTokenError::InvalidFormat && !s@.contains(SEPARATOR),
            },
    {
        match split_once_char(s, SEPARATOR) {
            Some((id, secret)) => Ok(ApiToken { id: id.to_owned(), token: secret.to_owned() }),
            None => Err(ApiTokenError::InvalidFormat),
        }
    }

    /// Writes the token as text.
    pub fn to_string(&self) -> (r: String)
        ensures
            r@ == token_text(self@),
    {
        let mut text = self.id.clone();
        string_push(&mut text, SEPARATOR);
        text.append(self.token.as_str());
        text
    }
}

impl std::str::FromStr for ApiToken {
    type Err = ApiTokenError;

    /// Reads a token from a text, as the inherent `from_str` does: a text with
    /// a separator is a token, one without is none.
    fn from_str(s: &str) -> (r: Result<ApiToken, ApiTokenError>)
        ensures
            match r {
                Ok(token) => is_token_of(token@, s@),
                Err(error) => error == ApiTokenError::InvalidFormat && !s@.contains(SEPARATOR),
            },
    {
        ApiToken::from_str(s)
    }
}

/// A text is read as one token at most.
pub proof fn lemma_token_is_unique(first: ApiTokenView, second: ApiTokenView, text: Seq<char>)
    requires
        is_token_of(first, text),
        is_token_of(second, text),
    ensures
        first == second,
{
    let a = first.id.len() as int;
    let b = second.id.len() as int;
    assert(text[a] == SEPARATOR);
    assert(text[b] == SEPARATOR);
    if a < b {
        assert(second.id[a] == text[a]);
        assert(second.id.contains(SEPARATOR));
    }
    if b < a {
        assert(first.id[b] == text[b]);
        assert(first.id.contains(SEPARATOR));
    }
    assert(first.id =~= text.subrange(0, a));
    assert(second.id =~= text.subrange(0, a));
    assert(first.token =~= text.subrange(a + 1, text.len() as int));
    assert(second.token =~= text.subrange(a + 1, text.len() as int));
}

/// Writing a token whose identifier holds no separator, and reading the text,
/// gives the token back; reading a text and writing the token gives the text
/// back.
pub proof fn lemma_token_round_trip(token: ApiTokenView, read: ApiTokenView)
    requires
        !token.id.contains(SEPARATOR),
        is_token_of(read, token_text(token)),
    ensures
        read == token,
        token_text(read) == token_text(token),
{
    lemma_token_is_unique(token, read, token_text(token));
}

} // verus!
