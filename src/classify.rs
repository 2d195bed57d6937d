//! Classification of a token-endpoint response into a token, a provider
//! rejection or a transport failure.
use vstd::prelude::*;
use crate::json::{int_member, json_int_member, json_text_member, opt_view, text_member};
use crate::token::Token;

verus! {

/// A structured rejection from the authorization server.
pub struct ProviderError {
    pub error: String,
    pub error_description: Option<String>,
}

/// A failure of the exchange itself, before any answer could be classified.
pub enum TransportError {
    /// The request did not complete; the message says why.
    Connection(String),
    /// The body is neither an error document nor a token document.
    MalformedBody,
}

/// The three outcomes of a token-endpoint exchange.
pub enum Classified {
    Success(Token),
    Provider(ProviderError),
    Transport(TransportError),
}

/// The `error` member of an error document.
pub open spec fn error_code(body: Seq<char>) -> Option<Seq<char>> {
    json_text_member(body, "error"@)
}

/// Whether `body` holds the three members of a token document and its expiry,
/// counted from `fetch_time`, fits in an `i64`.
pub open spec fn is_token_doc(body: Seq<char>, fetch_time: int) -> bool {
    &&& json_text_member(body, "access_token"@) is Some
    &&& json_text_member(body, "token_type"@) is Some
    &&& json_int_member(body, "expires_in"@) is Some
    &&& i64::MIN <= fetch_time + json_int_member(body, "expires_in"@).unwrap() <= i64::MAX
}

/// The token that the token document `body` describes, received at `fetch_time`.
pub open spec fn token_of_doc(t: Token, body: Seq<char>, fetch_time: int) -> bool {
    &&& Some(t.access_token@) == json_text_member(body, "access_token"@)
    &&& Some(t.token_type@) == json_text_member(body, "token_type"@)
    &&& opt_view(t.refresh_token) == json_text_member(body, "refresh_token"@)
    &&& t.expiry == fetch_time + json_int_member(body, "expires_in"@).unwrap()
}

/// Whether `e` is the error document `body`.
pub open spec fn provider_error_of_doc(e: ProviderError, body: Seq<char>) -> bool {
    &&& error_code(body) == Some(e.error@)
    &&& opt_view(e.error_description) == json_text_member(body, "error_description"@)
}

/// What a response body, received at `fetch_time`, is taken to be.
pub open spec fn classified_as(r: Classified, body: Seq<char>, fetch_time: int) -> bool {
    if error_code(body) is Some {
        r matches Classified::Provider(e) && provider_error_of_doc(e, body)
    } else if is_token_doc(body, fetch_time) {
        r matches Classified::Success(t) && token_of_doc(t, body, fetch_time)
    } else {
        r matches Classified::Transport(TransportError::MalformedBody)
    }
}

/// Classifies a response body received at `fetch_time`. An error document is
/// recognised first, whatever token members it also holds; only then is the
/// body read as a token document.
pub fn classify_response(body: &str, fetch_time: i64) -> (r: Classified)
    ensures
        classified_as(r, body@, fetch_time as int),
        error_code(body@) is Some ==> r is Provider,
{
    let error = text_member(body, "error");
    if let Some(code) = error {
        let description = text_member(body, "error_description");
        return Classified::Provider(ProviderError { error: code, error_description: description });
    }
    let access_token = text_member(body, "access_token");
    let token_type = text_member(body, "token_type");
    let expires_in = int_member(body, "expires_in");
    match (access_token, token_type, expires_in) {
        (Some(access_token), Some(token_type), Some(expires_in)) => {
            let refresh_token = text_member(body, "refresh_token");
            match Token::issued(access_token, token_type, refresh_token, fetch_time, expires_in) {
                Some(t) => Classified::Success(t),
                None => Classified::Transport(TransportError::MalformedBody),
            }
        },
        _ => Classified::Transport(TransportError::MalformedBody),
    }
}

} // verus!
