//! The refresh-token exchange.
use vstd::prelude::*;
use crate::classify::{
    classify_response, error_code, is_token_doc, Classified, ProviderError, TransportError,
};
use crate::json::{encode_form, form_encoded, json_int_member, json_text_member, opt_view};
use crate::secret::ApplicationSecret;
use crate::token::Token;

verus! {

/// Exchanges a refresh token for a new access token.
pub struct RefreshFlow;

/// All possible outcomes of the refresh flow.
pub enum RefreshResult {
    /// The exchange failed before an answer could be read; it may be retried.
    Error(TransportError),
    /// The provider refused, with its error code and description; the refresh
    /// token is not to be used again.
    RefreshError(String, Option<String>),
    /// The new token.
    Success(Token),
}

/// The form fields of a refresh request, in order.
pub open spec fn refresh_form(
    client_id: Seq<char>,
    client_secret: Seq<char>,
    refresh_token: Seq<char>,
) -> Seq<(Seq<char>, Seq<char>)> {
    seq![
        ("client_id"@, client_id),
        ("client_secret"@, client_secret),
        ("refresh_token"@, refresh_token),
        ("grant_type"@, "refresh_token"@),
    ]
}

/// The refresh token of a new token: the provider's, or else the one that was
/// sent.
pub open spec fn next_refresh_token(body: Seq<char>, sent: Seq<char>) -> Seq<char> {
    match json_text_member(body, "refresh_token"@) {
        Some(n) => n,
        None => sent,
    }
}

/// What the answer `body` to a refresh with `sent`, received at `fetch_time`,
/// comes to.
pub open spec fn refresh_outcome(r: RefreshResult, body: Seq<char>, sent: Seq<char>, fetch_time: int) -> bool {
    if error_code(body) is Some {
        &&& r matches RefreshResult::RefreshError(code, description)
        &&& error_code(body) == Some(code@)
        &&& opt_view(description) == json_text_member(body, "error_description"@)
    } else if is_token_doc(body, fetch_time) {
        &&& r matches RefreshResult::Success(t)
        &&& Some(t.access_token@) == json_text_member(body, "access_token"@)
        &&& Some(t.token_type@) == json_text_member(body, "token_type"@)
        &&& opt_view(t.refresh_token) == Some(next_refresh_token(body, sent))
        &&& t.expiry == fetch_time + json_int_member(body, "expires_in"@).unwrap()
    } else {
        r matches RefreshResult::Error(TransportError::MalformedBody)
    }
}

impl RefreshFlow {
    /// The form-encoded body of the POST to the token endpoint.
    pub fn request_body(client_secret: &ApplicationSecret, refresh_token: &String) -> (r: String)
        ensures
            r@ == form_encoded(
                refresh_form(client_secret.client_id@, client_secret.client_secret@, refresh_token@),
            ),
    {
        let pairs: Vec<(String, String)> = vec![
            (String::from_str("client_id"), client_secret.client_id.clone()),
            (String::from_str("client_secret"), client_secret.client_secret.clone()),
            (String::from_str("refresh_token"), refresh_token.clone()),
            (String::from_str("grant_type"), String::from_str("refresh_token")),
        ];
        proof {
            assert(crate::json::pair_views(pairs@) =~= refresh_form(
                client_secret.client_id@,
                client_secret.client_secret@,
                refresh_token@,
            ));
        }
        encode_form(&pairs)
    }

    /// Turns the answer to a refresh request into its outcome. `response` is the
    /// body, or the failure of the exchange; `fetch_time` is when it arrived.
    /// A new token keeps `refresh_token` where the provider sends none.
    pub fn refresh_token(
        response: Result<String, TransportError>,
        refresh_token: String,
        fetch_time: i64,
    ) -> (r: RefreshResult)
        ensures
            response matches Err(e) ==> r == RefreshResult::Error(e),
            response matches Ok(body) ==> refresh_outcome(r, body@, refresh_token@, fetch_time as int),
    {
        let body = match response {
            Err(e) => return RefreshResult::Error(e),
            Ok(body) => body,
        };
        match classify_response(body.as_str(), fetch_time) {
            Classified::Provider(ProviderError { error, error_description }) => {
                RefreshResult::RefreshError(error, error_description)
            },
            Classified::Success(t) => {
                let refresh = match t.refresh_token {
                    Some(n) => n,
                    None => refresh_token,
                };
                RefreshResult::Success(Token {
                    access_token: t.access_token,
                    token_type: t.token_type,
                    refresh_token: Some(refresh),
                    expiry: t.expiry,
                })
            },
            Classified::Transport(e) => RefreshResult::Error(e),
        }
    }
}

} // verus!
