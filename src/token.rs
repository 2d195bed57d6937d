//! The access token and its validity window.
use vstd::prelude::*;

verus! {

/// Seconds before `expiry` from which a token is treated as expired, to stay
/// clear of clock skew against the provider.
pub const EXPIRY_MARGIN: i64 = 10;

/// An access credential. `expiry` is an absolute time in seconds since the
/// epoch, fixed when the token was received.
pub struct Token {
    pub access_token: String,
    pub token_type: String,
    pub refresh_token: Option<String>,
    pub expiry: i64,
}

impl Token {
    /// Whether the token may be used at time `now`.
    pub open spec fn valid_at(&self, now: int) -> bool {
        now < self.expiry - EXPIRY_MARGIN
    }

    /// A token received at `fetch_time` that lives `expires_in` seconds, or
    /// `None` where its expiry does not fit in an `i64`.
    pub fn issued(
        access_token: String,
        token_type: String,
        refresh_token: Option<String>,
        fetch_time: i64,
        expires_in: i64,
    ) -> (r: Option<Token>)
        ensures
            match r {
                Some(t) => t == (Token {
                    access_token,
                    token_type,
                    refresh_token,
                    expiry: (fetch_time + expires_in) as i64,
                }),
                None => !(i64::MIN <= fetch_time + expires_in <= i64::MAX),
            },
            r is Some <==> i64::MIN <= fetch_time + expires_in <= i64::MAX,
    {
        match fetch_time.checked_add(expires_in) {
            Some(expiry) => Some(Token { access_token, token_type, refresh_token, expiry }),
            None => None,
        }
    }

    /// Whether the token may be used at time `now`: a valid token is not to be
    /// refreshed, an invalid one is.
    pub fn is_valid(&self, now: i64) -> (r: bool)
        ensures
            r == self.valid_at(now as int),
    {
        if self.expiry < i64::MIN + EXPIRY_MARGIN {
            false
        } else {
            now < self.expiry - EXPIRY_MARGIN
        }
    }

    /// A copy of the token.
    pub fn duplicate(&self) -> (r: Token)
        ensures
            r == *self,
    {
        let refresh_token = match &self.refresh_token {
            Some(s) => Some(s.clone()),
            None => None,
        };
        Token {
            access_token: self.access_token.clone(),
            token_type: self.token_type.clone(),
            refresh_token,
            expiry: self.expiry,
        }
    }
}

/// A token received at `fetch_time` with `expires_in` seconds to live expires
/// at `fetch_time + expires_in`; it is valid from `fetch_time` on for as long as
/// the margin leaves, and invalid from `fetch_time + expires_in - EXPIRY_MARGIN`.
pub proof fn lemma_issued_validity(t: Token, fetch_time: i64, expires_in: i64, now: int)
    requires
        t.expiry == fetch_time + expires_in,
        expires_in > EXPIRY_MARGIN,
    ensures
        t.valid_at(fetch_time as int),
        now >= fetch_time + expires_in - EXPIRY_MARGIN ==> !t.valid_at(now),
        fetch_time <= now < fetch_time + expires_in - EXPIRY_MARGIN ==> t.valid_at(now),
{
}

} // verus!
