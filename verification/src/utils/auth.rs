use vstd::prelude::*;
use vstd::string::*;

use super::constants::TOKEN_TTL_SECONDS;
use crate::domain::data_stores::{BannedTokenStore, BannedTokenStoreError};
use crate::domain::email::Email;

verus! {

/// What a session token binds: the account it was issued to and the second
/// at which it stops being honoured. The expiry is wider than the clock, so
/// that the expiry of a token issued at any second can be written down.
#[derive(Debug)]
pub struct Claims {
    pub sub: String,
    pub exp: u128,
}

impl Clone for Claims {
    fn clone(&self) -> (r: Self)
        ensures
            r.sub@ == self.sub@,
            r.exp == self.exp,
    {
        Claims { sub: self.sub.clone(), exp: self.exp }
    }
}

impl PartialEq for Claims {
    fn eq(&self, other: &Self) -> (r: bool) {
        self.sub == other.sub && self.exp == other.exp
    }
}

impl vstd::std_specs::cmp::PartialEqSpecImpl for Claims {
    open spec fn obeys_eq_spec() -> bool {
        true
    }

    open spec fn eq_spec(&self, other: &Self) -> bool {
        self.sub@ == other.sub@ && self.exp == other.exp
    }
}

/// A session token as a client presents it: its text, and the claims that
/// the signature check read from it. `claims` is `None` where the text could
/// not be parsed or its signature did not verify.
#[derive(Debug)]
pub struct PresentedToken {
    pub token: String,
    pub claims: Option<Claims>,
}

impl PresentedToken {
    /// The expiry that the signature check read, if it read any.
    pub open spec fn expiry(&self) -> Option<u128> {
        match self.claims {
            Some(claims) => Some(claims.exp),
            None => None,
        }
    }

    /// Whether the token passes the two checks that need no store: its
    /// signature has verified and its expiry instant lies ahead.
    pub open spec fn is_current(&self, now: u64) -> bool {
        self.expiry() matches Some(exp) && now < exp
    }

    /// How the token fares at `now` with a reliable revocation store.
    pub open spec fn status(&self, now: u64, banned: Set<Seq<char>>) -> Result<(), TokenError> {
        token_status(self.token@, self.expiry(), now, banned)
    }
}

/// Why a session token is not honoured.
#[derive(Debug, Clone, Copy, PartialEq, Eq, Structural)]
pub enum TokenError {
    /// The text could not be parsed, or its signature did not verify.
    Malformed,
    /// The expiry instant has passed.
    Expired,
    /// The token has been revoked.
    Revoked,
    /// The revocation store failed.
    UnexpectedError,
}

/// How a token fares with a reliable revocation store: the signature check
/// comes first, then the expiry, then the revoked set. A token is expired
/// from its expiry instant on.
pub open spec fn token_status(
    token: Seq<char>,
    expiry: Option<u128>,
    now: u64,
    banned: Set<Seq<char>>,
) -> Result<(), TokenError> {
    match expiry {
        None => Err(TokenError::Malformed),
        Some(exp) => if exp <= now {
            Err(TokenError::Expired)
        } else if banned.contains(token) {
            Err(TokenError::Revoked)
        } else {
            Ok(())
        },
    }
}

/// What the answer of the revocation store means for a token that has
/// passed the first two checks.
pub open spec fn revocation_verdict(lookup: Result<bool, BannedTokenStoreError>) -> Result<
    (),
    TokenError,
> {
    match lookup {
        Ok(false) => Ok(()),
        Ok(true) => Err(TokenError::Revoked),
        Err(_) => Err(TokenError::UnexpectedError),
    }
}

/// Reads the answer of the revocation store: a token found there is
/// revoked, and a store that fails is reported as such, never as a verdict
/// on the token.
pub fn check_revocation(lookup: Result<bool, BannedTokenStoreError>) -> (r: Result<(), TokenError>)
    ensures
        r == revocation_verdict(lookup),
{
    match lookup {
        Ok(false) => Ok(()),
        Ok(true) => Err(TokenError::Revoked),
        Err(_) => Err(TokenError::UnexpectedError),
    }
}

/// The claims of a session token issued to `email` at `now`: it expires a
/// fixed time after issue.
pub fn generate_auth_claims(email: &Email, now: u64) -> (claims: Claims)
    ensures
        claims.sub@ == email@,
        claims.exp == now + TOKEN_TTL_SECONDS,
{
    let issued: u128 = now as u128;
    let lifetime: u128 = TOKEN_TTL_SECONDS as u128;
    Claims { sub: String::from_str(email.as_ref()), exp: issued + lifetime }
}

/// Decides whether a presented token is honoured at `now`, and hands back
/// its claims if it is. The revoked set is consulted on every call; what it
/// answers counts only where the first two checks pass.
pub fn validate_token<B: BannedTokenStore>(token: &PresentedToken, now: u64, banned: &B) -> (r:
    Result<Claims, TokenError>)
    ensures
        token.expiry() is None ==> r matches Err(TokenError::Malformed),
        token.expiry() matches Some(exp) && exp <= now ==> r matches Err(TokenError::Expired),
        match r {
            Ok(claims) => {
                &&& token.is_current(now)
                &&& token.claims matches Some(read)
                &&& claims.sub@ == read.sub@
                &&& claims.exp == read.exp
            },
            Err(e) => token.is_current(now) ==> e == TokenError::Revoked || e
                == TokenError::UnexpectedError,
        },
        banned.reliable() ==> match r {
            Ok(_) => token.status(now, banned.banned()) is Ok,
            Err(e) => token.status(now, banned.banned()) == Err::<(), TokenError>(e),
        },
{
    let lookup = banned.contains_token(token.token.clone());
    match &token.claims {
        None => Err(TokenError::Malformed),
        Some(claims) => {
            if claims.exp <= now as u128 {
                Err(TokenError::Expired)
            } else {
                match check_revocation(lookup) {
                    Ok(_) => Ok(claims.clone()),
                    Err(e) => Err(e),
                }
            }
        },
    }
}

} // verus!
