use vstd::prelude::*;

use crate::domain::data_stores::BannedTokenStore;
use crate::utils::auth::{validate_token, Claims, PresentedToken, TokenError};

verus! {

/// The body of a request to validate a session token.
pub struct VerifyTokenRequest {
    pub token: String,
}

impl VerifyTokenRequest {
    /// The token of the request together with the claims that the signature
    /// check read from it.
    pub fn present(self, claims: Option<Claims>) -> (presented: PresentedToken)
        ensures
            presented.token@ == self.token@,
            presented.claims == claims,
    {
        PresentedToken { token: self.token, claims }
    }
}

/// Says whether a presented session token is honoured at `now`, and if not,
/// on which of the three checks it fails.
pub fn verify_token<B: BannedTokenStore>(token: &PresentedToken, now: u64, banned: &B) -> (r:
    Result<(), TokenError>)
    ensures
        token.expiry() is None ==> r matches Err(TokenError::Malformed),
        token.expiry() matches Some(exp) && exp <= now ==> r matches Err(TokenError::Expired),
        match r {
            Ok(_) => token.is_current(now),
            Err(e) => token.is_current(now) ==> e == TokenError::Revoked || e
                == TokenError::UnexpectedError,
        },
        banned.reliable() ==> match r {
            Ok(_) => token.status(now, banned.banned()) is Ok,
            Err(e) => token.status(now, banned.banned()) == Err::<(), TokenError>(e),
        },
{
    match validate_token(token, now, banned) {
        Ok(_) => Ok(()),
        Err(e) => Err(e),
    }
}

} // verus!
