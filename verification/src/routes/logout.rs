use vstd::prelude::*;

use crate::domain::data_stores::{BannedTokenStore, BannedTokenStoreError};
use crate::domain::error::AuthAPIError;
use crate::utils::auth::{token_status, validate_token, PresentedToken, TokenError};

verus! {

/// How a logout ends with a reliable revocation store. `expiry` is what the
/// signature check read from the token, where a token was presented and the
/// check passed.
pub open spec fn logout_outcome(
    token: Option<Seq<char>>,
    expiry: Option<u128>,
    now: u64,
    banned: Set<Seq<char>>,
) -> Result<(), AuthAPIError> {
    match token {
        None => Err(AuthAPIError::MissingToken),
        Some(text) => if token_status(text, expiry, now, banned) is Ok {
            Ok(())
        } else {
            Err(AuthAPIError::InvalidToken)
        },
    }
}

/// The revoked set after a logout with a reliable revocation store: a
/// successful logout adds the token, any other leaves the set as it was.
pub open spec fn banned_after_logout(
    token: Option<Seq<char>>,
    expiry: Option<u128>,
    now: u64,
    banned: Set<Seq<char>>,
) -> Set<Seq<char>> {
    match token {
        Some(text) => if logout_outcome(token, expiry, now, banned) is Ok {
            banned.insert(text)
        } else {
            banned
        },
        None => banned,
    }
}

/// How the logout of a presented token, or of none, ends with a reliable
/// revocation store.
pub open spec fn presented_outcome(token: Option<PresentedToken>, now: u64, banned: Set<Seq<char>>)
    -> Result<(), AuthAPIError> {
    match token {
        Some(presented) => logout_outcome(Some(presented.token@), presented.expiry(), now, banned),
        None => logout_outcome(None, None, now, banned),
    }
}

/// The revoked set after the logout of a presented token, or of none, with a
/// reliable revocation store.
pub open spec fn banned_after_presented(
    token: Option<PresentedToken>,
    now: u64,
    banned: Set<Seq<char>>,
) -> Set<Seq<char>> {
    match token {
        Some(presented) => banned_after_logout(
            Some(presented.token@),
            presented.expiry(),
            now,
            banned,
        ),
        None => banned,
    }
}

/// How a token that is not honoured is reported by logout: malformed,
/// expired and revoked tokens are all invalid; a fault of the store is
/// reported as one.
pub open spec fn token_failure(e: TokenError) -> AuthAPIError {
    match e {
        TokenError::UnexpectedError => AuthAPIError::UnexpectedError,
        _ => AuthAPIError::InvalidToken,
    }
}

/// Recodes a failed validation as `token_failure` says.
pub fn recode_token_failure(e: TokenError) -> (r: AuthAPIError)
    ensures
        r == token_failure(e),
{
    match e {
        TokenError::UnexpectedError => AuthAPIError::UnexpectedError,
        _ => AuthAPIError::InvalidToken,
    }
}

/// How a failure of the revocation store to revoke a token is reported. A
/// token that another logout revoked in the meantime is invalid like any
/// other.
pub open spec fn revocation_failure(e: BannedTokenStoreError) -> AuthAPIError {
    match e {
        BannedTokenStoreError::UnexpectedError => AuthAPIError::UnexpectedError,
        _ => AuthAPIError::InvalidToken,
    }
}

/// Recodes what the revocation store answered when asked to revoke a token.
pub fn logout_response(revoked: Result<(), BannedTokenStoreError>) -> (r: Result<
    (),
    AuthAPIError,
>)
    ensures
        match r {
            Ok(_) => revoked is Ok,
            Err(e) => revoked matches Err(failure) && e == revocation_failure(failure),
        },
{
    match revoked {
        Ok(_) => Ok(()),
        Err(BannedTokenStoreError::UnexpectedError) => Err(AuthAPIError::UnexpectedError),
        Err(_) => Err(AuthAPIError::InvalidToken),
    }
}

/// Ends a session at `now`. The token must be present and still honoured; it
/// is then revoked. A token that turns out to be revoked already is refused
/// like any other invalid token. With a reliable store nothing ever leaves
/// the revoked set.
pub fn logout<B: BannedTokenStore>(banned: &mut B, token: Option<PresentedToken>, now: u64) -> (r:
    Result<(), AuthAPIError>)
    ensures
        final(banned).reliable() == old(banned).reliable(),
        token is None ==> {
            &&& r matches Err(AuthAPIError::MissingToken)
            &&& final(banned).banned() == old(banned).banned()
        },
        token matches Some(presented) && !presented.is_current(now) ==> {
            &&& r matches Err(AuthAPIError::InvalidToken)
            &&& final(banned).banned() == old(banned).banned()
        },
        r matches Err(e) ==> {
            ||| e == AuthAPIError::MissingToken && token is None
            ||| e == AuthAPIError::InvalidToken && token is Some
            ||| e == AuthAPIError::UnexpectedError && token is Some
        },
        old(banned).reliable() ==> {
            &&& match r {
                Ok(_) => presented_outcome(token, now, old(banned).banned()) is Ok,
                Err(e) => presented_outcome(token, now, old(banned).banned()) == Err::<
                    (),
                    AuthAPIError,
                >(e),
            }
            &&& final(banned).banned() == banned_after_presented(token, now, old(banned).banned())
            &&& old(banned).banned().subset_of(final(banned).banned())
        },
{
    let presented = match token {
        Some(presented) => presented,
        None => {
            return Err(AuthAPIError::MissingToken);
        },
    };
    match validate_token(&presented, now, &*banned) {
        Ok(_) => {},
        Err(e) => {
            return Err(recode_token_failure(e));
        },
    }
    logout_response(banned.add_token(presented.token))
}

/// A token that is honoured can be logged out once. From then on a logout
/// with the same token is refused as invalid, and until the token expires
/// its validation fails because it is revoked.
pub proof fn lemma_logout_succeeds_exactly_once(
    token: Seq<char>,
    expiry: Option<u128>,
    now: u64,
    later: u64,
    banned: Set<Seq<char>>,
)
    requires
        token_status(token, expiry, now, banned) is Ok,
    ensures
        logout_outcome(Some(token), expiry, now, banned) is Ok,
        banned_after_logout(Some(token), expiry, now, banned) == banned.insert(token),
        logout_outcome(
            Some(token),
            expiry,
            later,
            banned_after_logout(Some(token), expiry, now, banned),
        ) == Err::<(), AuthAPIError>(AuthAPIError::InvalidToken),
        expiry matches Some(exp) && later < exp ==> token_status(
            token,
            expiry,
            later,
            banned_after_logout(Some(token), expiry, now, banned),
        ) == Err::<(), TokenError>(TokenError::Revoked),
{
}

/// A logout without a token is refused as `MissingToken`. A token that fails
/// the signature check is classed as malformed by validation and refused as
/// invalid by logout; neither changes the revoked set.
pub proof fn lemma_missing_and_malformed_tokens(
    token: Seq<char>,
    expiry: Option<u128>,
    now: u64,
    banned: Set<Seq<char>>,
)
    ensures
        logout_outcome(None, expiry, now, banned) == Err::<(), AuthAPIError>(
            AuthAPIError::MissingToken,
        ),
        banned_after_logout(None, expiry, now, banned) == banned,
        token_status(token, None, now, banned) == Err::<(), TokenError>(TokenError::Malformed),
        logout_outcome(Some(token), None, now, banned) == Err::<(), AuthAPIError>(
            AuthAPIError::InvalidToken,
        ),
        banned_after_logout(Some(token), None, now, banned) == banned,
{
}

} // verus!
