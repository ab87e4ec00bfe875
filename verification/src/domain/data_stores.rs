use vstd::prelude::*;

use super::email::Email;
use super::password::Password;
use super::user::{Account, User};

pub use super::login_attempt_id::{is_display_form, uuid_text, uuid_value, LoginAttemptId};
pub use super::two_fa_code::{is_generated_code, TwoFACode};

verus! {

/// Seconds for which a second-factor challenge stays live after it is stored.
pub const TEN_MINUTES_IN_SECONDS: u64 = 600;

#[derive(Debug, Clone, Copy, PartialEq, Eq, Structural)]
pub enum UserStoreError {
    UserAlreadyExists,
    UserNotFound,
    InvalidCredentials,
    UnexpectedError,
}

/// What `validate_user` answers where the store is reliable.
pub open spec fn validation_result(
    accounts: Map<Seq<char>, Account>,
    email: Seq<char>,
    password: Seq<char>,
) -> Result<(), UserStoreError> {
    if !accounts.contains_key(email) {
        Err(UserStoreError::UserNotFound)
    } else if accounts[email].password != password {
        Err(UserStoreError::InvalidCredentials)
    } else {
        Ok(())
    }
}

/// The registered accounts, at most one per e-mail address.
///
/// A store is reliable where it keeps what it is given, is changed by
/// nobody else and always answers: it then behaves as `accounts()` says and
/// never reports `UnexpectedError`. Of any other store, such as a remote one
/// that can lose its connection, the contracts below assume nothing.
pub trait UserStore {
    /// The accounts held, by e-mail address.
    open spec fn accounts(&self) -> Map<Seq<char>, Account> {
        Map::empty()
    }

    /// Whether the store behaves as `accounts()` says. A store that does not
    /// say so is taken not to.
    open spec fn reliable(&self) -> bool {
        false
    }

    /// Files a new account. An address that is already registered is
    /// refused, and the store stays as it was.
    fn add_user(&mut self, user: User) -> (r: Result<(), UserStoreError>)
        ensures
            final(self).reliable() == old(self).reliable(),
            old(self).reliable() ==> if old(self).accounts().contains_key(user.email@) {
                &&& r == Err::<(), UserStoreError>(UserStoreError::UserAlreadyExists)
                &&& final(self).accounts() == old(self).accounts()
            } else {
                &&& r is Ok
                &&& final(self).accounts() == old(self).accounts().insert(
                    user.email@,
                    user.account(),
                )
            },
    ;

    /// Looks an account up by its address.
    fn get_user(&self, email: &Email) -> (r: Result<User, UserStoreError>)
        ensures
            self.reliable() ==> match r {
                Ok(user) => {
                    &&& self.accounts().contains_key(email@)
                    &&& user.email@ == email@
                    &&& user.account() == self.accounts()[email@]
                },
                Err(e) => e == UserStoreError::UserNotFound && !self.accounts().contains_key(
                    email@,
                ),
            },
    ;

    /// Checks a candidate password against the account filed under the
    /// address.
    fn validate_user(&self, email: &Email, password: &Password) -> (r: Result<
        (),
        UserStoreError,
    >)
        ensures
            self.reliable() ==> r == validation_result(self.accounts(), email@, password@),
    ;
}

#[derive(Debug, Clone, Copy, PartialEq, Eq, Structural)]
pub enum BannedTokenStoreError {
    TokenAlreadyBanned,
    InvalidToken,
    UnexpectedError,
}

/// The session tokens that must no longer be honoured. Tokens are only ever
/// added.
///
/// A store is reliable where it keeps what it is given, is changed by
/// nobody else and always answers: it then behaves as `banned()` says and
/// never reports `UnexpectedError`. Of any other store the contracts below
/// assume nothing.
pub trait BannedTokenStore {
    /// The revoked tokens, each in its text form.
    open spec fn banned(&self) -> Set<Seq<char>> {
        Set::empty()
    }

    /// Whether the store behaves as `banned()` says. A store that does not
    /// say so is taken not to.
    open spec fn reliable(&self) -> bool {
        false
    }

    /// Revokes a token. One that is revoked already is reported as such, and
    /// the set stays as it was.
    fn add_token(&mut self, token: String) -> (r: Result<(), BannedTokenStoreError>)
        ensures
            final(self).reliable() == old(self).reliable(),
            old(self).reliable() ==> if old(self).banned().contains(token@) {
                &&& r == Err::<(), BannedTokenStoreError>(
                    BannedTokenStoreError::TokenAlreadyBanned,
                )
                &&& final(self).banned() == old(self).banned()
            } else {
                &&& r is Ok
                &&& final(self).banned() == old(self).banned().insert(token@)
            },
    ;

    /// Whether a token has been revoked.
    fn contains_token(&self, token: String) -> (r: Result<bool, BannedTokenStoreError>)
        ensures
            self.reliable() ==> r == Ok::<bool, BannedTokenStoreError>(
                self.banned().contains(token@),
            ),
    ;
}

#[derive(Debug, Clone, Copy, PartialEq, Eq, Structural)]
pub enum TwoFACodeStoreError {
    LoginAttemptIdNotFound,
    UnexpectedError,
}

/// One outstanding second-factor challenge, as the store remembers it.
pub struct Challenge {
    pub login_attempt_id: Seq<char>,
    pub code: Seq<char>,
    /// The second at which the challenge was stored.
    pub issued_at: u64,
}

/// The challenge that `add_code` files.
pub open spec fn challenge_of(login_attempt_id: Seq<char>, code: Seq<char>, issued_at: u64)
    -> Challenge {
    Challenge { login_attempt_id, code, issued_at }
}

/// A challenge is live for ten minutes from the second it was stored.
pub open spec fn challenge_is_live(challenge: Challenge, now: u64) -> bool {
    now < challenge.issued_at + TEN_MINUTES_IN_SECONDS
}

/// Whether an address has a challenge that is live at `now`.
pub open spec fn has_live_challenge(
    challenges: Map<Seq<char>, Challenge>,
    email: Seq<char>,
    now: u64,
) -> bool {
    challenges.contains_key(email) && challenge_is_live(challenges[email], now)
}

/// The second-factor challenges, at most one per e-mail address. A challenge
/// that is older than ten minutes counts as absent.
///
/// A store is reliable where it keeps what it is given, is changed by
/// nobody else and always answers: it then behaves as `challenges()` says
/// and never reports `UnexpectedError`. Of any other store the contracts
/// below assume nothing.
pub trait TwoFACodeStore {
    /// The challenges remembered, by e-mail address, expired ones included.
    open spec fn challenges(&self) -> Map<Seq<char>, Challenge> {
        Map::empty()
    }

    /// Whether the store behaves as `challenges()` says. A store that does
    /// not say so is taken not to.
    open spec fn reliable(&self) -> bool {
        false
    }

    /// Files a challenge issued at `now` in place of any earlier one for the
    /// address.
    fn add_code(
        &mut self,
        email: Email,
        login_attempt_id: LoginAttemptId,
        code: TwoFACode,
        now: u64,
    ) -> (r: Result<(), TwoFACodeStoreError>)
        ensures
            final(self).reliable() == old(self).reliable(),
            old(self).reliable() ==> {
                &&& r is Ok
                &&& final(self).challenges() == old(self).challenges().insert(
                    email@,
                    challenge_of(login_attempt_id@, code@, now),
                )
            },
    ;

    /// The challenge of the address, if one is live at `now`.
    fn get_code(&self, email: &Email, now: u64) -> (r: Result<
        (LoginAttemptId, TwoFACode),
        TwoFACodeStoreError,
    >)
        ensures
            self.reliable() ==> match r {
                Ok((login_attempt_id, code)) => {
                    &&& has_live_challenge(self.challenges(), email@, now)
                    &&& login_attempt_id@ == self.challenges()[email@].login_attempt_id
                    &&& code@ == self.challenges()[email@].code
                },
                Err(e) => {
                    &&& e == TwoFACodeStoreError::LoginAttemptIdNotFound
                    &&& !has_live_challenge(self.challenges(), email@, now)
                },
            },
    ;

    /// Forgets the challenge of the address. Succeeds exactly when one was
    /// live at `now`; otherwise there was nothing to consume.
    fn remove_code(&mut self, email: &Email, now: u64) -> (r: Result<(), TwoFACodeStoreError>)
        ensures
            final(self).reliable() == old(self).reliable(),
            old(self).reliable() ==> {
                &&& final(self).challenges() == old(self).challenges().remove(email@)
                &&& r == if has_live_challenge(old(self).challenges(), email@, now) {
                    Ok::<(), TwoFACodeStoreError>(())
                } else {
                    Err::<(), TwoFACodeStoreError>(TwoFACodeStoreError::LoginAttemptIdNotFound)
                }
            },
    ;
}

} // verus!
