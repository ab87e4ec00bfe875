use vstd::prelude::*;
use vstd::string::*;

use super::login::challenges_after_login;
use super::validation::is_implausible_address;
use crate::domain::data_stores::{
    challenge_of, has_live_challenge, is_display_form, is_generated_code, uuid_text, uuid_value,
    Challenge, LoginAttemptId, TwoFACode, TwoFACodeStore, TwoFACodeStoreError,
    TEN_MINUTES_IN_SECONDS,
};
use crate::domain::email::{address_is_implausible, email_is_valid, Email};
use crate::domain::error::AuthAPIError;
use crate::domain::two_fa_code::lemma_generated_code_is_acceptable;
use crate::utils::auth::{generate_auth_claims, Claims};
use crate::utils::constants::TOKEN_TTL_SECONDS;

verus! {

pub struct Verify2FARequest {
    pub email: String,
    pub login_attempt_id: String,
    pub two_fa_code: String,
}

/// How the three texts of an answer fare before the store is consulted. A
/// breach of a plain rule is `InvalidCredentials`: an empty address, one
/// without `@`, an identifier that is no UUID, a code that is not six
/// bytes long. An address that passes those and is still turned down by the
/// validator is `UnprocessableContent`.
pub open spec fn answer_verdict(email: Seq<char>, login_attempt_id: Seq<char>, code: Seq<char>)
    -> Result<(), AuthAPIError> {
    if address_is_implausible(email) || uuid_value(login_attempt_id) is None
        || !TwoFACode::acceptable(code) {
        Err(AuthAPIError::InvalidCredentials)
    } else if !email_is_valid(email) {
        Err(AuthAPIError::UnprocessableContent)
    } else {
        Ok(())
    }
}

/// Whether a well-formed answer names the challenge and its code. The
/// identifier is compared in its display form.
pub open spec fn answer_matches(
    challenge: Challenge,
    login_attempt_id: Seq<char>,
    code: Seq<char>,
) -> bool {
    uuid_value(login_attempt_id) matches Some(v) && challenge.login_attempt_id == uuid_text(v)
        && challenge.code == code
}

/// How the verification of a second factor at `now` ends with a reliable
/// challenge store. A challenge that was never issued, one that was consumed
/// and one that has expired are all reported as `ChallengeNotFound`.
pub open spec fn verify_2fa_outcome(
    challenges: Map<Seq<char>, Challenge>,
    email: Seq<char>,
    login_attempt_id: Seq<char>,
    code: Seq<char>,
    now: u64,
) -> Result<(), AuthAPIError> {
    match answer_verdict(email, login_attempt_id, code) {
        Err(e) => Err(e),
        Ok(_) => if !has_live_challenge(challenges, email, now) {
            Err(AuthAPIError::ChallengeNotFound)
        } else if !answer_matches(challenges[email], login_attempt_id, code) {
            Err(AuthAPIError::IncorrectChallenge)
        } else {
            Ok(())
        },
    }
}

/// The challenges after the verification of a second factor with a reliable
/// challenge store: a successful verification consumes the challenge, any
/// other leaves the store as it was.
pub open spec fn challenges_after_verify_2fa(
    challenges: Map<Seq<char>, Challenge>,
    email: Seq<char>,
    login_attempt_id: Seq<char>,
    code: Seq<char>,
    now: u64,
) -> Map<Seq<char>, Challenge> {
    if verify_2fa_outcome(challenges, email, login_attempt_id, code, now) is Ok {
        challenges.remove(email)
    } else {
        challenges
    }
}

impl Verify2FARequest {
    /// How the request fares before the store is consulted.
    pub open spec fn verdict(&self) -> Result<(), AuthAPIError> {
        answer_verdict(self.email@, self.login_attempt_id@, self.two_fa_code@)
    }

    /// How the request ends at `now` with a reliable challenge store.
    pub open spec fn outcome(&self, challenges: Map<Seq<char>, Challenge>, now: u64) -> Result<
        (),
        AuthAPIError,
    > {
        verify_2fa_outcome(challenges, self.email@, self.login_attempt_id@, self.two_fa_code@, now)
    }

    /// The challenges after the request with a reliable challenge store.
    pub open spec fn challenges_after(
        &self,
        challenges: Map<Seq<char>, Challenge>,
        now: u64,
    ) -> Map<Seq<char>, Challenge> {
        challenges_after_verify_2fa(
            challenges,
            self.email@,
            self.login_attempt_id@,
            self.two_fa_code@,
            now,
        )
    }
}

/// How a failure of the challenge store is reported. A fault of the store
/// is never reported as a missing challenge.
pub open spec fn challenge_failure(e: TwoFACodeStoreError) -> AuthAPIError {
    match e {
        TwoFACodeStoreError::LoginAttemptIdNotFound => AuthAPIError::ChallengeNotFound,
        TwoFACodeStoreError::UnexpectedError => AuthAPIError::UnexpectedError,
    }
}

/// Recodes a failure of the challenge store as `challenge_failure` says.
pub fn recode_challenge_failure(e: TwoFACodeStoreError) -> (r: AuthAPIError)
    ensures
        r == challenge_failure(e),
{
    match e {
        TwoFACodeStoreError::LoginAttemptIdNotFound => AuthAPIError::ChallengeNotFound,
        TwoFACodeStoreError::UnexpectedError => AuthAPIError::UnexpectedError,
    }
}

/// What the answer of the challenge store to the lookup means for a
/// submitted identifier and code: both must equal what is stored.
pub open spec fn lookup_verdict(
    stored: Result<(LoginAttemptId, TwoFACode), TwoFACodeStoreError>,
    login_attempt_id: Seq<char>,
    code: Seq<char>,
) -> Result<(), AuthAPIError> {
    match stored {
        Err(e) => Err(challenge_failure(e)),
        Ok((expected_id, expected_code)) => if expected_id@ == login_attempt_id && expected_code@
            == code {
            Ok(())
        } else {
            Err(AuthAPIError::IncorrectChallenge)
        },
    }
}

/// Compares a submitted identifier and code with the answer of the
/// challenge store, as `lookup_verdict` says.
pub fn lookup_outcome(
    stored: Result<(LoginAttemptId, TwoFACode), TwoFACodeStoreError>,
    login_attempt_id: &LoginAttemptId,
    code: &TwoFACode,
) -> (r: Result<(), AuthAPIError>)
    ensures
        match r {
            Ok(_) => lookup_verdict(stored, login_attempt_id@, code@) is Ok,
            Err(e) => lookup_verdict(stored, login_attempt_id@, code@) == Err::<(), AuthAPIError>(
                e,
            ),
        },
{
    match stored {
        Err(e) => Err(recode_challenge_failure(e)),
        Ok((expected_id, expected_code)) => {
            if expected_id == *login_attempt_id && expected_code == *code {
                Ok(())
            } else {
                Err(AuthAPIError::IncorrectChallenge)
            }
        },
    }
}

/// What the answer of the challenge store to the removal means: the claims
/// are due where the challenge was consumed.
pub fn removal_outcome(removed: Result<(), TwoFACodeStoreError>, claims: Claims) -> (r: Result<
    Claims,
    AuthAPIError,
>)
    ensures
        match r {
            Ok(issued) => removed is Ok && issued == claims,
            Err(e) => removed matches Err(failure) && e == challenge_failure(failure),
        },
{
    match removed {
        Ok(_) => Ok(claims),
        Err(e) => Err(recode_challenge_failure(e)),
    }
}

/// Checks the three texts of an answer as `answer_verdict` says, and hands
/// them back in their checked form.
pub fn parse_answer(request: Verify2FARequest) -> (r: Result<
    (Email, LoginAttemptId, TwoFACode),
    AuthAPIError,
>)
    ensures
        match r {
            Ok((email, login_attempt_id, code)) => {
                &&& request.verdict() is Ok
                &&& email@ == request.email@
                &&& uuid_value(request.login_attempt_id@) matches Some(v)
                &&& login_attempt_id@ == uuid_text(v)
                &&& code@ == request.two_fa_code@
            },
            Err(e) => request.verdict() == Err::<(), AuthAPIError>(e),
        },
{
    if is_implausible_address(request.email.as_str()) {
        return Err(AuthAPIError::InvalidCredentials);
    }
    let login_attempt_id = match LoginAttemptId::parse(request.login_attempt_id) {
        Ok(parsed) => parsed,
        Err(_) => {
            return Err(AuthAPIError::InvalidCredentials);
        },
    };
    let code = match TwoFACode::parse(request.two_fa_code) {
        Ok(parsed) => parsed,
        Err(_) => {
            return Err(AuthAPIError::InvalidCredentials);
        },
    };
    match Email::parse(request.email) {
        Ok(email) => Ok((email, login_attempt_id, code)),
        Err(_) => Err(AuthAPIError::UnprocessableContent),
    }
}

/// Verifies the answer to a second-factor challenge at `now`. The input is
/// checked before the store is touched. A matching answer consumes the
/// challenge and yields the claims of a session token; a mismatch leaves the
/// challenge in place for another try.
pub fn verify_2fa<C: TwoFACodeStore>(challenges: &mut C, request: Verify2FARequest, now: u64) -> (r:
    Result<Claims, AuthAPIError>)
    ensures
        final(challenges).reliable() == old(challenges).reliable(),
        request.verdict() matches Err(e) ==> {
            &&& r matches Err(reported)
            &&& reported == e
            &&& final(challenges).challenges() == old(challenges).challenges()
        },
        match r {
            Ok(claims) => {
                &&& claims.sub@ == request.email@
                &&& claims.exp == now + TOKEN_TTL_SECONDS
            },
            Err(e) => {
                ||| request.verdict() == Err::<(), AuthAPIError>(e)
                ||| e == AuthAPIError::ChallengeNotFound
                ||| e == AuthAPIError::IncorrectChallenge
                ||| e == AuthAPIError::UnexpectedError
            },
        },
        old(challenges).reliable() ==> {
            &&& match r {
                Ok(_) => request.outcome(old(challenges).challenges(), now) is Ok,
                Err(e) => request.outcome(old(challenges).challenges(), now) == Err::<
                    (),
                    AuthAPIError,
                >(e),
            }
            &&& final(challenges).challenges() == request.challenges_after(
                old(challenges).challenges(),
                now,
            )
        },
{
    let (email, login_attempt_id, code) = match parse_answer(request) {
        Ok(parsed) => parsed,
        Err(e) => {
            return Err(e);
        },
    };
    let stored = challenges.get_code(&email, now);
    match lookup_outcome(stored, &login_attempt_id, &code) {
        Ok(_) => {},
        Err(e) => {
            return Err(e);
        },
    }
    let removed = challenges.remove_code(&email, now);
    removal_outcome(removed, generate_auth_claims(&email, now))
}

/// The answer that a login hands out verifies while its challenge is live:
/// the identifier in its display form and a generated code, given back for
/// the address that logged in.
pub proof fn lemma_issued_challenge_verifies(
    challenges: Map<Seq<char>, Challenge>,
    email: Seq<char>,
    login_attempt_id: Seq<char>,
    code: Seq<char>,
    issued_at: u64,
    now: u64,
)
    requires
        Email::accepts(email),
        is_display_form(login_attempt_id),
        is_generated_code(code),
        now < issued_at + TEN_MINUTES_IN_SECONDS,
    ensures
        verify_2fa_outcome(
            challenges_after_login(challenges, email, login_attempt_id, code, issued_at),
            email,
            login_attempt_id,
            code,
            now,
        ) is Ok,
{
    lemma_generated_code_is_acceptable(code);
}

/// An answer that matched the challenge of an earlier login no longer
/// verifies once a later login has stored a challenge that differs from it
/// in identifier or code.
pub proof fn lemma_replaced_challenge_no_longer_verifies(
    challenges: Map<Seq<char>, Challenge>,
    email: Seq<char>,
    old_id: Seq<char>,
    old_code: Seq<char>,
    old_time: u64,
    new_id: Seq<char>,
    new_code: Seq<char>,
    new_time: u64,
    answer_id: Seq<char>,
    answer_code: Seq<char>,
    now: u64,
)
    requires
        answer_matches(challenge_of(old_id, old_code, old_time), answer_id, answer_code),
        old_id != new_id || old_code != new_code,
    ensures
        verify_2fa_outcome(
            challenges_after_login(
                challenges_after_login(challenges, email, old_id, old_code, old_time),
                email,
                new_id,
                new_code,
                new_time,
            ),
            email,
            answer_id,
            answer_code,
            now,
        ) is Err,
{
}

/// A matching answer consumes the challenge: the same answer, given again
/// at any time, finds no challenge.
pub proof fn lemma_challenge_is_single_use(
    challenges: Map<Seq<char>, Challenge>,
    email: Seq<char>,
    login_attempt_id: Seq<char>,
    code: Seq<char>,
    now: u64,
    later: u64,
)
    requires
        verify_2fa_outcome(challenges, email, login_attempt_id, code, now) is Ok,
    ensures
        !challenges_after_verify_2fa(challenges, email, login_attempt_id, code, now).contains_key(
            email,
        ),
        verify_2fa_outcome(
            challenges_after_verify_2fa(challenges, email, login_attempt_id, code, now),
            email,
            login_attempt_id,
            code,
            later,
        ) == Err::<(), AuthAPIError>(AuthAPIError::ChallengeNotFound),
{
}

/// An answer that fails leaves the challenge in place: the matching answer
/// still succeeds afterwards, as long as the challenge is live. A well-formed
/// answer with another code fails as `IncorrectChallenge`.
pub proof fn lemma_failed_answer_keeps_challenge(
    challenges: Map<Seq<char>, Challenge>,
    email: Seq<char>,
    login_attempt_id: Seq<char>,
    code: Seq<char>,
    wrong_code: Seq<char>,
    now: u64,
    later: u64,
)
    requires
        verify_2fa_outcome(challenges, email, login_attempt_id, code, later) is Ok,
        has_live_challenge(challenges, email, now),
        wrong_code != code,
    ensures
        verify_2fa_outcome(challenges, email, login_attempt_id, wrong_code, now) is Err,
        TwoFACode::acceptable(wrong_code) ==> verify_2fa_outcome(
            challenges,
            email,
            login_attempt_id,
            wrong_code,
            now,
        ) == Err::<(), AuthAPIError>(AuthAPIError::IncorrectChallenge),
        challenges_after_verify_2fa(challenges, email, login_attempt_id, wrong_code, now)
            == challenges,
        verify_2fa_outcome(
            challenges_after_verify_2fa(challenges, email, login_attempt_id, wrong_code, now),
            email,
            login_attempt_id,
            code,
            later,
        ) is Ok,
{
}

/// Ten minutes after it was stored a challenge is gone: every answer fares
/// exactly as it would had the challenge never been issued, and a
/// well-formed one finds no challenge.
pub proof fn lemma_expired_challenge_is_as_absent(
    challenges: Map<Seq<char>, Challenge>,
    email: Seq<char>,
    login_attempt_id: Seq<char>,
    code: Seq<char>,
    now: u64,
)
    requires
        challenges.contains_key(email),
        now >= challenges[email].issued_at + TEN_MINUTES_IN_SECONDS,
    ensures
        !has_live_challenge(challenges, email, now),
        verify_2fa_outcome(challenges, email, login_attempt_id, code, now) == verify_2fa_outcome(
            challenges.remove(email),
            email,
            login_attempt_id,
            code,
            now,
        ),
        answer_verdict(email, login_attempt_id, code) is Ok ==> verify_2fa_outcome(
            challenges,
            email,
            login_attempt_id,
            code,
            now,
        ) == Err::<(), AuthAPIError>(AuthAPIError::ChallengeNotFound),
{
}

} // verus!
