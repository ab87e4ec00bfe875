use vstd::prelude::*;
use vstd::string::*;

use super::validation::{credentials_verdict, parse_credentials};
use crate::domain::data_stores::{
    challenge_of, has_live_challenge, is_display_form, is_generated_code, validation_result,
    Challenge, LoginAttemptId, TwoFACode, TwoFACodeStore, TwoFACodeStoreError, UserStore,
    UserStoreError,
};
use crate::domain::email::Email;
use crate::domain::error::AuthAPIError;
use crate::domain::password::Password;
use crate::domain::two_fa_code::lemma_generated_code_is_acceptable;
use crate::domain::user::{Account, User};
use crate::utils::auth::{generate_auth_claims, Claims};
use crate::utils::constants::TOKEN_TTL_SECONDS;

verus! {

pub struct LoginRequest {
    pub email: String,
    pub password: String,
}

/// What the caller is told when the password alone was enough.
#[derive(Debug)]
pub struct LoginResponse {
    pub message: String,
}

impl PartialEq for LoginResponse {
    fn eq(&self, other: &Self) -> (r: bool) {
        self.message == other.message
    }
}

impl vstd::std_specs::cmp::PartialEqSpecImpl for LoginResponse {
    open spec fn obeys_eq_spec() -> bool {
        true
    }

    open spec fn eq_spec(&self, other: &Self) -> bool {
        self.message@ == other.message@
    }
}

/// What the caller is told when a second factor is awaited. It names the
/// login attempt and never the code.
#[derive(Debug)]
pub struct TwoFactorAuthResponse {
    pub message: String,
    pub login_attempt_id: String,
}

impl PartialEq for TwoFactorAuthResponse {
    fn eq(&self, other: &Self) -> (r: bool) {
        self.message == other.message && self.login_attempt_id == other.login_attempt_id
    }
}

impl vstd::std_specs::cmp::PartialEqSpecImpl for TwoFactorAuthResponse {
    open spec fn obeys_eq_spec() -> bool {
        true
    }

    open spec fn eq_spec(&self, other: &Self) -> bool {
        self.message@ == other.message@ && self.login_attempt_id@ == other.login_attempt_id@
    }
}

/// How a login that was not refused ends.
#[derive(Debug)]
#[allow(inconsistent_fields)]
pub enum LoginOutcome {
    /// The password was enough: a session token with these claims is due.
    Authenticated { response: LoginResponse, claims: Claims },
    /// A challenge is stored and awaits its answer. The code goes to
    /// `recipient` by another channel, never into the response.
    SecondFactorRequired { response: TwoFactorAuthResponse, recipient: Email, code: TwoFACode },
}

/// Where a login attempt ends up.
pub enum LoginVerdict {
    Refused(AuthAPIError),
    Authenticated,
    SecondFactorRequired,
}

/// How a login ends with a reliable account store. An unknown address and
/// a wrong password are refused alike.
pub open spec fn login_verdict(
    accounts: Map<Seq<char>, Account>,
    email: Seq<char>,
    password: Seq<char>,
) -> LoginVerdict {
    match credentials_verdict(email, password) {
        Err(e) => LoginVerdict::Refused(e),
        Ok(_) => if validation_result(accounts, email, password) is Err {
            LoginVerdict::Refused(AuthAPIError::IncorrectCredentials)
        } else if accounts[email].requires_2fa {
            LoginVerdict::SecondFactorRequired
        } else {
            LoginVerdict::Authenticated
        },
    }
}

impl LoginRequest {
    /// How the request fares before any store is consulted.
    pub open spec fn verdict(&self) -> Result<(), AuthAPIError> {
        credentials_verdict(self.email@, self.password@)
    }

    /// How the request ends with a reliable account store.
    pub open spec fn outcome(&self, accounts: Map<Seq<char>, Account>) -> LoginVerdict {
        login_verdict(accounts, self.email@, self.password@)
    }
}

/// The challenges after a login attempt that reached the second-factor
/// stage with the given fresh identifier and code: the new challenge stands
/// in place of any earlier one for the address.
pub open spec fn challenges_after_login(
    challenges: Map<Seq<char>, Challenge>,
    email: Seq<char>,
    login_attempt_id: Seq<char>,
    code: Seq<char>,
    now: u64,
) -> Map<Seq<char>, Challenge> {
    challenges.insert(email, challenge_of(login_attempt_id, code, now))
}

/// How a failure of the account store to confirm a login is reported. An
/// unknown address and a wrong password are not told apart; a fault of the
/// store is never reported as either.
pub open spec fn login_failure(e: UserStoreError) -> AuthAPIError {
    match e {
        UserStoreError::UserNotFound => AuthAPIError::IncorrectCredentials,
        UserStoreError::InvalidCredentials => AuthAPIError::IncorrectCredentials,
        _ => AuthAPIError::UnexpectedError,
    }
}

/// Recodes a failure of the account store as `login_failure` says.
pub fn recode_login_failure(e: UserStoreError) -> (r: AuthAPIError)
    ensures
        r == login_failure(e),
{
    match e {
        UserStoreError::UserNotFound => AuthAPIError::IncorrectCredentials,
        UserStoreError::InvalidCredentials => AuthAPIError::IncorrectCredentials,
        _ => AuthAPIError::UnexpectedError,
    }
}

/// What the two answers of the account store mean for a login: whether the
/// account asks for a second factor, or why the login is refused. The
/// lookup counts only where the password was confirmed.
pub open spec fn authentication_verdict(
    validated: Result<(), UserStoreError>,
    looked_up: Result<User, UserStoreError>,
) -> Result<bool, AuthAPIError> {
    match validated {
        Err(e) => Err(login_failure(e)),
        Ok(_) => match looked_up {
            Ok(user) => Ok(user.requires_2fa),
            Err(e) => Err(login_failure(e)),
        },
    }
}

/// Reads the two answers of the account store as `authentication_verdict`
/// says. A store that fails is reported as `UnexpectedError`, never as wrong
/// credentials.
pub fn authentication_outcome(
    validated: Result<(), UserStoreError>,
    looked_up: Result<User, UserStoreError>,
) -> (r: Result<bool, AuthAPIError>)
    ensures
        r == authentication_verdict(validated, looked_up),
{
    match validated {
        Err(e) => Err(recode_login_failure(e)),
        Ok(_) => match looked_up {
            Ok(user) => Ok(user.requires_2fa),
            Err(e) => Err(recode_login_failure(e)),
        },
    }
}

/// Reads the answer of the challenge store to the filing of a challenge.
/// Where the challenge is filed, the caller is told the identifier and the
/// code goes to `recipient`; a store that fails is reported as
/// `UnexpectedError`.
pub fn second_factor_outcome(
    filed: Result<(), TwoFACodeStoreError>,
    login_attempt_id: String,
    recipient: Email,
    code: TwoFACode,
) -> (r: Result<LoginOutcome, AuthAPIError>)
    ensures
        match r {
            Ok(LoginOutcome::SecondFactorRequired { response, recipient: to, code: sent }) => {
                &&& filed is Ok
                &&& response.message@ == "2FA required"@
                &&& response.login_attempt_id == login_attempt_id
                &&& to == recipient
                &&& sent == code
            },
            Ok(_) => false,
            Err(e) => filed is Err && e == AuthAPIError::UnexpectedError,
        },
{
    match filed {
        Ok(_) => Ok(
            LoginOutcome::SecondFactorRequired {
                response: TwoFactorAuthResponse {
                    message: String::from_str("2FA required"),
                    login_attempt_id,
                },
                recipient,
                code,
            },
        ),
        Err(_) => Err(AuthAPIError::UnexpectedError),
    }
}

/// Stores a challenge with the given identifier and code for the address, in
/// place of any earlier one, and tells the caller the identifier only. A
/// store that fails is reported as `UnexpectedError`.
pub fn begin_second_factor<C: TwoFACodeStore>(
    challenges: &mut C,
    email: Email,
    login_attempt_id: LoginAttemptId,
    code: TwoFACode,
    now: u64,
) -> (r: Result<LoginOutcome, AuthAPIError>)
    ensures
        final(challenges).reliable() == old(challenges).reliable(),
        match r {
            Ok(LoginOutcome::SecondFactorRequired { response, recipient, code: sent }) => {
                &&& response.message@ == "2FA required"@
                &&& response.login_attempt_id@ == login_attempt_id@
                &&& recipient@ == email@
                &&& sent@ == code@
            },
            Ok(_) => false,
            Err(e) => e == AuthAPIError::UnexpectedError,
        },
        old(challenges).reliable() ==> {
            &&& r is Ok
            &&& final(challenges).challenges() == challenges_after_login(
                old(challenges).challenges(),
                email@,
                login_attempt_id@,
                code@,
                now,
            )
        },
{
    let recipient = email.clone();
    let sent = code.clone();
    let shown = String::from_str(login_attempt_id.as_ref());
    let filed = challenges.add_code(email, login_attempt_id, code, now);
    second_factor_outcome(filed, shown, recipient, sent)
}

/// What the caller is told once the code has been handed to the delivery
/// channel. A delivery that failed is reported as `UnexpectedError`; the
/// challenge is not taken back, so the code can be sent again while it is
/// live.
pub fn report_delivery(response: TwoFactorAuthResponse, delivered: bool) -> (r: Result<
    TwoFactorAuthResponse,
    AuthAPIError,
>)
    ensures
        match r {
            Ok(told) => delivered && told == response,
            Err(e) => !delivered && e == AuthAPIError::UnexpectedError,
        },
{
    if delivered {
        Ok(response)
    } else {
        Err(AuthAPIError::UnexpectedError)
    }
}

/// Logs a user in by password at `now`. The input is checked before any
/// store is touched; the account store is then asked both to confirm the
/// password and for the account. An account without second factor gets the
/// claims of a session token at once. An account with second factor gets a
/// fresh challenge, which replaces any earlier one, and no token.
pub fn login<U: UserStore, C: TwoFACodeStore>(
    users: &U,
    challenges: &mut C,
    request: LoginRequest,
    now: u64,
) -> (r: Result<LoginOutcome, AuthAPIError>)
    ensures
        final(challenges).reliable() == old(challenges).reliable(),
        request.verdict() matches Err(e) ==> {
            &&& r matches Err(reported)
            &&& reported == e
            &&& final(challenges).challenges() == old(challenges).challenges()
        },
        match r {
            Ok(LoginOutcome::Authenticated { response, claims }) => {
                &&& response.message@ == "Login successful"@
                &&& claims.sub@ == request.email@
                &&& claims.exp == now + TOKEN_TTL_SECONDS
                &&& final(challenges).challenges() == old(challenges).challenges()
            },
            Ok(LoginOutcome::SecondFactorRequired { response, recipient, code }) => {
                &&& response.message@ == "2FA required"@
                &&& is_display_form(response.login_attempt_id@)
                &&& recipient@ == request.email@
                &&& is_generated_code(code@)
                &&& TwoFACode::acceptable(code@)
            },
            Err(e) => {
                ||| request.verdict() == Err::<(), AuthAPIError>(e)
                ||| e == AuthAPIError::IncorrectCredentials
                ||| e == AuthAPIError::UnexpectedError
            },
        },
        users.reliable() ==> match request.outcome(users.accounts()) {
            LoginVerdict::Refused(e) => {
                &&& r matches Err(reported)
                &&& reported == e
                &&& final(challenges).challenges() == old(challenges).challenges()
            },
            LoginVerdict::Authenticated => r matches Ok(LoginOutcome::Authenticated { .. }),
            LoginVerdict::SecondFactorRequired => {
                &&& !(r matches Ok(LoginOutcome::Authenticated { .. }))
                &&& old(challenges).reliable() ==> {
                    &&& r matches Ok(LoginOutcome::SecondFactorRequired { response, code, .. })
                    &&& final(challenges).challenges() == challenges_after_login(
                        old(challenges).challenges(),
                        request.email@,
                        response.login_attempt_id@,
                        code@,
                        now,
                    )
                }
            },
        },
{
    let (email, password) = match parse_credentials(request.email, request.password) {
        Ok(parsed) => parsed,
        Err(e) => {
            return Err(e);
        },
    };
    let validated = users.validate_user(&email, &password);
    let looked_up = users.get_user(&email);
    let requires_2fa = match authentication_outcome(validated, looked_up) {
        Ok(flag) => flag,
        Err(e) => {
            return Err(e);
        },
    };
    if requires_2fa {
        let login_attempt_id = LoginAttemptId::default();
        let code = TwoFACode::default();
        proof {
            lemma_generated_code_is_acceptable(code@);
        }
        begin_second_factor(challenges, email, login_attempt_id, code, now)
    } else {
        Ok(
            LoginOutcome::Authenticated {
                response: LoginResponse { message: String::from_str("Login successful") },
                claims: generate_auth_claims(&email, now),
            },
        )
    }
}

/// With an account that asks for no second factor, the right password is
/// accepted at once, and a wrong password is refused exactly as an unknown
/// address is.
pub proof fn lemma_login_without_second_factor(
    accounts: Map<Seq<char>, Account>,
    email: Seq<char>,
    password: Seq<char>,
    wrong_password: Seq<char>,
    unknown_email: Seq<char>,
)
    requires
        Email::accepts(email),
        Email::accepts(unknown_email),
        Password::acceptable(password),
        Password::acceptable(wrong_password),
        accounts.contains_key(email),
        accounts[email].password == password,
        !accounts[email].requires_2fa,
        wrong_password != password,
        !accounts.contains_key(unknown_email),
    ensures
        login_verdict(accounts, email, password) == LoginVerdict::Authenticated,
        login_verdict(accounts, email, wrong_password) == LoginVerdict::Refused(
            AuthAPIError::IncorrectCredentials,
        ),
        login_verdict(accounts, unknown_email, password) == login_verdict(
            accounts,
            email,
            wrong_password,
        ),
{
}

/// With an account that asks for a second factor, the right password never
/// leads to a token: it leads to one challenge for the address, live from
/// the second it was stored. A further login puts its own challenge in the
/// place of that one, and leaves every other address alone.
pub proof fn lemma_login_with_second_factor(
    accounts: Map<Seq<char>, Account>,
    challenges: Map<Seq<char>, Challenge>,
    email: Seq<char>,
    password: Seq<char>,
    first_id: Seq<char>,
    first_code: Seq<char>,
    first_time: u64,
    second_id: Seq<char>,
    second_code: Seq<char>,
    second_time: u64,
)
    requires
        Email::accepts(email),
        Password::acceptable(password),
        accounts.contains_key(email),
        accounts[email].password == password,
        accounts[email].requires_2fa,
    ensures
        login_verdict(accounts, email, password) == LoginVerdict::SecondFactorRequired,
        has_live_challenge(
            challenges_after_login(challenges, email, first_id, first_code, first_time),
            email,
            first_time,
        ),
        challenges_after_login(challenges, email, first_id, first_code, first_time)[email]
            == challenge_of(first_id, first_code, first_time),
        challenges_after_login(
            challenges_after_login(challenges, email, first_id, first_code, first_time),
            email,
            second_id,
            second_code,
            second_time,
        ) == challenges_after_login(challenges, email, second_id, second_code, second_time),
        forall|other: Seq<char>|
            other != email ==> (#[trigger] challenges_after_login(
                challenges,
                email,
                first_id,
                first_code,
                first_time,
            ).contains_key(other) == challenges.contains_key(other)),
{
    let after_first = challenges_after_login(challenges, email, first_id, first_code, first_time);
    assert(challenges_after_login(after_first, email, second_id, second_code, second_time)
        =~= challenges_after_login(challenges, email, second_id, second_code, second_time));
}

} // verus!
