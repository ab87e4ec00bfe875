use vstd::prelude::*;
use vstd::string::*;

use super::validation::{credentials_verdict, parse_credentials};
use crate::domain::data_stores::{UserStore, UserStoreError};
use crate::domain::email::Email;
use crate::domain::error::AuthAPIError;
use crate::domain::password::Password;
use crate::domain::user::{Account, User};

verus! {

pub struct SignupRequest {
    pub email: String,
    pub password: String,
    pub requires_2fa: bool,
}

#[derive(Debug)]
pub struct SignupResponse {
    pub message: String,
}

impl PartialEq for SignupResponse {
    fn eq(&self, other: &Self) -> (r: bool) {
        self.message == other.message
    }
}

impl vstd::std_specs::cmp::PartialEqSpecImpl for SignupResponse {
    open spec fn obeys_eq_spec() -> bool {
        true
    }

    open spec fn eq_spec(&self, other: &Self) -> bool {
        self.message@ == other.message@
    }
}

/// The account that a sign-up files.
pub open spec fn new_account(password: Seq<char>, requires_2fa: bool) -> Account {
    Account { password, requires_2fa }
}

/// How a sign-up ends with a reliable account store.
pub open spec fn signup_outcome(
    accounts: Map<Seq<char>, Account>,
    email: Seq<char>,
    password: Seq<char>,
) -> Result<(), AuthAPIError> {
    match credentials_verdict(email, password) {
        Err(e) => Err(e),
        Ok(_) => if accounts.contains_key(email) {
            Err(AuthAPIError::UserAlreadyExists)
        } else {
            Ok(())
        },
    }
}

/// The accounts after a sign-up with a reliable account store.
pub open spec fn accounts_after_signup(
    accounts: Map<Seq<char>, Account>,
    email: Seq<char>,
    password: Seq<char>,
    requires_2fa: bool,
) -> Map<Seq<char>, Account> {
    if signup_outcome(accounts, email, password) is Ok {
        accounts.insert(email, new_account(password, requires_2fa))
    } else {
        accounts
    }
}

impl SignupRequest {
    /// How the request fares before the store is consulted.
    pub open spec fn verdict(&self) -> Result<(), AuthAPIError> {
        credentials_verdict(self.email@, self.password@)
    }

    /// How the request ends with a reliable account store.
    pub open spec fn outcome(&self, accounts: Map<Seq<char>, Account>) -> Result<
        (),
        AuthAPIError,
    > {
        signup_outcome(accounts, self.email@, self.password@)
    }

    /// The accounts after the request with a reliable account store.
    pub open spec fn accounts_after(&self, accounts: Map<Seq<char>, Account>) -> Map<
        Seq<char>,
        Account,
    > {
        accounts_after_signup(accounts, self.email@, self.password@, self.requires_2fa)
    }
}

/// How a failure of the account store to file an account is reported.
pub open spec fn signup_failure(e: UserStoreError) -> AuthAPIError {
    match e {
        UserStoreError::UserAlreadyExists => AuthAPIError::UserAlreadyExists,
        _ => AuthAPIError::UnexpectedError,
    }
}

/// Recodes what the account store answered when asked to file an account.
/// A duplicate is named as such; any other failure is a fault of the store
/// and is reported as one.
pub fn signup_response(filed: Result<(), UserStoreError>) -> (r: Result<
    SignupResponse,
    AuthAPIError,
>)
    ensures
        match r {
            Ok(response) => filed is Ok && response.message@ == "User created successfully!"@,
            Err(e) => filed matches Err(failure) && e == signup_failure(failure),
        },
{
    match filed {
        Ok(_) => Ok(SignupResponse { message: String::from_str("User created successfully!") }),
        Err(UserStoreError::UserAlreadyExists) => Err(AuthAPIError::UserAlreadyExists),
        Err(_) => Err(AuthAPIError::UnexpectedError),
    }
}

/// Registers an account. The input is checked before the store is touched:
/// input that fails the check is refused with its verdict, whatever the
/// store. With a reliable store an address that is registered already is
/// refused, and any other sign-up files the account.
pub fn signup<U: UserStore>(users: &mut U, request: SignupRequest) -> (r: Result<
    SignupResponse,
    AuthAPIError,
>)
    ensures
        final(users).reliable() == old(users).reliable(),
        request.verdict() matches Err(e) ==> {
            &&& r matches Err(reported)
            &&& reported == e
            &&& final(users).accounts() == old(users).accounts()
        },
        match r {
            Ok(response) => response.message@ == "User created successfully!"@,
            Err(e) => {
                ||| request.verdict() == Err::<(), AuthAPIError>(e)
                ||| e == AuthAPIError::UserAlreadyExists
                ||| e == AuthAPIError::UnexpectedError
            },
        },
        old(users).reliable() ==> {
            &&& match r {
                Ok(_) => request.outcome(old(users).accounts()) is Ok,
                Err(e) => request.outcome(old(users).accounts()) == Err::<(), AuthAPIError>(e),
            }
            &&& final(users).accounts() == request.accounts_after(old(users).accounts())
        },
{
    let (email, password) = match parse_credentials(request.email, request.password) {
        Ok(parsed) => parsed,
        Err(e) => {
            return Err(e);
        },
    };
    let user = User::new(email, password, request.requires_2fa);
    signup_response(users.add_user(user))
}

/// A first sign-up with acceptable input and an unused address succeeds, and
/// any later sign-up with that address is refused as a duplicate, whatever
/// acceptable password it brings.
pub proof fn lemma_signup_succeeds_exactly_once(
    accounts: Map<Seq<char>, Account>,
    email: Seq<char>,
    password: Seq<char>,
    requires_2fa: bool,
    later_password: Seq<char>,
)
    requires
        Email::accepts(email),
        Password::acceptable(password),
        Password::acceptable(later_password),
        !accounts.contains_key(email),
    ensures
        signup_outcome(accounts, email, password) is Ok,
        accounts_after_signup(accounts, email, password, requires_2fa)[email] == new_account(
            password,
            requires_2fa,
        ),
        signup_outcome(
            accounts_after_signup(accounts, email, password, requires_2fa),
            email,
            later_password,
        ) == Err::<(), AuthAPIError>(AuthAPIError::UserAlreadyExists),
{
}

/// No sign-up changes or removes an account that is filed already.
pub proof fn lemma_signup_keeps_accounts(
    accounts: Map<Seq<char>, Account>,
    email: Seq<char>,
    password: Seq<char>,
    requires_2fa: bool,
    filed: Seq<char>,
)
    requires
        accounts.contains_key(filed),
    ensures
        accounts_after_signup(accounts, email, password, requires_2fa).contains_key(filed),
        accounts_after_signup(accounts, email, password, requires_2fa)[filed] == accounts[filed],
{
}

} // verus!
