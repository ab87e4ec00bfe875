use vstd::prelude::*;
use vstd::std_specs::iter::IteratorSpec;
use vstd::string::*;

use crate::domain::email::{address_is_implausible, email_is_valid, Email};
use crate::domain::error::AuthAPIError;
use crate::domain::password::Password;

verus! {

/// Whether a character occurs in a text.
pub fn contains_char(s: &str, wanted: char) -> (found: bool)
    ensures
        found == s@.contains(wanted),
{
    broadcast use vstd::string::group_string_axioms;

    let mut rest = s.chars();
    let ghost mut seen: int = 0;
    loop
        invariant
            0 <= seen <= s@.len(),
            rest.obeys_prophetic_iter_laws(),
            rest.remaining() == s@.skip(seen),
            forall|i: int| 0 <= i < seen ==> s@[i] != wanted,
        decreases s@.len() - seen,
    {
        match rest.next() {
            Some(c) => {
                assert(c == s@[seen]);
                if c == wanted {
                    return true;
                }
                proof {
                    assert(s@.skip(seen).drop_first() =~= s@.skip(seen + 1));
                    seen = seen + 1;
                }
            },
            None => {
                assert(seen == s@.len());
                return false;
            },
        }
    }
}

/// How an address and a password fare before any store is consulted. A
/// breach of a plain rule is `InvalidCredentials`; an address that passes
/// those and is still turned down by the validator is
/// `UnprocessableContent`.
pub open spec fn credentials_verdict(email: Seq<char>, password: Seq<char>) -> Result<
    (),
    AuthAPIError,
> {
    if address_is_implausible(email) || !Password::acceptable(password) {
        Err(AuthAPIError::InvalidCredentials)
    } else if !email_is_valid(email) {
        Err(AuthAPIError::UnprocessableContent)
    } else {
        Ok(())
    }
}

/// Input that both parsers take passes the check: the validator accepts no
/// address that is empty or lacks an `@`.
pub proof fn lemma_parsed_credentials_pass(email: Seq<char>, password: Seq<char>)
    requires
        Email::accepts(email),
        Password::acceptable(password),
    ensures
        credentials_verdict(email, password) is Ok,
{
}

/// Whether an address breaks a plain rule.
pub fn is_implausible_address(email: &str) -> (implausible: bool)
    ensures
        implausible == address_is_implausible(email@),
{
    email.is_empty() || !contains_char(email, '@')
}

/// Checks an address and a password as `credentials_verdict` says, and hands
/// both back in their checked form.
pub fn parse_credentials(email: String, password: String) -> (r: Result<
    (Email, Password),
    AuthAPIError,
>)
    ensures
        match r {
            Ok((parsed_email, parsed_password)) => {
                &&& credentials_verdict(email@, password@) is Ok
                &&& parsed_email@ == email@
                &&& parsed_password@ == password@
            },
            Err(e) => credentials_verdict(email@, password@) == Err::<(), AuthAPIError>(e),
        },
{
    if is_implausible_address(email.as_str()) {
        return Err(AuthAPIError::InvalidCredentials);
    }
    let parsed_password = match Password::parse(password) {
        Ok(parsed) => parsed,
        Err(_) => {
            return Err(AuthAPIError::InvalidCredentials);
        },
    };
    match Email::parse(email) {
        Ok(parsed_email) => Ok((parsed_email, parsed_password)),
        Err(_) => Err(AuthAPIError::UnprocessableContent),
    }
}

} // verus!
