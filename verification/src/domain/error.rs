use vstd::prelude::*;

verus! {

/// The outcomes that an operation of the service reports to its caller.
#[derive(Debug, Clone, Copy, PartialEq, Eq, Structural)]
pub enum AuthAPIError {
    /// The e-mail address is already registered.
    UserAlreadyExists,
    /// The input breaks a plain rule: empty address, no `@`, short
    /// password, ill-formed challenge id or code.
    InvalidCredentials,
    /// A backend failed; nothing is said about the request itself.
    UnexpectedError,
    /// The input passed the plain rules but is not of the required form.
    UnprocessableContent,
    /// Unknown account or wrong password; which of the two is not told.
    IncorrectCredentials,
    /// No session token was presented.
    MissingToken,
    /// The session token is malformed, expired or revoked.
    InvalidToken,
    /// No live challenge for the account: never issued, consumed or
    /// expired; which of these is not told.
    ChallengeNotFound,
    /// The challenge id or the code differs from the live challenge.
    IncorrectChallenge,
}

} // verus!
