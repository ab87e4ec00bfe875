//! The operations of the service: sign up, log in, verify the second factor,
//! validate a session token, log out.

pub mod login;
pub mod logout;
pub mod signup;
pub mod validation;
pub mod verify_2fa;
pub mod verify_token;

pub use login::{
    login, report_delivery, LoginOutcome, LoginRequest, LoginResponse, TwoFactorAuthResponse,
};
pub use logout::logout;
pub use signup::{signup, SignupRequest, SignupResponse};
pub use verify_2fa::{verify_2fa, Verify2FARequest};
pub use verify_token::{verify_token, VerifyTokenRequest};
