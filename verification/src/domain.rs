//! Value types of the authentication domain.

pub mod data_stores;
pub mod email;
pub mod error;
pub mod login_attempt_id;
pub mod password;
pub mod two_fa_code;
pub mod user;

pub use data_stores::{
    BannedTokenStore, BannedTokenStoreError, LoginAttemptId, TwoFACode, TwoFACodeStore,
    TwoFACodeStoreError, UserStore, UserStoreError,
};
pub use email::Email;
pub use error::AuthAPIError;
pub use password::Password;
pub use user::User;
