use auth_service::domain::data_stores::{
    BannedTokenStore, BannedTokenStoreError, LoginAttemptId, TwoFACode, TwoFACodeStore,
    TwoFACodeStoreError, UserStore, UserStoreError,
};
use auth_service::domain::email::Email;
use auth_service::domain::password::Password;
use auth_service::domain::user::User;
use auth_service::services::redis_two_fa_code_store::{
    challenge_from_pair, challenge_from_reply, get_key, read_record, removal_from_reply,
    store_command, write_record,
};
use auth_service::services::{HashmapTwoFACodeStore, HashmapUserStore, HashsetBannedTokenStore};

fn email(text: &str) -> Email {
    Email::parse(text.to_string()).unwrap()
}

fn password(text: &str) -> Password {
    Password::parse(text.to_string()).unwrap()
}

fn attempt() -> LoginAttemptId {
    LoginAttemptId::parse("e9e07c9d-8d78-4eed-b9ec-11ca00dff241".to_string()).unwrap()
}

fn code(text: &str) -> TwoFACode {
    TwoFACode::parse(text.to_string()).unwrap()
}

#[test]
fn test_add_user() {
    let mut user_store = HashmapUserStore::new();
    let user = User::new(email("asdf@asdf.com"), password("password123"), true);
    user_store.add_user(user).unwrap();

    let expected = User::new(email("asdf@asdf.com"), password("password123"), true);
    assert_eq!(user_store.get_user(&email("asdf@asdf.com")), Ok(expected), "Failed");
}

#[test]
fn test_get_user() {
    let mut user_store = HashmapUserStore::new();
    let user = User::new(email("asdf@asdf.com"), password("password123"), true);
    user_store.add_user(user).unwrap();

    let user = user_store.get_user(&email("asdf@asdf.com")).unwrap();
    let test_user = User::new(email("asdf@asdf.com"), password("password123"), true);
    assert_eq!(user, test_user, "Failed to get valid user");

    let user = user_store.get_user(&email("asdf@other.com"));
    assert_eq!(
        user,
        Err(UserStoreError::UserNotFound),
        "Retrieved user with invalid input."
    );
}

#[test]
fn test_validate_user() {
    let mut user_store = HashmapUserStore::new();
    let user = User::new(email("asdf@asdf.com"), password("password123"), true);
    user_store.add_user(user).unwrap();

    let validate = user_store.validate_user(&email("asdf@asdf.com"), &password("password123"));
    assert_eq!(validate, Ok(()), "Failed to validate a valid user.");

    let validate = user_store.validate_user(&email("asdf@other.com"), &password("password123"));
    assert_eq!(
        validate,
        Err(UserStoreError::UserNotFound),
        "Didn't receive UserNotFound error. Received: {:?}",
        validate
    );

    let validate = user_store.validate_user(&email("asdf@asdf.com"), &password("password"));
    assert_eq!(
        validate,
        Err(UserStoreError::InvalidCredentials),
        "Didn't receive InvalidCredentials error. Received: {:?}",
        validate
    );
}

#[test]
fn user_store_refuses_a_second_account_for_an_address() {
    let mut user_store = HashmapUserStore::default();
    let first = User::new(email("a@x.com"), password("password123"), false);
    let second = User::new(email("a@x.com"), password("another-password"), true);
    assert_eq!(user_store.add_user(first), Ok(()));
    assert_eq!(user_store.add_user(second), Err(UserStoreError::UserAlreadyExists));
    // The first account stands.
    let kept = user_store.get_user(&email("a@x.com")).unwrap();
    assert_eq!(kept.password.as_ref(), "password123");
    assert!(!kept.requires_2fa);
}

#[test]
fn user_store_keys_are_case_sensitive() {
    let mut user_store = HashmapUserStore::new();
    user_store
        .add_user(User::new(email("a@x.com"), password("password123"), false))
        .unwrap();
    assert_eq!(
        user_store.get_user(&email("A@x.com")),
        Err(UserStoreError::UserNotFound)
    );
}

#[test]
fn test_add_token() {
    let mut test_banned_token_store = HashsetBannedTokenStore::new();
    let token = "header.payload.signature".to_string();

    test_banned_token_store.add_token(token.clone()).unwrap();

    assert_eq!(test_banned_token_store.contains_token(token), Ok(true));
}

#[test]
fn test_is_token_banned() {
    let mut test_banned_token_store = HashsetBannedTokenStore::new();
    let token = "header.payload.signature".to_string();

    assert_eq!(test_banned_token_store.contains_token(token.clone()), Ok(false));

    test_banned_token_store.add_token(token.clone()).unwrap();

    assert_eq!(test_banned_token_store.contains_token(token.clone()), Ok(true));
}

#[test]
fn banned_token_store_reports_a_second_revocation() {
    let mut store = HashsetBannedTokenStore::default();
    assert_eq!(store.add_token("t1".to_string()), Ok(()));
    assert_eq!(
        store.add_token("t1".to_string()),
        Err(BannedTokenStoreError::TokenAlreadyBanned)
    );
    assert_eq!(store.add_token("t2".to_string()), Ok(()));
    assert_eq!(store.contains_token("t1".to_string()), Ok(true));
    assert_eq!(store.contains_token("t2".to_string()), Ok(true));
    assert_eq!(store.contains_token("t3".to_string()), Ok(false));
}

#[test]
fn test_add_code() {
    let mut two_fa_code_store = HashmapTwoFACodeStore::new();
    let _ = two_fa_code_store.add_code(email("valid@mail.com"), attempt(), code("123456"), 0);

    assert!(two_fa_code_store.get_code(&email("valid@mail.com"), 0).is_ok());
}

#[test]
fn test_get_code() {
    let mut two_fa_code_store = HashmapTwoFACodeStore::new();
    two_fa_code_store
        .add_code(email("valid@mail.com"), attempt(), code("123456"), 0)
        .unwrap();

    assert!(two_fa_code_store.get_code(&email("valid@mail.com"), 0).is_ok());
    assert!(two_fa_code_store
        .get_code(&email("invalid@mail.com"), 0)
        .is_err());
}

#[test]
fn code_store_returns_what_was_put() {
    let mut store = HashmapTwoFACodeStore::default();
    store
        .add_code(email("valid@mail.com"), attempt(), code("123456"), 1_000)
        .unwrap();
    assert_eq!(
        store.get_code(&email("valid@mail.com"), 1_001),
        Ok((attempt(), code("123456")))
    );
}

#[test]
fn code_store_put_replaces_and_resets_the_clock() {
    let mut store = HashmapTwoFACodeStore::new();
    let second = LoginAttemptId::parse("11111111-2222-4333-8444-555555555555".to_string()).unwrap();
    store
        .add_code(email("valid@mail.com"), attempt(), code("123456"), 1_000)
        .unwrap();
    store
        .add_code(email("valid@mail.com"), second.clone(), code("654321"), 1_500)
        .unwrap();
    assert_eq!(
        store.get_code(&email("valid@mail.com"), 1_600),
        Ok((second.clone(), code("654321")))
    );
    // Past the first challenge's ten minutes, within the second's.
    assert_eq!(
        store.get_code(&email("valid@mail.com"), 2_099),
        Ok((second, code("654321")))
    );
    assert_eq!(
        store.get_code(&email("valid@mail.com"), 2_100),
        Err(TwoFACodeStoreError::LoginAttemptIdNotFound)
    );
}

#[test]
fn code_store_expires_after_ten_minutes() {
    let mut store = HashmapTwoFACodeStore::new();
    store
        .add_code(email("valid@mail.com"), attempt(), code("123456"), 1_000)
        .unwrap();
    assert!(store.get_code(&email("valid@mail.com"), 1_599).is_ok());
    assert_eq!(
        store.get_code(&email("valid@mail.com"), 1_600),
        Err(TwoFACodeStoreError::LoginAttemptIdNotFound)
    );
    assert_eq!(
        store.get_code(&email("valid@mail.com"), u64::MAX),
        Err(TwoFACodeStoreError::LoginAttemptIdNotFound)
    );
    assert_eq!(
        store.remove_code(&email("valid@mail.com"), 1_600),
        Err(TwoFACodeStoreError::LoginAttemptIdNotFound)
    );
}

#[test]
fn code_store_near_the_end_of_the_clock() {
    let mut store = HashmapTwoFACodeStore::new();
    store
        .add_code(email("valid@mail.com"), attempt(), code("123456"), u64::MAX - 5)
        .unwrap();
    assert!(store.get_code(&email("valid@mail.com"), u64::MAX).is_ok());
}

#[test]
fn code_store_remove_tells_consumed_from_nothing_to_consume() {
    let mut store = HashmapTwoFACodeStore::new();
    assert_eq!(
        store.remove_code(&email("valid@mail.com"), 0),
        Err(TwoFACodeStoreError::LoginAttemptIdNotFound)
    );
    store
        .add_code(email("valid@mail.com"), attempt(), code("123456"), 0)
        .unwrap();
    assert_eq!(store.remove_code(&email("valid@mail.com"), 10), Ok(()));
    assert_eq!(
        store.remove_code(&email("valid@mail.com"), 10),
        Err(TwoFACodeStoreError::LoginAttemptIdNotFound)
    );
    assert_eq!(
        store.get_code(&email("valid@mail.com"), 10),
        Err(TwoFACodeStoreError::LoginAttemptIdNotFound)
    );
}

#[test]
fn remote_key_has_the_prefix() {
    assert_eq!(get_key(&email("valid@mail.com")), "two_fa_code:valid@mail.com");
}

#[test]
fn remote_record_is_a_json_pair() {
    let record = write_record(&attempt(), &code("123456")).unwrap();
    assert_eq!(record, "[\"e9e07c9d-8d78-4eed-b9ec-11ca00dff241\",\"123456\"]");
    assert_eq!(read_record(&record), Ok((attempt(), code("123456"))));
}

#[test]
fn remote_record_escapes_what_json_must() {
    let record = write_record(&attempt(), &code("a\"b\\cd")).unwrap();
    assert_eq!(
        record,
        "[\"e9e07c9d-8d78-4eed-b9ec-11ca00dff241\",\"a\\\"b\\\\cd\"]"
    );
    assert_eq!(read_record(&record), Ok((attempt(), code("a\"b\\cd"))));
}

#[test]
fn remote_store_command_carries_key_value_and_ttl() {
    let command = store_command(&email("valid@mail.com"), &attempt(), &code("123456")).unwrap();
    assert_eq!(command.key, "two_fa_code:valid@mail.com");
    assert_eq!(
        command.value,
        "[\"e9e07c9d-8d78-4eed-b9ec-11ca00dff241\",\"123456\"]"
    );
    assert_eq!(command.ttl_seconds, 600);
}

#[test]
fn remote_record_that_is_no_challenge_is_a_fault() {
    for record in [
        "",
        "not json",
        "{}",
        "[\"e9e07c9d-8d78-4eed-b9ec-11ca00dff241\"]",
        "[\"14\",\"123456\"]",
        "[\"e9e07c9d-8d78-4eed-b9ec-11ca00dff241\",\"13\"]",
        "[\"e9e07c9d-8d78-4eed-b9ec-11ca00dff241\",\"123456\",\"more\"]",
    ] {
        assert_eq!(
            read_record(record),
            Err(TwoFACodeStoreError::UnexpectedError),
            "record: {:?}",
            record
        );
    }
}

#[test]
fn remote_pair_is_parsed_into_identifier_and_code() {
    assert_eq!(
        challenge_from_pair(
            "E9E07C9D8D784EEDB9EC11CA00DFF241".to_string(),
            "123456".to_string()
        ),
        Ok((attempt(), code("123456")))
    );
    assert_eq!(
        challenge_from_pair("14".to_string(), "123456".to_string()),
        Err(TwoFACodeStoreError::UnexpectedError)
    );
    assert_eq!(
        challenge_from_pair(
            "e9e07c9d-8d78-4eed-b9ec-11ca00dff241".to_string(),
            "1234567".to_string()
        ),
        Err(TwoFACodeStoreError::UnexpectedError)
    );
    assert_eq!(
        challenge_from_pair(
            "e9e07c9d-8d78-4eed-b9ec-11ca00dff241".to_string(),
            "12345é".to_string()
        ),
        Err(TwoFACodeStoreError::UnexpectedError)
    );
}

#[test]
fn remote_replies_are_read_as_the_store_contract_says() {
    assert_eq!(
        challenge_from_reply(None),
        Err(TwoFACodeStoreError::LoginAttemptIdNotFound)
    );
    assert_eq!(
        challenge_from_reply(Some(
            "[\"e9e07c9d-8d78-4eed-b9ec-11ca00dff241\",\"123456\"]".to_string()
        )),
        Ok((attempt(), code("123456")))
    );
    assert_eq!(
        challenge_from_reply(Some("garbage".to_string())),
        Err(TwoFACodeStoreError::UnexpectedError)
    );
    assert_eq!(removal_from_reply(1), Ok(()));
    assert_eq!(
        removal_from_reply(0),
        Err(TwoFACodeStoreError::LoginAttemptIdNotFound)
    );
}
