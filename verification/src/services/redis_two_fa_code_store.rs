use vstd::prelude::*;
use vstd::string::*;

use crate::domain::data_stores::{
    uuid_text, uuid_value, LoginAttemptId, TwoFACode, TwoFACodeStoreError, TEN_MINUTES_IN_SECONDS,
};
use crate::domain::email::Email;

verus! {

/// What stands before the address in the key of a challenge.
pub const TWO_FA_CODE_PREFIX: &'static str = "two_fa_code:";

#[verifier::external_type_specification]
#[verifier::external_body]
pub struct ExJsonError(serde_json::Error);

/// The JSON text that `serde_json::to_string` writes for a pair of texts,
/// where it writes one.
pub uninterp spec fn json_pair_text(first: Seq<char>, second: Seq<char>) -> Option<Seq<char>>;

/// The pair of texts that `serde_json::from_str` reads from a JSON text,
/// where it reads one.
pub uninterp spec fn json_pair_read(text: Seq<char>) -> Option<(Seq<char>, Seq<char>)>;

/// Calls `serde_json::to_string` on a pair of texts. What is written, and
/// whether anything is, depends on the two texts alone.
#[verifier::external_body]
fn json_write_pair(first: &str, second: &str) -> (r: Result<String, serde_json::Error>)
    ensures
        match r {
            Ok(text) => json_pair_text(first@, second@) == Some(text@),
            Err(_) => json_pair_text(first@, second@) is None,
        },
{
    serde_json::to_string(&(first, second))
}

/// Calls `serde_json::from_str` for a pair of texts. What is read, and
/// whether anything is, depends on the JSON text alone.
#[verifier::external_body]
fn json_read_pair(text: &str) -> (r: Result<(String, String), serde_json::Error>)
    ensures
        match r {
            Ok((first, second)) => json_pair_read(text@) == Some((first@, second@)),
            Err(_) => json_pair_read(text@) is None,
        },
{
    serde_json::from_str::<(String, String)>(text)
}

/// The key under which the challenge of an address is kept.
pub fn get_key(email: &Email) -> (key: String)
    ensures
        key@ == TWO_FA_CODE_PREFIX@ + email@,
{
    String::from_str(TWO_FA_CODE_PREFIX).concat(email.as_ref())
}

/// What the remote store is asked to keep for a challenge: the value under
/// the key, for so many seconds.
#[derive(Debug)]
pub struct StoreCommand {
    pub key: String,
    pub value: String,
    pub ttl_seconds: u64,
}

/// The record of a challenge: identifier and code as a JSON pair.
pub fn write_record(login_attempt_id: &LoginAttemptId, code: &TwoFACode) -> (r: Result<
    String,
    TwoFACodeStoreError,
>)
    ensures
        match r {
            Ok(record) => json_pair_text(login_attempt_id@, code@) == Some(record@),
            Err(e) => e == TwoFACodeStoreError::UnexpectedError && json_pair_text(
                login_attempt_id@,
                code@,
            ) is None,
        },
{
    match json_write_pair(login_attempt_id.as_ref(), code.as_ref()) {
        Ok(record) => Ok(record),
        Err(_) => Err(TwoFACodeStoreError::UnexpectedError),
    }
}

/// What to send to the remote store to file a challenge for ten minutes.
pub fn store_command(email: &Email, login_attempt_id: &LoginAttemptId, code: &TwoFACode) -> (r:
    Result<StoreCommand, TwoFACodeStoreError>)
    ensures
        match r {
            Ok(command) => {
                &&& command.key@ == TWO_FA_CODE_PREFIX@ + email@
                &&& json_pair_text(login_attempt_id@, code@) == Some(command.value@)
                &&& command.ttl_seconds == TEN_MINUTES_IN_SECONDS
            },
            Err(e) => e == TwoFACodeStoreError::UnexpectedError && json_pair_text(
                login_attempt_id@,
                code@,
            ) is None,
        },
{
    match write_record(login_attempt_id, code) {
        Ok(value) => Ok(
            StoreCommand { key: get_key(email), value, ttl_seconds: TEN_MINUTES_IN_SECONDS },
        ),
        Err(e) => Err(e),
    }
}

/// Whether two texts read from a record are an identifier and a code.
pub open spec fn pair_is_challenge(login_attempt_id: Seq<char>, code: Seq<char>) -> bool {
    uuid_value(login_attempt_id) is Some && TwoFACode::acceptable(code)
}

/// Turns the two texts of a record into identifier and code. A record that
/// holds anything else is a fault of the store.
pub fn challenge_from_pair(login_attempt_id: String, code: String) -> (r: Result<
    (LoginAttemptId, TwoFACode),
    TwoFACodeStoreError,
>)
    ensures
        match r {
            Ok((parsed_id, parsed_code)) => {
                &&& pair_is_challenge(login_attempt_id@, code@)
                &&& uuid_value(login_attempt_id@) matches Some(v)
                &&& parsed_id@ == uuid_text(v)
                &&& parsed_code@ == code@
            },
            Err(e) => e == TwoFACodeStoreError::UnexpectedError && !pair_is_challenge(
                login_attempt_id@,
                code@,
            ),
        },
{
    let parsed_id = match LoginAttemptId::parse(login_attempt_id) {
        Ok(parsed) => parsed,
        Err(_) => {
            return Err(TwoFACodeStoreError::UnexpectedError);
        },
    };
    match TwoFACode::parse(code) {
        Ok(parsed_code) => Ok((parsed_id, parsed_code)),
        Err(_) => Err(TwoFACodeStoreError::UnexpectedError),
    }
}

/// Whether a JSON text is the record of a challenge.
pub open spec fn record_is_challenge(record: Seq<char>) -> bool {
    json_pair_read(record) matches Some(pair) && pair_is_challenge(pair.0, pair.1)
}

/// Reads the record of a challenge.
pub fn read_record(record: &str) -> (r: Result<(LoginAttemptId, TwoFACode), TwoFACodeStoreError>)
    ensures
        match r {
            Ok((login_attempt_id, code)) => {
                &&& record_is_challenge(record@)
                &&& json_pair_read(record@) matches Some(pair)
                &&& uuid_value(pair.0) matches Some(v)
                &&& login_attempt_id@ == uuid_text(v)
                &&& code@ == pair.1
            },
            Err(e) => e == TwoFACodeStoreError::UnexpectedError && !record_is_challenge(record@),
        },
{
    match json_read_pair(record) {
        Ok((login_attempt_id, code)) => challenge_from_pair(login_attempt_id, code),
        Err(_) => Err(TwoFACodeStoreError::UnexpectedError),
    }
}

/// Makes of the remote store's reply to a lookup what `get_code` returns: no
/// value under the key means that no challenge is live.
pub fn challenge_from_reply(reply: Option<String>) -> (r: Result<
    (LoginAttemptId, TwoFACode),
    TwoFACodeStoreError,
>)
    ensures
        match r {
            Ok((login_attempt_id, code)) => {
                &&& reply matches Some(record)
                &&& record_is_challenge(record@)
                &&& json_pair_read(record@) matches Some(pair)
                &&& uuid_value(pair.0) matches Some(v)
                &&& login_attempt_id@ == uuid_text(v)
                &&& code@ == pair.1
            },
            Err(TwoFACodeStoreError::LoginAttemptIdNotFound) => reply is None,
            Err(TwoFACodeStoreError::UnexpectedError) => reply matches Some(record)
                && !record_is_challenge(record@),
        },
{
    match reply {
        Some(record) => read_record(record.as_str()),
        None => Err(TwoFACodeStoreError::LoginAttemptIdNotFound),
    }
}

/// Makes of the number of keys that the remote store deleted what
/// `remove_code` returns: none deleted means that no challenge was live.
pub fn removal_from_reply(deleted: u64) -> (r: Result<(), TwoFACodeStoreError>)
    ensures
        r is Ok <==> deleted > 0,
        r is Err ==> r == Err::<(), TwoFACodeStoreError>(
            TwoFACodeStoreError::LoginAttemptIdNotFound,
        ),
{
    if deleted > 0 {
        Ok(())
    } else {
        Err(TwoFACodeStoreError::LoginAttemptIdNotFound)
    }
}

} // verus!
