use vstd::hash_map::StringHashMap;
use vstd::prelude::*;
use vstd::string::*;

use crate::domain::data_stores::{
    challenge_is_live, challenge_of, Challenge, LoginAttemptId, TwoFACode, TwoFACodeStore,
    TwoFACodeStoreError, TEN_MINUTES_IN_SECONDS,
};
use crate::domain::email::Email;

verus! {

/// A challenge as the in-memory store keeps it.
struct StoredChallenge {
    login_attempt_id: LoginAttemptId,
    code: TwoFACode,
    issued_at: u64,
}

impl StoredChallenge {
    spec fn challenge(&self) -> Challenge {
        challenge_of(self.login_attempt_id@, self.code@, self.issued_at)
    }

    fn is_live(&self, now: u64) -> (live: bool)
        ensures
            live == challenge_is_live(self.challenge(), now),
    {
        now < self.issued_at || now - self.issued_at < TEN_MINUTES_IN_SECONDS
    }
}

/// The challenge store kept in memory.
pub struct HashmapTwoFACodeStore {
    codes: StringHashMap<StoredChallenge>,
}

impl HashmapTwoFACodeStore {
    /// A store without challenges.
    pub fn new() -> (store: Self)
        ensures
            store.challenges() == Map::<Seq<char>, Challenge>::empty(),
            store.reliable(),
    {
        let store = HashmapTwoFACodeStore { codes: StringHashMap::new() };
        assert(store.challenges() =~= Map::<Seq<char>, Challenge>::empty());
        store
    }
}

impl Default for HashmapTwoFACodeStore {
    fn default() -> (store: Self)
        ensures
            store.challenges() == Map::<Seq<char>, Challenge>::empty(),
            store.reliable(),
    {
        HashmapTwoFACodeStore::new()
    }
}

impl TwoFACodeStore for HashmapTwoFACodeStore {
    closed spec fn challenges(&self) -> Map<Seq<char>, Challenge> {
        Map::new(
            |email: Seq<char>| self.codes@.contains_key(email),
            |email: Seq<char>| self.codes@[email].challenge(),
        )
    }

    open spec fn reliable(&self) -> bool {
        true
    }

    fn add_code(
        &mut self,
        email: Email,
        login_attempt_id: LoginAttemptId,
        code: TwoFACode,
        now: u64,
    ) -> (r: Result<(), TwoFACodeStoreError>) {
        let key = String::from_str(email.as_ref());
        self.codes.insert(key, StoredChallenge { login_attempt_id, code, issued_at: now });
        assert(self.challenges() =~= old(self).challenges().insert(
            email@,
            challenge_of(login_attempt_id@, code@, now),
        ));
        Ok(())
    }

    fn get_code(&self, email: &Email, now: u64) -> (r: Result<
        (LoginAttemptId, TwoFACode),
        TwoFACodeStoreError,
    >) {
        match self.codes.get(email.as_ref()) {
            Some(stored) => {
                if stored.is_live(now) {
                    Ok((stored.login_attempt_id.clone(), stored.code.clone()))
                } else {
                    Err(TwoFACodeStoreError::LoginAttemptIdNotFound)
                }
            },
            None => Err(TwoFACodeStoreError::LoginAttemptIdNotFound),
        }
    }

    fn remove_code(&mut self, email: &Email, now: u64) -> (r: Result<(), TwoFACodeStoreError>) {
        let live = match self.codes.get(email.as_ref()) {
            Some(stored) => stored.is_live(now),
            None => false,
        };
        self.codes.remove(email.as_ref());
        assert(self.challenges() =~= old(self).challenges().remove(email@));
        if live {
            Ok(())
        } else {
            Err(TwoFACodeStoreError::LoginAttemptIdNotFound)
        }
    }
}

} // verus!
