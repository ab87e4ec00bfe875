use vstd::hash_map::StringHashMap;
use vstd::prelude::*;
use vstd::string::*;

use crate::domain::data_stores::{UserStore, UserStoreError};
use crate::domain::email::Email;
use crate::domain::password::Password;
use crate::domain::user::{Account, User};

verus! {

/// The account store kept in memory.
pub struct HashmapUserStore {
    users: StringHashMap<User>,
}

impl HashmapUserStore {
    /// A store without accounts.
    pub fn new() -> (store: Self)
        ensures
            store.accounts() == Map::<Seq<char>, Account>::empty(),
            store.reliable(),
    {
        let store = HashmapUserStore { users: StringHashMap::new() };
        assert(store.accounts() =~= Map::<Seq<char>, Account>::empty());
        store
    }
}

impl Default for HashmapUserStore {
    fn default() -> (store: Self)
        ensures
            store.accounts() == Map::<Seq<char>, Account>::empty(),
            store.reliable(),
    {
        HashmapUserStore::new()
    }
}

impl UserStore for HashmapUserStore {
    closed spec fn accounts(&self) -> Map<Seq<char>, Account> {
        Map::new(
            |email: Seq<char>| self.users@.contains_key(email),
            |email: Seq<char>| self.users@[email].account(),
        )
    }

    open spec fn reliable(&self) -> bool {
        true
    }

    fn add_user(&mut self, user: User) -> (r: Result<(), UserStoreError>) {
        if self.users.contains_key(user.email.as_ref()) {
            return Err(UserStoreError::UserAlreadyExists);
        }
        let key = String::from_str(user.email.as_ref());
        self.users.insert(key, user);
        assert(self.accounts() =~= old(self).accounts().insert(user.email@, user.account()));
        Ok(())
    }

    fn get_user(&self, email: &Email) -> (r: Result<User, UserStoreError>) {
        match self.users.get(email.as_ref()) {
            Some(user) => Ok(User::new(email.clone(), user.password.clone(), user.requires_2fa)),
            None => Err(UserStoreError::UserNotFound),
        }
    }

    fn validate_user(&self, email: &Email, password: &Password) -> (r: Result<
        (),
        UserStoreError,
    >) {
        match self.users.get(email.as_ref()) {
            None => Err(UserStoreError::UserNotFound),
            Some(user) => {
                if user.password == *password {
                    Ok(())
                } else {
                    Err(UserStoreError::InvalidCredentials)
                }
            },
        }
    }
}

} // verus!
