use vstd::hash_set::StringHashSet;
use vstd::prelude::*;

use crate::domain::data_stores::{BannedTokenStore, BannedTokenStoreError};

verus! {

/// The revocation store kept in memory.
pub struct HashsetBannedTokenStore {
    tokens: StringHashSet,
}

impl HashsetBannedTokenStore {
    /// A store without revoked tokens.
    pub fn new() -> (store: Self)
        ensures
            store.banned() == Set::<Seq<char>>::empty(),
            store.reliable(),
    {
        HashsetBannedTokenStore { tokens: StringHashSet::new() }
    }
}

impl Default for HashsetBannedTokenStore {
    fn default() -> (store: Self)
        ensures
            store.banned() == Set::<Seq<char>>::empty(),
            store.reliable(),
    {
        HashsetBannedTokenStore::new()
    }
}

impl BannedTokenStore for HashsetBannedTokenStore {
    closed spec fn banned(&self) -> Set<Seq<char>> {
        self.tokens@
    }

    open spec fn reliable(&self) -> bool {
        true
    }

    fn add_token(&mut self, token: String) -> (r: Result<(), BannedTokenStoreError>) {
        if self.tokens.insert(token) {
            Ok(())
        } else {
            assert(self.banned() =~= old(self).banned());
            Err(BannedTokenStoreError::TokenAlreadyBanned)
        }
    }

    fn contains_token(&self, token: String) -> (r: Result<bool, BannedTokenStoreError>) {
        Ok(self.tokens.contains(token.as_str()))
    }
}

} // verus!
