use vstd::prelude::*;
use vstd::hash_map::StringHashMap;
use vstd::hash_set::StringHashSet;
use crate::data_stores::{
    add_user_effect, BannedTokenStore, BannedTokenStoreError, TwoFACodeStore, TwoFACodeStoreError, UserStore,
    UserStoreError,
};
use crate::email::Email;
use crate::login_attempt_id::LoginAttemptId;
use crate::password::argon2_accepts;
use crate::two_fa_code::TwoFACode;
use crate::user::User;

verus! {

/// The in-memory account store.
pub struct HashmapUserStore {
    users: StringHashMap<User>,
}

impl HashmapUserStore {
    pub fn new() -> (r: HashmapUserStore)
        ensures
            r.users() == Map::<Seq<char>, (Seq<char>, Seq<char>, bool)>::empty(),
    {
        let r = HashmapUserStore { users: StringHashMap::new() };
        assert(r.users() =~= Map::<Seq<char>, (Seq<char>, Seq<char>, bool)>::empty());
        r
    }

    /// Stores `user` under `email` without any check.
    pub fn insert_user_unchecked(&mut self, email: Email, user: User)
        ensures
            final(self).users() == old(self).users().insert(email@, user@),
    {
        let key = email.to_text();
        let ghost u = user@;
        self.users.insert(key, user);
        assert(self.users() =~= old(self).users().insert(email@, u));
    }

    /// The underlying map, email text to account.
    pub fn get_users_ref(&self) -> (r: &StringHashMap<User>)
        ensures
            r@.map_values(|u: User| u@) == self.users(),
    {
        &self.users
    }
}

impl Default for HashmapUserStore {
    fn default() -> (r: HashmapUserStore)
        ensures
            r.users() == Map::<Seq<char>, (Seq<char>, Seq<char>, bool)>::empty(),
    {
        HashmapUserStore::new()
    }
}

impl UserStore for HashmapUserStore {
    closed spec fn users(&self) -> Map<Seq<char>, (Seq<char>, Seq<char>, bool)> {
        self.users@.map_values(|u: User| u@)
    }

    open spec fn reliable(&self) -> bool {
        true
    }

    fn add_user(&mut self, user: User) -> (r: Result<(), UserStoreError>)
        ensures
            (final(self).users(), r) == add_user_effect(old(self).users(), user@),
    {
        if self.users.contains_key(user.email_str()) {
            return Err(UserStoreError::UserAlreadyExists);
        }
        let key = user.email.to_text();
        let ghost u = user@;
        self.users.insert(key, user);
        assert(self.users() =~= old(self).users().insert(u.0, u));
        Ok(())
    }

    fn get_user(&self, email: &Email) -> (r: Result<User, UserStoreError>)
        ensures
            self.users().contains_key(email@) ==> r is Ok,
    {
        match self.users.get(email.as_str()) {
            Some(user) => Ok(user.to_owned_user()),
            None => Err(UserStoreError::UserNotFound),
        }
    }

    fn validate_user(&self, email: &Email, raw_password: &str) -> (r: Result<(), UserStoreError>)
        ensures
            r is Ok <==> self.users().contains_key(email@) && argon2_accepts(
                self.users()[email@].1,
                raw_password@,
            ),
            self.users().contains_key(email@) && !argon2_accepts(
                self.users()[email@].1,
                raw_password@,
            ) ==> r == Err::<(), UserStoreError>(UserStoreError::InvalidCredentials),
    {
        let user = match self.get_user(email) {
            Ok(user) => user,
            Err(e) => return Err(e),
        };
        match user.password().verify_raw_password(raw_password) {
            Ok(()) => Ok(()),
            Err(_) => Err(UserStoreError::InvalidCredentials),
        }
    }
}

/// The in-memory ledger of revoked tokens.
pub struct HashsetBannedTokenStore {
    banned_tokens: StringHashSet,
}

impl HashsetBannedTokenStore {
    pub fn new() -> (r: HashsetBannedTokenStore)
        ensures
            r.banned() == Set::<Seq<char>>::empty(),
    {
        HashsetBannedTokenStore { banned_tokens: StringHashSet::new() }
    }
}

impl Default for HashsetBannedTokenStore {
    fn default() -> (r: HashsetBannedTokenStore)
        ensures
            r.banned() == Set::<Seq<char>>::empty(),
    {
        HashsetBannedTokenStore::new()
    }
}

impl BannedTokenStore for HashsetBannedTokenStore {
    closed spec fn banned(&self) -> Set<Seq<char>> {
        self.banned_tokens@
    }

    fn ban_token(&mut self, token: String) -> (r: Result<(), BannedTokenStoreError>) {
        if self.banned_tokens.contains(token.as_str()) {
            assert(old(self).banned().insert(token@) =~= old(self).banned());
            Err(BannedTokenStoreError::TokenAlreadyBanned)
        } else {
            self.banned_tokens.insert(token);
            Ok(())
        }
    }

    fn is_banned(&self, token: String) -> (r: bool) {
        self.banned_tokens.contains(token.as_str())
    }
}

/// The in-memory store of second-factor challenges.
pub struct HashmapTwoFACodeStore {
    codes: StringHashMap<(LoginAttemptId, TwoFACode)>,
}

impl HashmapTwoFACodeStore {
    pub fn new() -> (r: HashmapTwoFACodeStore)
        ensures
            r.codes() == Map::<Seq<char>, (Seq<char>, Seq<char>)>::empty(),
    {
        let r = HashmapTwoFACodeStore { codes: StringHashMap::new() };
        assert(r.codes() =~= Map::<Seq<char>, (Seq<char>, Seq<char>)>::empty());
        r
    }
}

impl Default for HashmapTwoFACodeStore {
    fn default() -> (r: HashmapTwoFACodeStore)
        ensures
            r.codes() == Map::<Seq<char>, (Seq<char>, Seq<char>)>::empty(),
    {
        HashmapTwoFACodeStore::new()
    }
}

impl TwoFACodeStore for HashmapTwoFACodeStore {
    closed spec fn codes(&self) -> Map<Seq<char>, (Seq<char>, Seq<char>)> {
        self.codes@.map_values(|v: (LoginAttemptId, TwoFACode)| (v.0@, v.1@))
    }

    fn add_code(&mut self, email: Email, login_attempt_id: LoginAttemptId, code: TwoFACode) -> (r:
        Result<(), TwoFACodeStoreError>) {
        if self.codes.contains_key(email.as_str()) {
            return Err(TwoFACodeStoreError::CodeAlreadyExists);
        }
        let ghost entry = (login_attempt_id@, code@);
        self.codes.insert(email.to_text(), (login_attempt_id, code));
        assert(self.codes() =~= old(self).codes().insert(email@, entry));
        Ok(())
    }

    fn remove_code(&mut self, email: &Email) -> (r: Result<(), TwoFACodeStoreError>) {
        if !self.codes.contains_key(email.as_str()) {
            assert(old(self).codes().remove(email@) =~= old(self).codes());
            return Err(TwoFACodeStoreError::CodeNotFound);
        }
        self.codes.remove(email.as_str());
        assert(self.codes() =~= old(self).codes().remove(email@));
        Ok(())
    }

    fn get_code(&self, email: &Email) -> (r: Result<(LoginAttemptId, TwoFACode), TwoFACodeStoreError>) {
        match self.codes.get(email.as_str()) {
            Some(entry) => Ok((entry.0.to_owned_id(), entry.1.to_owned_code())),
            None => Err(TwoFACodeStoreError::CodeNotFound),
        }
    }
}

} // verus!
