use vstd::prelude::*;
use crate::email::Email;
use crate::login_attempt_id::LoginAttemptId;
use crate::password::argon2_accepts;
use crate::two_fa_code::TwoFACode;
use crate::user::User;

verus! {

#[derive(Debug, PartialEq, Eq, Clone, Copy)]
pub enum UserStoreError {
    UserAlreadyExists,
    UserNotFound,
    InvalidCredentials,
    UnexpectedError,
}

#[derive(Debug, PartialEq, Eq, Clone, Copy)]
pub enum BannedTokenStoreError {
    TokenAlreadyBanned,
}

#[derive(Debug, PartialEq, Eq, Clone, Copy)]
pub enum TwoFACodeStoreError {
    CodeNotFound,
    CodeAlreadyExists,
}

/// Registered accounts, keyed by email. A backend may fail with `UnexpectedError`, but it
/// never lets two accounts share an email.
pub trait UserStore {
    /// The accounts held: email text to (email text, hash record, second-factor flag).
    spec fn users(&self) -> Map<Seq<char>, (Seq<char>, Seq<char>, bool)>;

    /// The backend never fails on its own account: it never reports `UnexpectedError`.
    spec fn reliable(&self) -> bool;

    /// Adds `user` unless its email is taken; the check and the insert are one step.
    fn add_user(&mut self, user: User) -> (r: Result<(), UserStoreError>)
        ensures
            r is Ok ==> !old(self).users().contains_key(user.email@) && final(self).users()
                == old(self).users().insert(user.email@, user@),
            r is Err ==> final(self).users() == old(self).users(),
            old(self).users().contains_key(user.email@) <==> r == Err::<(), UserStoreError>(
                UserStoreError::UserAlreadyExists,
            ),
            r == Err::<(), UserStoreError>(UserStoreError::UserAlreadyExists) || r
                == Err::<(), UserStoreError>(UserStoreError::UnexpectedError) || r is Ok,
            old(self).reliable() ==> r != Err::<(), UserStoreError>(UserStoreError::UnexpectedError),
            final(self).reliable() == old(self).reliable(),
    ;

    /// The account of `email`.
    fn get_user(&self, email: &Email) -> (r: Result<User, UserStoreError>)
        ensures
            r is Ok ==> self.users().contains_key(email@) && r->Ok_0@ == self.users()[email@],
            !self.users().contains_key(email@) <==> r == Err::<User, UserStoreError>(
                UserStoreError::UserNotFound,
            ),
            r is Err ==> r == Err::<User, UserStoreError>(UserStoreError::UserNotFound) || r
                == Err::<User, UserStoreError>(UserStoreError::UnexpectedError),
            self.reliable() ==> r != Err::<User, UserStoreError>(UserStoreError::UnexpectedError),
    ;

    /// Looks up `email`, then checks `raw_password` against the stored hash.
    fn validate_user(&self, email: &Email, raw_password: &str) -> (r: Result<(), UserStoreError>)
        ensures
            r is Ok ==> self.users().contains_key(email@) && argon2_accepts(
                self.users()[email@].1,
                raw_password@,
            ),
            !self.users().contains_key(email@) <==> r == Err::<(), UserStoreError>(
                UserStoreError::UserNotFound,
            ),
            r == Err::<(), UserStoreError>(UserStoreError::InvalidCredentials) ==> self.users().contains_key(
                email@,
            ) && !argon2_accepts(self.users()[email@].1, raw_password@),
            self.users().contains_key(email@) && !argon2_accepts(
                self.users()[email@].1,
                raw_password@,
            ) ==> r is Err,
            r is Err ==> r == Err::<(), UserStoreError>(UserStoreError::UserNotFound) || r
                == Err::<(), UserStoreError>(UserStoreError::InvalidCredentials) || r == Err::<
                (),
                UserStoreError,
            >(UserStoreError::UnexpectedError),
        self.reliable() ==> r != Err::<(), UserStoreError>(UserStoreError::UnexpectedError),
    ;
}

/// What banning `t` does to the revoked set `s`, and what it reports.
pub open spec fn ban_effect(s: Set<Seq<char>>, t: Seq<char>) -> (Set<Seq<char>>, Result<(), BannedTokenStoreError>) {
    (s.insert(t), if s.contains(t) {
        Err(BannedTokenStoreError::TokenAlreadyBanned)
    } else {
        Ok(())
    })
}

/// Banning a token twice: the second ban reports `TokenAlreadyBanned`, the token is banned
/// after the first ban whatever the second reports, and nothing banned is ever lifted.
pub proof fn lemma_ban_monotonic(s: Set<Seq<char>>, t: Seq<char>)
    ensures
        ({
            let (s1, r1) = ban_effect(s, t);
            let (s2, r2) = ban_effect(s1, t);
            &&& s.subset_of(s1) && s1.subset_of(s2)
            &&& s1.contains(t) && s2.contains(t)
            &&& r2 == Err::<(), BannedTokenStoreError>(BannedTokenStoreError::TokenAlreadyBanned)
        }),
{
}

/// What adding the account `u` does to the accounts `m` of a store that never fails, and
/// what it reports.
pub open spec fn add_user_effect(
    m: Map<Seq<char>, (Seq<char>, Seq<char>, bool)>,
    u: (Seq<char>, Seq<char>, bool),
) -> (Map<Seq<char>, (Seq<char>, Seq<char>, bool)>, Result<(), UserStoreError>) {
    if m.contains_key(u.0) {
        (m, Err(UserStoreError::UserAlreadyExists))
    } else {
        (m.insert(u.0, u), Ok(()))
    }
}

/// The accounts after adding each of `us` in turn, and what each add reported.
pub open spec fn add_users_outcomes(
    m: Map<Seq<char>, (Seq<char>, Seq<char>, bool)>,
    us: Seq<(Seq<char>, Seq<char>, bool)>,
) -> (Map<Seq<char>, (Seq<char>, Seq<char>, bool)>, Seq<Result<(), UserStoreError>>)
    decreases us.len(),
{
    if us.len() == 0 {
        (m, Seq::empty())
    } else {
        let (m1, rs) = add_users_outcomes(m, us.drop_last());
        let (m2, r) = add_user_effect(m1, us.last());
        (m2, rs.push(r))
    }
}

/// Adds racing for one unused email, however the lock orders them: the first succeeds, every
/// other reports `UserAlreadyExists`, and the account of the first stays.
pub proof fn lemma_signup_race(
    m: Map<Seq<char>, (Seq<char>, Seq<char>, bool)>,
    us: Seq<(Seq<char>, Seq<char>, bool)>,
    email: Seq<char>,
)
    requires
        us.len() >= 1,
        !m.contains_key(email),
        forall|i: int| 0 <= i < us.len() ==> (#[trigger] us[i]).0 == email,
    ensures
        ({
            let (m2, rs) = add_users_outcomes(m, us);
            &&& rs.len() == us.len()
            &&& rs[0] is Ok
            &&& forall|i: int| 1 <= i < rs.len() ==> #[trigger] rs[i] == Err::<(), UserStoreError>(
                UserStoreError::UserAlreadyExists,
            )
            &&& m2 == m.insert(email, us[0])
        }),
    decreases us.len(),
{
    if us.len() > 1 {
        let prefix = us.drop_last();
        assert forall|i: int| 0 <= i < prefix.len() implies (#[trigger] prefix[i]).0 == email by {
            assert(prefix[i] == us[i]);
        }
        lemma_signup_race(m, prefix, email);
        let (m1, rs1) = add_users_outcomes(m, prefix);
        assert(prefix[0] == us[0]);
        assert(m1.contains_key(email));
        assert(us.last().0 == email) by {
            assert(us.last() == us[us.len() - 1]);
        }
        let (m2, rs) = add_users_outcomes(m, us);
        assert(m2 == m1);
        assert(rs == rs1.push(Err::<(), UserStoreError>(UserStoreError::UserAlreadyExists)));
        assert forall|i: int| 1 <= i < rs.len() implies #[trigger] rs[i] == Err::<(), UserStoreError>(
            UserStoreError::UserAlreadyExists,
        ) by {
            if i < rs1.len() {
                assert(rs[i] == rs1[i]);
            }
        }
    } else {
        assert(us.drop_last() =~= Seq::<(Seq<char>, Seq<char>, bool)>::empty());
        assert(us.last() == us[0]);
        let (m0, rs0) = add_users_outcomes(m, us.drop_last());
        assert(m0 == m && rs0 == Seq::<Result<(), UserStoreError>>::empty());
        let (m2, rs) = add_users_outcomes(m, us);
        assert(rs == rs0.push(Ok::<(), UserStoreError>(())));
        assert(rs[0] is Ok);
    }
}

/// Tokens that were revoked. A ban is never lifted, and banning twice is reported.
pub trait BannedTokenStore {
    spec fn banned(&self) -> Set<Seq<char>>;

    fn ban_token(&mut self, token: String) -> (r: Result<(), BannedTokenStoreError>)
        ensures
            (final(self).banned(), r) == ban_effect(old(self).banned(), token@),
    ;

    fn is_banned(&self, token: String) -> (r: bool)
        ensures
            r == self.banned().contains(token@),
    ;
}

/// Outstanding second-factor challenges: at most one per email.
pub trait TwoFACodeStore {
    /// Email text to (attempt identifier, code).
    spec fn codes(&self) -> Map<Seq<char>, (Seq<char>, Seq<char>)>;

    /// Records a challenge for `email`, unless one is outstanding.
    fn add_code(&mut self, email: Email, login_attempt_id: LoginAttemptId, code: TwoFACode) -> (r:
        Result<(), TwoFACodeStoreError>)
        ensures
            old(self).codes().contains_key(email@) ==> r == Err::<(), TwoFACodeStoreError>(
                TwoFACodeStoreError::CodeAlreadyExists,
            ) && final(self).codes() == old(self).codes(),
            !old(self).codes().contains_key(email@) ==> r is Ok && final(self).codes() == old(
                self,
            ).codes().insert(email@, (login_attempt_id@, code@)),
    ;

    /// Drops the challenge of `email`.
    fn remove_code(&mut self, email: &Email) -> (r: Result<(), TwoFACodeStoreError>)
        ensures
            final(self).codes() == old(self).codes().remove(email@),
            r is Ok <==> old(self).codes().contains_key(email@),
            r is Err ==> r == Err::<(), TwoFACodeStoreError>(TwoFACodeStoreError::CodeNotFound),
    ;

    /// The challenge of `email`.
    fn get_code(&self, email: &Email) -> (r: Result<(LoginAttemptId, TwoFACode), TwoFACodeStoreError>)
        ensures
            r is Ok <==> self.codes().contains_key(email@),
            r is Ok ==> (r->Ok_0.0@, r->Ok_0.1@) == self.codes()[email@],
            r is Err ==> r == Err::<(LoginAttemptId, TwoFACode), TwoFACodeStoreError>(
                TwoFACodeStoreError::CodeNotFound,
            ),
    ;
}

} // verus!
