use vstd::prelude::*;
use crate::email::Email;
use crate::password::HashedPassword;

verus! {

/// A registered account: its email, its password hash and whether it asks for a second factor.
#[derive(Debug, Clone, PartialEq)]
pub struct User {
    pub email: Email,
    pub password: HashedPassword,
    pub requires_2fa: bool,
}

impl View for User {
    /// Email text, hash record, second-factor flag.
    type V = (Seq<char>, Seq<char>, bool);

    open spec fn view(&self) -> (Seq<char>, Seq<char>, bool) {
        (self.email@, self.password@, self.requires_2fa)
    }
}

impl User {
    pub fn new(email: Email, password: HashedPassword, requires_2fa: bool) -> (r: User)
        ensures
            r@ == (email@, password@, requires_2fa),
    {
        User { email, password, requires_2fa }
    }

    pub fn email(&self) -> (r: &Email)
        ensures
            r@ == self.email@,
    {
        &self.email
    }

    pub fn email_str(&self) -> (r: &str)
        ensures
            r@ == self.email@,
    {
        self.email.as_str()
    }

    pub fn email_to_owned(&self) -> (r: Email)
        ensures
            r@ == self.email@,
    {
        self.email.to_owned_email()
    }

    pub fn password(&self) -> (r: &HashedPassword)
        ensures
            r@ == self.password@,
    {
        &self.password
    }

    pub fn password_str(&self) -> (r: &str)
        ensures
            r@ == self.password@,
    {
        self.password.as_str()
    }

    pub fn password_to_owned(&self) -> (r: HashedPassword)
        ensures
            r@ == self.password@,
    {
        self.password.to_owned_hash()
    }

    pub fn requires_2fa(&self) -> (r: bool)
        ensures
            r == self.requires_2fa,
    {
        self.requires_2fa
    }

    /// A copy of the whole record.
    pub fn to_owned_user(&self) -> (r: User)
        ensures
            r@ == self@,
    {
        User {
            email: self.email.to_owned_email(),
            password: self.password.to_owned_hash(),
            requires_2fa: self.requires_2fa,
        }
    }
}

} // verus!
