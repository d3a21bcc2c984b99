use vstd::prelude::*;
use argon2::{PasswordHasher, PasswordVerifier};
use crate::text::{char_vec, is_ascii_digit, is_lower, is_upper, lowercase_of, uppercase_of};

verus! {

/// The shortest password accepted, in characters.
pub const MIN_PASSWORD_CHARS: usize = 8;

/// The longest password accepted, in characters.
pub const MAX_PASSWORD_CHARS: usize = 128;

#[derive(Debug, PartialEq, Eq, Clone, Copy)]
pub enum PasswordError {
    Empty,
    TooShort,
    TooLong,
    MissingUppercase,
    MissingLowercase,
    MissingDigit,
}

pub open spec fn has_uppercase(s: Seq<char>) -> bool {
    exists|i: int| 0 <= i < s.len() && uppercase_of(#[trigger] s[i])
}

pub open spec fn has_lowercase(s: Seq<char>) -> bool {
    exists|i: int| 0 <= i < s.len() && lowercase_of(#[trigger] s[i])
}

pub open spec fn has_digit(s: Seq<char>) -> bool {
    exists|i: int| 0 <= i < s.len() && is_ascii_digit(#[trigger] s[i])
}

/// The rules a raw password must meet, checked in order: the first rule broken is reported.
pub open spec fn password_verdict(s: Seq<char>) -> Result<(), PasswordError> {
    if s.len() == 0 {
        Err(PasswordError::Empty)
    } else if s.len() < MIN_PASSWORD_CHARS {
        Err(PasswordError::TooShort)
    } else if s.len() > MAX_PASSWORD_CHARS {
        Err(PasswordError::TooLong)
    } else if !has_uppercase(s) {
        Err(PasswordError::MissingUppercase)
    } else if !has_lowercase(s) {
        Err(PasswordError::MissingLowercase)
    } else if !has_digit(s) {
        Err(PasswordError::MissingDigit)
    } else {
        Ok(())
    }
}

/// A raw password that meets the format rules.
#[derive(Debug, Clone, PartialEq, Eq)]
pub struct Password(String);

impl View for Password {
    type V = Seq<char>;

    closed spec fn view(&self) -> Seq<char> {
        self.0@
    }
}

impl Password {
    /// Checks `password` against the format rules; the text is kept as given.
    pub fn parse(password: &str) -> (r: Result<Password, PasswordError>)
        ensures
            match r {
                Ok(p) => password_verdict(password@) is Ok && p@ == password@,
                Err(e) => password_verdict(password@) == Err::<(), PasswordError>(e),
            },
    {
        let chars = char_vec(password);
        let n = chars.len();
        if n == 0 {
            return Err(PasswordError::Empty);
        }
        if n < MIN_PASSWORD_CHARS {
            return Err(PasswordError::TooShort);
        }
        if n > MAX_PASSWORD_CHARS {
            return Err(PasswordError::TooLong);
        }
        let mut upper = false;
        let mut lower = false;
        let mut digit = false;
        let mut i: usize = 0;
        while i < n
            invariant
                n == chars.len(),
                i <= n,
                upper <==> exists|j: int| 0 <= j < i && uppercase_of(#[trigger] chars@[j]),
                lower <==> exists|j: int| 0 <= j < i && lowercase_of(#[trigger] chars@[j]),
                digit <==> exists|j: int| 0 <= j < i && is_ascii_digit(#[trigger] chars@[j]),
            decreases n - i,
        {
            let c = chars[i];
            if is_upper(c) {
                upper = true;
            }
            if is_lower(c) {
                lower = true;
            }
            if '0' <= c && c <= '9' {
                digit = true;
            }
            i = i + 1;
        }
        if !upper {
            return Err(PasswordError::MissingUppercase);
        }
        if !lower {
            return Err(PasswordError::MissingLowercase);
        }
        if !digit {
            return Err(PasswordError::MissingDigit);
        }
        Ok(Password(password.to_string()))
    }

    /// The password as given.
    pub fn as_str(&self) -> (r: &str)
        ensures
            r@ == self@,
    {
        self.0.as_str()
    }

    /// Whether the password is exactly `other`.
    pub fn eq_str(&self, other: &str) -> (r: bool)
        ensures
            r == (self@ == other@),
    {
        let o = other.to_string();
        self.0 == o
    }

    /// A fixed text that never shows the password.
    pub fn redacted(&self) -> (r: String)
        ensures
            r@ == "[REDACTED]"@,
    {
        "[REDACTED]".to_string()
    }
}

/// A parse accepts exactly the passwords of 8 to 128 characters that hold an uppercase
/// letter, a lowercase letter and an ASCII digit.
pub proof fn lemma_password_rules(s: Seq<char>)
    ensures
        password_verdict(s) is Ok <==> (8 <= s.len() <= 128 && has_uppercase(s) && has_lowercase(
            s,
        ) && has_digit(s)),
{
}

/// Whether `phc` is a password-hash record that argon2 reads and that `password` matches,
/// as argon2's `verify_password` decides it.
pub uninterp spec fn argon2_accepts(phc: Seq<char>, password: Seq<char>) -> bool;

/// Whether `s` parses as a PHC password-hash record, as `PasswordHash::new` decides it.
pub uninterp spec fn phc_record_of(s: Seq<char>) -> bool;

/// Relies on `rand::random`, here for the bytes of a fresh salt; nothing is promised of them.
pub assume_specification<T>[ rand::random::<T> ]() -> (r: T)
    where
        rand::distr::StandardUniform: rand::distr::Distribution<T>,
;

/// Relies on argon2's `hash_password` with its default parameters and a 16-byte salt, which
/// encodes to 22 base64 characters (inside the 4..=64 a salt may have). Its only other error
/// is for a password longer than `MAX_PWD_LEN` (0xFFFFFFFF bytes); a password of at most 128
/// characters (at most 512 bytes) stays far below that, so with these inputs no error return
/// is reached. The record it encodes parses, and verifying the same password against it
/// succeeds.
#[verifier::external_body]
fn argon2_hash(password: &str, salt: &[u8; 16]) -> (r: Option<String>)
    requires
        password@.len() <= MAX_PASSWORD_CHARS,
    ensures
        r is Some,
        phc_record_of(r->0@) && argon2_accepts(r->0@, password@),
{
    let salt = match argon2::password_hash::SaltString::encode_b64(salt) {
        Ok(salt) => salt,
        Err(_) => return None,
    };
    match argon2::Argon2::default().hash_password(password.as_bytes(), &salt) {
        Ok(hash) => Some(hash.to_string()),
        Err(_) => None,
    }
}

/// Relies on argon2's `verify_password`, with the parameters and salt that the record holds.
#[verifier::external_body]
fn argon2_verify(phc: &str, password: &str) -> (r: bool)
    ensures
        r == argon2_accepts(phc@, password@),
{
    match argon2::PasswordHash::new(phc) {
        Ok(hash) => argon2::Argon2::default().verify_password(password.as_bytes(), &hash).is_ok(),
        Err(_) => false,
    }
}

/// Relies on `PasswordHash::new`, which reads a PHC record without hashing anything.
#[verifier::external_body]
fn phc_parses(s: &str) -> (r: bool)
    ensures
        r == phc_record_of(s@),
{
    argon2::PasswordHash::new(s).is_ok()
}

/// `record` is a well-formed hash record that `raw` verifies against: what hashing `raw` yields.
pub open spec fn is_hash_of(record: Seq<char>, raw: Seq<char>) -> bool {
    phc_record_of(record) && argon2_accepts(record, raw)
}

/// What verifying `candidate` against `record` reports.
pub open spec fn verify_outcome(record: Seq<char>, candidate: Seq<char>) -> Result<(), HashedPasswordError> {
    if argon2_accepts(record, candidate) {
        Ok(())
    } else {
        Err(HashedPasswordError::Mismatch)
    }
}

#[derive(Debug, PartialEq, Eq, Clone, Copy)]
pub enum HashedPasswordError {
    /// The raw password breaks a format rule.
    InvalidPassword(PasswordError),
    /// The hasher failed; with the fixed parameters used here it does not.
    HashingFailed,
    /// A stored record is not a well-formed hash record.
    MalformedRecord,
    /// The candidate does not match the record.
    Mismatch,
}

/// An encoded salted hash of a password (algorithm, parameters, salt and digest).
#[derive(Debug, Clone, PartialEq, Eq)]
pub struct HashedPassword(String);

impl View for HashedPassword {
    type V = Seq<char>;

    closed spec fn view(&self) -> Seq<char> {
        self.0@
    }
}

impl HashedPassword {
    /// Checks `raw` against the password rules, then hashes it with a fresh random salt.
    pub fn parse(raw: &str) -> (r: Result<HashedPassword, HashedPasswordError>)
        ensures
            match password_verdict(raw@) {
                Err(e) => r == Err::<HashedPassword, _>(HashedPasswordError::InvalidPassword(e)),
                Ok(_) => r is Ok && is_hash_of(r->Ok_0@, raw@),
            },
    {
        match Password::parse(raw) {
            Err(e) => Err(HashedPasswordError::InvalidPassword(e)),
            Ok(_) => {
                let salt: [u8; 16] = rand::random::<[u8; 16]>();
                match argon2_hash(raw, &salt) {
                    Some(s) => Ok(HashedPassword(s)),
                    None => Err(HashedPasswordError::HashingFailed),
                }
            },
        }
    }

    /// Takes a stored record as it is, after checking that it is a well-formed hash record.
    pub fn parse_password_hash(record: String) -> (r: Result<HashedPassword, HashedPasswordError>)
        ensures
            phc_record_of(record@) ==> r is Ok && r->Ok_0@ == record@,
            !phc_record_of(record@) ==> r == Err::<HashedPassword, _>(
                HashedPasswordError::MalformedRecord,
            ),
    {
        if phc_parses(record.as_str()) {
            Ok(HashedPassword(record))
        } else {
            Err(HashedPasswordError::MalformedRecord)
        }
    }

    /// Re-derives the hash of `candidate` with the record's parameters and compares.
    pub fn verify_raw_password(&self, candidate: &str) -> (r: Result<(), HashedPasswordError>)
        ensures
            r == verify_outcome(self@, candidate@),
    {
        if argon2_verify(self.0.as_str(), candidate) {
            Ok(())
        } else {
            Err(HashedPasswordError::Mismatch)
        }
    }

    /// The encoded record.
    pub fn as_str(&self) -> (r: &str)
        ensures
            r@ == self@,
    {
        self.0.as_str()
    }

    /// A copy of the record.
    pub fn to_owned_hash(&self) -> (r: HashedPassword)
        ensures
            r@ == self@,
    {
        HashedPassword(self.0.clone())
    }
}

/// A password accepted by the rules verifies against every record that hashing it yields.
pub proof fn lemma_hash_then_verify(raw: Seq<char>, record: Seq<char>)
    requires
        password_verdict(raw) is Ok,
        is_hash_of(record, raw),
    ensures
        verify_outcome(record, raw) is Ok,
{
}

impl AsRef<str> for Password {
    fn as_ref(&self) -> &str {
        self.0.as_str()
    }
}

} // verus!
