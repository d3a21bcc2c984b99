use vstd::prelude::*;
use validator::ValidateEmail;
use crate::text::{lemma_trim_ws_idempotent, trim_text, trim_ws};

verus! {

/// Whether validator's `validate_email` accepts `s` (the HTML5 address grammar, with
/// RFC 5321 length limits on each part).
pub uninterp spec fn email_format_of(s: Seq<char>) -> bool;

/// Relies on validator's `ValidateEmail::validate_email`, which depends on the text alone.
#[verifier::external_body]
fn email_format_ok(s: &str) -> (r: bool)
    ensures
        r == email_format_of(s@),
{
    s.validate_email()
}

#[derive(Debug, PartialEq, Eq, Clone, Copy)]
pub enum EmailError {
    Empty,
    InvalidFormat,
}

/// What parsing `s` as an email gives: its trimmed text, or the first rule it breaks.
pub open spec fn email_verdict(s: Seq<char>) -> Result<Seq<char>, EmailError> {
    let t = trim_ws(s);
    if t.len() == 0 {
        Err(EmailError::Empty)
    } else if !email_format_of(t) {
        Err(EmailError::InvalidFormat)
    } else {
        Ok(t)
    }
}

/// A syntactically valid email address, trimmed.
#[derive(Debug, PartialEq, Eq, Hash)]
pub struct Email(String);

impl Clone for Email {
    fn clone(&self) -> (r: Email)
        ensures
            r@ == self@,
    {
        proof {
            use_type_invariant(self);
        }
        Email(self.0.clone())
    }
}

impl View for Email {
    type V = Seq<char>;

    closed spec fn view(&self) -> Seq<char> {
        self.0@
    }
}

impl Email {
    #[verifier::type_invariant]
    spec fn well_formed(self) -> bool {
        email_verdict(self.0@) == Ok::<Seq<char>, EmailError>(self.0@)
    }

    /// Trims `email_str` and checks it against the address grammar.
    pub fn parse(email_str: &str) -> (r: Result<Email, EmailError>)
        ensures
            match r {
                Ok(e) => email_verdict(email_str@) == Ok::<Seq<char>, EmailError>(e@),
                Err(x) => email_verdict(email_str@) == Err::<Seq<char>, EmailError>(x),
            },
    {
        let trimmed = trim_text(email_str);
        if trimmed.is_empty() {
            return Err(EmailError::Empty);
        }
        if !email_format_ok(trimmed) {
            return Err(EmailError::InvalidFormat);
        }
        proof {
            lemma_trim_ws_idempotent(email_str@);
        }
        Ok(Email(trimmed.to_string()))
    }

    /// The address as a string slice; parsing it gives the same address back.
    pub fn as_str(&self) -> (r: &str)
        ensures
            r@ == self@,
            email_verdict(r@) == Ok::<Seq<char>, EmailError>(r@),
    {
        proof {
            use_type_invariant(self);
        }
        self.0.as_str()
    }

    /// A copy of the address.
    pub fn to_owned_email(&self) -> (r: Email)
        ensures
            r@ == self@,
    {
        proof {
            use_type_invariant(self);
        }
        Email(self.0.clone())
    }

    /// The address as an owned string.
    pub fn to_text(&self) -> (r: String)
        ensures
            r@ == self@,
    {
        self.0.clone()
    }

    /// Whether both hold the same address.
    pub fn same_as(&self, other: &Email) -> (r: bool)
        ensures
            r == (self@ == other@),
    {
        self.0 == other.0
    }
}

/// Parsing the text of a parsed email gives that same email back.
pub proof fn lemma_email_parse_idempotent(s: Seq<char>)
    requires
        email_verdict(s) is Ok,
    ensures
        email_verdict(email_verdict(s)->Ok_0) == email_verdict(s),
{
    lemma_trim_ws_idempotent(s);
}

impl AsRef<str> for Email {
    fn as_ref(&self) -> &str {
        self.0.as_str()
    }
}

} // verus!
