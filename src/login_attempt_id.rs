use vstd::prelude::*;
use crate::text::{ascii_lower, ascii_lower_seq, char_vec, is_hex_digit};

verus! {

/// Whether position `i` of a hyphenated UUID holds a hyphen.
pub open spec fn is_hyphen_position(i: int) -> bool {
    i == 8 || i == 13 || i == 18 || i == 23
}

/// Canonical hyphenated UUID text: 36 characters, hyphens at positions 8, 13, 18 and 23,
/// hexadecimal digits (either case) everywhere else.
pub open spec fn is_uuid_text(s: Seq<char>) -> bool {
    &&& s.len() == 36
    &&& forall|i: int|
        0 <= i < 36 ==> if is_hyphen_position(i) {
            #[trigger] s[i] == '-'
        } else {
            is_hex_digit(s[i])
        }
}

/// The message for text that is not a hyphenated UUID.
pub open spec fn attempt_id_message(id: Seq<char>) -> Seq<char> {
    "Invalid LoginAttemptID: "@ + id
        + "\nError: UUID must be in hyphenated format (8-4-4-4-12 hexadecimal digits)"@
}

/// Relies on uuid's `Uuid::parse_str` and its `Display`, which writes the value back as
/// lowercase hyphenated hexadecimal: on hyphenated UUID text the round trip lowercases it.
#[verifier::external_body]
fn uuid_canonical_text(s: &str) -> (r: Option<String>)
    ensures
        is_uuid_text(s@) ==> r is Some && r->0@ == ascii_lower_seq(s@),
{
    match uuid::Uuid::parse_str(s) {
        Ok(u) => Some(u.to_string()),
        Err(_) => None,
    }
}

/// Relies on uuid's `Uuid::new_v4` and its `Display`: fresh random UUID text, written as
/// lowercase hyphenated hexadecimal.
#[verifier::external_body]
fn fresh_uuid_text() -> (r: String)
    ensures
        is_uuid_text(r@),
        ascii_lower_seq(r@) == r@,
{
    uuid::Uuid::new_v4().to_string()
}

/// Checks the canonical hyphenated shape of `s`.
fn uuid_shape_ok(s: &str) -> (r: bool)
    ensures
        r == is_uuid_text(s@),
{
    let chars = char_vec(s);
    if chars.len() != 36 {
        return false;
    }
    let mut i: usize = 0;
    while i < 36
        invariant
            chars@ == s@,
            chars.len() == 36,
            i <= 36,
            forall|j: int|
                0 <= j < i ==> if is_hyphen_position(j) {
                    #[trigger] chars@[j] == '-'
                } else {
                    is_hex_digit(chars@[j])
                },
        decreases 36 - i,
    {
        let c = chars[i];
        let ok = if i == 8 || i == 13 || i == 18 || i == 23 {
            c == '-'
        } else {
            ('0' <= c && c <= '9') || ('a' <= c && c <= 'f') || ('A' <= c && c <= 'F')
        };
        if !ok {
            assert(!is_uuid_text(s@)) by {
                assert(if is_hyphen_position(i as int) {
                    s@[i as int] == '-'
                } else {
                    is_hex_digit(s@[i as int])
                } == false);
            }
            return false;
        }
        i = i + 1;
    }
    true
}

/// Lowercase hyphenated UUID text: the form every `LoginAttemptId` holds.
pub open spec fn is_attempt_id(s: Seq<char>) -> bool {
    is_uuid_text(s) && ascii_lower_seq(s) == s
}

/// Lowercasing hyphenated UUID text keeps its shape, and lowercasing twice is lowercasing once.
pub proof fn lemma_lower_uuid_text(s: Seq<char>)
    requires
        is_uuid_text(s),
    ensures
        is_attempt_id(ascii_lower_seq(s)),
{
    let l = ascii_lower_seq(s);
    assert forall|i: int| 0 <= i < 36 implies if is_hyphen_position(i) {
        #[trigger] l[i] == '-'
    } else {
        is_hex_digit(l[i])
    } by {
        assert(l[i] == ascii_lower(s[i]));
    }
    assert(ascii_lower_seq(l) =~= l);
}

/// The identifier of one login attempt that waits for its second factor: a UUID in
/// lowercase hyphenated form.
#[derive(Debug, PartialEq, Eq)]
pub struct LoginAttemptId(String);

impl Clone for LoginAttemptId {
    fn clone(&self) -> (r: LoginAttemptId)
        ensures
            r@ == self@,
    {
        proof {
            use_type_invariant(self);
        }
        LoginAttemptId(self.0.clone())
    }
}

impl View for LoginAttemptId {
    type V = Seq<char>;

    closed spec fn view(&self) -> Seq<char> {
        self.0@
    }
}

impl LoginAttemptId {
    #[verifier::type_invariant]
    spec fn well_formed(self) -> bool {
        is_attempt_id(self.0@)
    }

    /// Accepts hyphenated UUID text in either case and keeps it lowercased.
    pub fn parse(id: String) -> (r: Result<LoginAttemptId, String>)
        ensures
            match r {
                Ok(a) => is_uuid_text(id@) && a@ == ascii_lower_seq(id@),
                Err(m) => !is_uuid_text(id@) && m@ == attempt_id_message(id@),
            },
    {
        if uuid_shape_ok(id.as_str()) {
            match uuid_canonical_text(id.as_str()) {
                Some(t) => {
                    proof {
                        lemma_lower_uuid_text(id@);
                    }
                    return Ok(LoginAttemptId(t));
                },
                None => {},
            }
        }
        let m = String::from_str("Invalid LoginAttemptID: ");
        let m = m.concat(id.as_str());
        let m = m.concat("\nError: UUID must be in hyphenated format (8-4-4-4-12 hexadecimal digits)");
        Err(m)
    }

    /// The identifier as a string slice: lowercase hyphenated UUID text.
    pub fn as_str(&self) -> (r: &str)
        ensures
            r@ == self@,
            is_attempt_id(r@),
    {
        proof {
            use_type_invariant(self);
        }
        self.0.as_str()
    }

    /// A copy of the identifier.
    pub fn to_owned_id(&self) -> (r: LoginAttemptId)
        ensures
            r@ == self@,
    {
        proof {
            use_type_invariant(self);
        }
        LoginAttemptId(self.0.clone())
    }

    /// Whether both hold the same identifier.
    pub fn same_as(&self, other: &LoginAttemptId) -> (r: bool)
        ensures
            r == (self@ == other@),
    {
        self.0 == other.0
    }
}

impl Default for LoginAttemptId {
    /// A fresh random identifier.
    fn default() -> (r: LoginAttemptId)
        ensures
            is_uuid_text(r@),
            ascii_lower_seq(r@) == r@,
    {
        LoginAttemptId(fresh_uuid_text())
    }
}

impl AsRef<str> for LoginAttemptId {
    fn as_ref(&self) -> &str {
        self.0.as_str()
    }
}

} // verus!
