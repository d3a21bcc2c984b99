use vstd::prelude::*;
use crate::text::{char_vec, decimal, decimal_chars, fixed_digit_chars, fixed_digits, is_ascii_digit, text_of};

verus! {

/// How many digits a one-time code has.
pub const CODE_DIGITS: usize = 6;

/// The largest number a one-time code stands for.
pub const MAX_CODE: u32 = 999_999;

/// Six ASCII digits and nothing else.
pub open spec fn is_code_text(s: Seq<char>) -> bool {
    s.len() == CODE_DIGITS && forall|i: int| 0 <= i < s.len() ==> is_ascii_digit(#[trigger] s[i])
}

/// The message for a code of the wrong length.
pub open spec fn code_length_message(n: nat) -> Seq<char> {
    "Code must be exactly 6 digits, got "@ + decimal(n) + " characters"@
}

/// The message for a code that holds something other than ASCII digits.
pub open spec fn code_digits_message() -> Seq<char> {
    "Code must contain only digits (0-9)"@
}

/// Relies on rand's `random_range` over `0..=max` with the thread generator: a uniform draw
/// inside the range, which is never empty.
#[verifier::external_body]
fn random_at_most(max: u32) -> (r: u32)
    ensures
        r <= max,
{
    rand::Rng::random_range(&mut rand::rng(), 0..=max)
}

/// A one-time code: exactly six ASCII digits.
#[derive(Debug, PartialEq, Eq)]
pub struct TwoFACode(String);

impl Clone for TwoFACode {
    fn clone(&self) -> (r: TwoFACode)
        ensures
            r@ == self@,
    {
        proof {
            use_type_invariant(self);
        }
        TwoFACode(self.0.clone())
    }
}

impl View for TwoFACode {
    type V = Seq<char>;

    closed spec fn view(&self) -> Seq<char> {
        self.0@
    }
}

impl TwoFACode {
    #[verifier::type_invariant]
    spec fn well_formed(self) -> bool {
        is_code_text(self.0@)
    }

    /// Accepts exactly six ASCII digits; the message says which rule failed.
    pub fn parse(code: String) -> (r: Result<TwoFACode, String>)
        ensures
            match r {
                Ok(c) => is_code_text(code@) && c@ == code@,
                Err(m) => !is_code_text(code@) && (code@.len() != CODE_DIGITS ==> m@
                    == code_length_message(code@.len())) && (code@.len() == CODE_DIGITS ==> m@
                    == code_digits_message()),
            },
    {
        let chars = char_vec(code.as_str());
        let n = chars.len();
        if n != CODE_DIGITS {
            let digits = text_of(&decimal_chars(n as u64));
            let msg = String::from_str("Code must be exactly 6 digits, got ");
            let msg = msg.concat(digits.as_str());
            let msg = msg.concat(" characters");
            return Err(msg);
        }
        let mut i: usize = 0;
        while i < n
            invariant
                n == chars.len(),
                n == CODE_DIGITS,
                chars@ == code@,
                i <= n,
                forall|j: int| 0 <= j < i ==> is_ascii_digit(#[trigger] chars@[j]),
            decreases n - i,
        {
            let c = chars[i];
            if !('0' <= c && c <= '9') {
                assert(!is_ascii_digit(code@[i as int]));
                return Err(String::from_str("Code must contain only digits (0-9)"));
            }
            i = i + 1;
        }
        Ok(TwoFACode(code))
    }

    /// The code for `n`, zero-padded to six digits.
    pub fn from_number(n: u32) -> (r: TwoFACode)
        requires
            n <= MAX_CODE,
        ensures
            r@ == fixed_digits(n as nat, 6, 10),
            is_code_text(r@),
    {
        let digits = fixed_digit_chars(n as u64, 6, 10);
        proof {
            lemma_fixed_decimal_digits(n as nat, 6);
        }
        TwoFACode(text_of(&digits))
    }

    /// The code as a string slice: six ASCII digits.
    pub fn as_str(&self) -> (r: &str)
        ensures
            r@ == self@,
            is_code_text(r@),
    {
        proof {
            use_type_invariant(self);
        }
        self.0.as_str()
    }

    /// A copy of the code.
    pub fn to_owned_code(&self) -> (r: TwoFACode)
        ensures
            r@ == self@,
    {
        proof {
            use_type_invariant(self);
        }
        TwoFACode(self.0.clone())
    }

    /// Whether both hold the same digits.
    pub fn same_as(&self, other: &TwoFACode) -> (r: bool)
        ensures
            r == (self@ == other@),
    {
        self.0 == other.0
    }
}

impl Default for TwoFACode {
    /// A fresh random code, uniform over 000000 to 999999.
    fn default() -> (r: TwoFACode)
        ensures
            is_code_text(r@),
    {
        TwoFACode::from_number(random_at_most(MAX_CODE))
    }
}

proof fn lemma_fixed_decimal_digits(n: nat, width: nat)
    ensures
        fixed_digits(n, width, 10).len() == width,
        forall|i: int|
            0 <= i < width ==> is_ascii_digit(#[trigger] fixed_digits(n, width, 10)[i]),
    decreases width,
{
    if width > 0 {
        lemma_fixed_decimal_digits(n / 10, (width - 1) as nat);
        let d = (n % 10) as int;
        assert(is_ascii_digit(crate::text::digit_table()[d]));
    }
}

impl AsRef<str> for TwoFACode {
    fn as_ref(&self) -> &str {
        self.0.as_str()
    }
}

} // verus!
