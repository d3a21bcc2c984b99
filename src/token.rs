use vstd::prelude::*;
use hmac::Mac;
use crate::data_stores::BannedTokenStore;
use crate::email::{email_verdict, Email, EmailError};
use crate::text::{char_vec, digit_table, digit_value, digits_value, fixed_digit_chars, fixed_digits, text_of};

verus! {

/// How long an issued token stays valid, in seconds.
pub const TOKEN_TTL_SECONDS: u64 = 600;

/// The length of the hexadecimal signature at the end of a token.
pub const SIGNATURE_CHARS: usize = 64;

/// The length of the hexadecimal expiry field of a token.
pub const EXPIRY_CHARS: usize = 16;

/// The name of the cookie that carries the token.
pub const JWT_COOKIE_NAME: &'static str = "jwt";

/// HMAC-SHA256 of the UTF-8 bytes of `msg` under the UTF-8 bytes of `key`.
pub uninterp spec fn hmac_sha256_of(key: Seq<char>, msg: Seq<char>) -> Seq<u8>;

/// Relies on hmac's `Hmac<Sha256>`: a 32-byte tag that depends on key and message alone.
/// `new_from_slice` accepts keys of any length for HMAC.
#[verifier::external_body]
fn hmac_sha256(key: &str, msg: &str) -> (r: Vec<u8>)
    ensures
        r@ == hmac_sha256_of(key@, msg@),
        r@.len() == 32,
{
    let mut mac = match hmac::Hmac::<sha2::Sha256>::new_from_slice(key.as_bytes()) {
        Ok(mac) => mac,
        Err(_) => return Vec::new(),
    };
    mac.update(msg.as_bytes());
    mac.finalize().into_bytes().to_vec()
}

/// Two lowercase hexadecimal digits per byte.
pub open spec fn hex_of(b: Seq<u8>) -> Seq<char>
    decreases b.len(),
{
    if b.len() == 0 {
        Seq::empty()
    } else {
        hex_of(b.drop_last()) + fixed_digits(b.last() as nat, 2, 16)
    }
}

/// The signed part of a token: subject, a dot, and the expiry in sixteen hex digits.
pub open spec fn token_payload(email: Seq<char>, expiry: nat) -> Seq<char> {
    email + seq!['.'] + fixed_digits(expiry, EXPIRY_CHARS as nat, 16)
}

/// The token for `email` that expires at `expiry`, signed with `secret`.
pub open spec fn issued_token(email: Seq<char>, expiry: nat, secret: Seq<char>) -> Seq<char> {
    let payload = token_payload(email, expiry);
    payload + seq!['.'] + hex_of(hmac_sha256_of(secret, payload))
}

/// Lowercase hexadecimal digit.
pub open spec fn is_lower_hex(c: char) -> bool {
    ('0' <= c && c <= '9') || ('a' <= c && c <= 'f')
}

/// The shortest text that can be a token: one character of subject and the fixed fields.
pub open spec fn min_token_len() -> nat {
    (1 + 1 + EXPIRY_CHARS + 1 + SIGNATURE_CHARS) as nat
}

/// Where the expiry field of a token of length `n` starts.
pub open spec fn expiry_start(n: nat) -> int {
    n - SIGNATURE_CHARS - 1 - EXPIRY_CHARS
}

/// A token has the shape of one this issuer writes, and its subject is a parsed email.
pub open spec fn token_well_formed(t: Seq<char>) -> bool {
    let n = t.len();
    let e = expiry_start(n);
    &&& n >= min_token_len()
    &&& t[e - 1] == '.'
    &&& t[e + EXPIRY_CHARS] == '.'
    &&& forall|i: int| e <= i < e + EXPIRY_CHARS ==> is_lower_hex(#[trigger] t[i])
    &&& email_verdict(t.take(e - 1)) == Ok::<Seq<char>, EmailError>(t.take(e - 1))
}

#[derive(Debug, PartialEq, Eq, Clone, Copy)]
pub enum TokenError {
    InvalidToken,
    MalformedInput,
}

#[derive(Debug, PartialEq, Eq, Clone, Copy)]
pub enum GenerateTokenError {
    UnexpectedError,
}

/// What validating `t` gives at time `now`, with `secret` and the revoked set `banned`.
pub open spec fn token_verdict(t: Seq<char>, now: nat, secret: Seq<char>, banned: Set<Seq<char>>) -> Result<
    Seq<char>,
    TokenError,
> {
    if !token_well_formed(t) {
        Err(TokenError::MalformedInput)
    } else {
        let e = expiry_start(t.len());
        let email = t.take(e - 1);
        let expiry = digits_value(t.subrange(e, e + EXPIRY_CHARS), 16);
        if t != issued_token(email, expiry, secret) || expiry <= now || banned.contains(t) {
            Err(TokenError::InvalidToken)
        } else {
            Ok(email)
        }
    }
}

fn hex_chars(b: &Vec<u8>) -> (r: Vec<char>)
    ensures
        r@ == hex_of(b@),
{
    let mut v: Vec<char> = Vec::new();
    let mut i: usize = 0;
    while i < b.len()
        invariant
            i <= b.len(),
            v@ == hex_of(b@.take(i as int)),
        decreases b.len() - i,
    {
        let mut d = fixed_digit_chars(b[i] as u64, 2, 16);
        proof {
            assert(b@.take(i + 1).drop_last() =~= b@.take(i as int));
        }
        v.append(&mut d);
        i = i + 1;
    }
    assert(b@.take(b.len() as int) =~= b@);
    v
}

/// The token text for `email` expiring at `expiry`.
fn token_text(email: &str, expiry: u64, secret: &str) -> (r: String)
    ensures
        r@ == issued_token(email@, expiry as nat, secret@),
        hmac_sha256_of(secret@, token_payload(email@, expiry as nat)).len() == 32,
{
    let digits = text_of(&fixed_digit_chars(expiry, EXPIRY_CHARS as u64, 16));
    let payload = String::from_str(email).concat(".").concat(digits.as_str());
    let signature = text_of(&hex_chars(&hmac_sha256(secret, payload.as_str())));
    proof {
        reveal_strlit(".");
        assert(payload@ =~= token_payload(email@, expiry as nat));
    }
    let r = payload.concat(".").concat(signature.as_str());
    proof {
        assert(r@ =~= issued_token(email@, expiry as nat, secret@));
    }
    r
}

/// Before `expiry`, and while it is not revoked, `token` validates to `email`.
pub open spec fn validates_until(
    token: Seq<char>,
    email: Seq<char>,
    expiry: nat,
    secret: Seq<char>,
) -> bool {
    forall|t: nat, banned: Set<Seq<char>>|
        t < expiry && !banned.contains(token) ==> #[trigger] token_verdict(token, t, secret, banned)
            == Ok::<Seq<char>, TokenError>(email)
}

/// Mints a token bound to `email` that expires `TOKEN_TTL_SECONDS` after `now`; fails only
/// when that instant does not fit in a `u64`. Until it expires, and unless it is revoked, the
/// token validates to `email`.
pub fn generate_auth_token(email: &Email, now: u64, secret: &str) -> (r: Result<String, GenerateTokenError>)
    ensures
        r is Ok ==> validates_until(r->Ok_0@, email@, (now + TOKEN_TTL_SECONDS) as nat, secret@),
        now + TOKEN_TTL_SECONDS <= u64::MAX ==> r is Ok && r->Ok_0@ == issued_token(
            email@,
            (now + TOKEN_TTL_SECONDS) as nat,
            secret@,
        ),
        now + TOKEN_TTL_SECONDS > u64::MAX ==> r == Err::<String, GenerateTokenError>(
            GenerateTokenError::UnexpectedError,
        ),
{
    if now > u64::MAX - TOKEN_TTL_SECONDS {
        return Err(GenerateTokenError::UnexpectedError);
    }
    let text = email.as_str();
    let token = token_text(text, now + TOKEN_TTL_SECONDS, secret);
    proof {
        let expiry = (now + TOKEN_TTL_SECONDS) as nat;
        lemma_pow16_monotonic(0, 16);
        reveal_with_fuel(pow16, 17);
        assert forall|t: nat, banned: Set<Seq<char>>|
            t < now + TOKEN_TTL_SECONDS && !banned.contains(token@) implies #[trigger] token_verdict(
            token@,
            t,
            secret@,
            banned,
        ) == Ok::<Seq<char>, TokenError>(email@) by {
            lemma_issued_token_validates(email@, expiry, secret@, t, banned);
        }
    }
    Ok(token)
}

proof fn lemma_digit_table(d: int)
    requires
        0 <= d < 16,
    ensures
        digit_value(digit_table()[d]) == d,
        is_lower_hex(digit_table()[d]),
{
    let t = digit_table();
    if d == 0 { assert(t[0] == '0'); }
    else if d == 1 { assert(t[1] == '1'); }
    else if d == 2 { assert(t[2] == '2'); }
    else if d == 3 { assert(t[3] == '3'); }
    else if d == 4 { assert(t[4] == '4'); }
    else if d == 5 { assert(t[5] == '5'); }
    else if d == 6 { assert(t[6] == '6'); }
    else if d == 7 { assert(t[7] == '7'); }
    else if d == 8 { assert(t[8] == '8'); }
    else if d == 9 { assert(t[9] == '9'); }
    else if d == 10 { assert(t[10] == 'a'); }
    else if d == 11 { assert(t[11] == 'b'); }
    else if d == 12 { assert(t[12] == 'c'); }
    else if d == 13 { assert(t[13] == 'd'); }
    else if d == 14 { assert(t[14] == 'e'); }
    else { assert(t[15] == 'f'); }
}

/// Fixed-width hexadecimal digits have the width asked for, are lowercase, and read back
/// as the number they were written from.
proof fn lemma_fixed_hex_round_trip(n: nat, w: nat)
    requires
        n < pow16(w),
    ensures
        fixed_digits(n, w, 16).len() == w,
        forall|i: int| 0 <= i < w ==> is_lower_hex(#[trigger] fixed_digits(n, w, 16)[i]),
        digits_value(fixed_digits(n, w, 16), 16) == n,
    decreases w,
{
    if w > 0 {
        let p = pow16((w - 1) as nat);
        assert(n / 16 < p) by (nonlinear_arith)
            requires
                n < 16 * p,
        ;
        lemma_fixed_hex_round_trip(n / 16, (w - 1) as nat);
        lemma_digit_table((n % 16) as int);
        let f = fixed_digits(n, w, 16);
        assert(f.drop_last() =~= fixed_digits(n / 16, (w - 1) as nat, 16));
    }
}

proof fn lemma_hex_of_len(b: Seq<u8>)
    ensures
        hex_of(b).len() == 2 * b.len(),
    decreases b.len(),
{
    if b.len() > 0 {
        lemma_hex_of_len(b.drop_last());
        reveal_with_fuel(pow16, 3);
        assert(pow16(2) == 256);
        lemma_fixed_hex_round_trip(b.last() as nat, 2);
    }
}

/// A token issued for a parsed email validates to that email until it expires, unless it
/// was revoked.
pub proof fn lemma_issued_token_validates(
    email: Seq<char>,
    expiry: nat,
    secret: Seq<char>,
    now: nat,
    banned: Set<Seq<char>>,
)
    requires
        email_verdict(email) == Ok::<Seq<char>, EmailError>(email),
        expiry < pow16(EXPIRY_CHARS as nat),
        hmac_sha256_of(secret, token_payload(email, expiry)).len() == 32,
        now < expiry,
        !banned.contains(issued_token(email, expiry, secret)),
    ensures
        token_verdict(issued_token(email, expiry, secret), now, secret, banned) == Ok::<
            Seq<char>,
            TokenError,
        >(email),
{
    let digits = fixed_digits(expiry, EXPIRY_CHARS as nat, 16);
    let payload = token_payload(email, expiry);
    let sig = hex_of(hmac_sha256_of(secret, payload));
    let t = issued_token(email, expiry, secret);
    lemma_fixed_hex_round_trip(expiry, EXPIRY_CHARS as nat);
    lemma_hex_of_len(hmac_sha256_of(secret, payload));
    crate::text::lemma_trim_ws_trimmed(email);
    assert(email.len() > 0);
    let e: int = (email.len() + 1) as int;
    assert(t.len() == email.len() + 1 + 16 + 1 + 64);
    assert(expiry_start(t.len()) == e);
    assert(t[e - 1] == '.');
    assert(t[e + 16] == '.');
    assert(t.take(e - 1) =~= email);
    assert(t.subrange(e, e + 16) =~= digits);
    assert forall|i: int| e <= i < e + EXPIRY_CHARS implies is_lower_hex(#[trigger] t[i]) by {
        assert(t[i] == digits[i - e]);
    }
}

proof fn lemma_digits_value_step(s: Seq<char>, i: int)
    requires
        0 <= i < s.len(),
    ensures
        digits_value(s.take(i + 1), 16) == digits_value(s.take(i), 16) * 16 + digit_value(s[i]),
{
    assert(s.take(i + 1).drop_last() =~= s.take(i));
}

/// Checks structure, signature, expiry and revocation of `token`; on success returns the
/// email it is bound to.
pub fn validate_token<B: BannedTokenStore>(banned: &B, token: &str, now: u64, secret: &str) -> (r:
    Result<Email, TokenError>)
    ensures
        match r {
            Ok(e) => token_verdict(token@, now as nat, secret@, banned.banned())
                == Ok::<Seq<char>, TokenError>(e@),
            Err(x) => token_verdict(token@, now as nat, secret@, banned.banned()) == Err::<
                Seq<char>,
                TokenError,
            >(x),
        },
{
    let chars = char_vec(token);
    let n = chars.len();
    if n < 1 + 1 + EXPIRY_CHARS + 1 + SIGNATURE_CHARS {
        return Err(TokenError::MalformedInput);
    }
    let e = n - SIGNATURE_CHARS - 1 - EXPIRY_CHARS;
    if chars[e - 1] != '.' || chars[e + EXPIRY_CHARS] != '.' {
        return Err(TokenError::MalformedInput);
    }
    let ghost field = token@.subrange(e as int, e + EXPIRY_CHARS);
    let mut expiry: u64 = 0;
    let mut i: usize = 0;
    while i < EXPIRY_CHARS
        invariant
            chars@ == token@,
            n == chars.len(),
            e == n - SIGNATURE_CHARS - 1 - EXPIRY_CHARS,
            n >= min_token_len(),
            field == token@.subrange(e as int, e + EXPIRY_CHARS),
            i <= EXPIRY_CHARS,
            forall|j: int| e <= j < e + i ==> is_lower_hex(#[trigger] token@[j]),
            expiry as nat == digits_value(field.take(i as int), 16),
            (expiry as nat) < pow16(i as nat),
        decreases EXPIRY_CHARS - i,
    {
        let c = chars[e + i];
        let d: u64 = if '0' <= c && c <= '9' {
            (c as u64) - ('0' as u64)
        } else if 'a' <= c && c <= 'f' {
            (c as u64) - ('a' as u64) + 10
        } else {
            return Err(TokenError::MalformedInput);
        };
        proof {
            lemma_digits_value_step(field, i as int);
            lemma_pow16_bound(i as nat);
            assert(field[i as int] == c);
            assert((expiry as nat) * 16 + d < pow16(i as nat) * 16) by (nonlinear_arith)
                requires
                    (expiry as nat) < pow16(i as nat),
                    d < 16,
            ;
        }
        expiry = expiry * 16 + d;
        i = i + 1;
    }
    proof {
        assert(field.take(EXPIRY_CHARS as int) =~= field);
    }
    let mut subject: Vec<char> = Vec::new();
    let mut k: usize = 0;
    while k < e - 1
        invariant
            chars@ == token@,
            n == chars.len(),
            e == n - SIGNATURE_CHARS - 1 - EXPIRY_CHARS,
            n >= min_token_len(),
            k <= e - 1,
            subject@ == token@.take(k as int),
        decreases e - 1 - k,
    {
        subject.push(chars[k]);
        proof {
            assert(token@.take(k + 1) =~= token@.take(k as int).push(token@[k as int]));
        }
        k = k + 1;
    }
    let subject_text = text_of(&subject);
    let email = match Email::parse(subject_text.as_str()) {
        Ok(email) => email,
        Err(_) => return Err(TokenError::MalformedInput),
    };
    if !email.as_str().to_string().eq(&subject_text) {
        return Err(TokenError::MalformedInput);
    }
    let expected = token_text(email.as_str(), expiry, secret);
    let given = token.to_string();
    if !expected.eq(&given) || expiry <= now || banned.is_banned(given) {
        return Err(TokenError::InvalidToken);
    }
    Ok(email)
}

pub open spec fn pow16(n: nat) -> nat
    decreases n,
{
    if n == 0 {
        1
    } else {
        16 * pow16((n - 1) as nat)
    }
}

proof fn lemma_pow16_monotonic(a: nat, b: nat)
    requires
        a <= b,
    ensures
        pow16(a) <= pow16(b),
    decreases b - a,
{
    if a < b {
        lemma_pow16_monotonic(a, (b - 1) as nat);
    }
}

proof fn lemma_pow16_bound(n: nat)
    requires
        n < 16,
    ensures
        pow16(n) * 16 <= 0x1_0000_0000_0000_0000,
{
    lemma_pow16_monotonic(n, 15);
    reveal_with_fuel(pow16, 16);
    assert(pow16(15) == 0x1000_0000_0000_0000);
}

} // verus!
