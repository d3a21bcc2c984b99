use vstd::prelude::*;
use crate::data_stores::{
    BannedTokenStore, BannedTokenStoreError, TwoFACodeStore, UserStore, UserStoreError,
};
use crate::email::{email_verdict, Email};
use crate::email_client::EmailClient;
use crate::error::AuthAPIError;
use crate::login_attempt_id::{is_attempt_id, is_uuid_text, LoginAttemptId};
use crate::password::{argon2_accepts, is_hash_of, password_verdict, HashedPassword, Password};
use crate::text::ascii_lower_seq;
use crate::token::{
    generate_auth_token, issued_token, token_verdict, validate_token, validates_until,
    GenerateTokenError,
    TokenError, TOKEN_TTL_SECONDS,
};
use crate::two_fa_code::{is_code_text, TwoFACode};
use crate::user::User;

verus! {

/// The body of a signup request.
#[derive(Debug, Clone, PartialEq, Eq)]
pub struct SignupPayload {
    email: String,
    password: String,
    requires_2fa: bool,
}

impl View for SignupPayload {
    /// Email text, password text, second-factor flag.
    type V = (Seq<char>, Seq<char>, bool);

    closed spec fn view(&self) -> (Seq<char>, Seq<char>, bool) {
        (self.email@, self.password@, self.requires_2fa)
    }
}

impl SignupPayload {
    pub fn new(email: String, password: String, requires_2fa: bool) -> (r: SignupPayload)
        ensures
            r@ == (email@, password@, requires_2fa),
    {
        SignupPayload { email, password, requires_2fa }
    }

    pub fn email(&self) -> (r: &String)
        ensures
            r@ == self@.0,
    {
        &self.email
    }

    pub fn password(&self) -> (r: &String)
        ensures
            r@ == self@.1,
    {
        &self.password
    }

    pub fn requires_2fa(&self) -> (r: bool)
        ensures
            r == self@.2,
    {
        self.requires_2fa
    }

    pub fn email_to_owned(&self) -> (r: String)
        ensures
            r@ == self@.0,
    {
        self.email.clone()
    }

    pub fn password_to_owned(&self) -> (r: String)
        ensures
            r@ == self@.1,
    {
        self.password.clone()
    }
}

/// The body of a successful signup.
#[derive(Debug, Clone, PartialEq, Eq)]
pub struct SignupResponse {
    pub message: String,
}

impl SignupResponse {
    pub fn new(message: &str) -> (r: SignupResponse)
        ensures
            r.message@ == message@,
    {
        SignupResponse { message: String::from_str(message) }
    }
}

/// The body of a login request.
#[derive(Debug, Clone, PartialEq, Eq)]
pub struct LoginPayload {
    email: String,
    password: String,
}

impl View for LoginPayload {
    /// Email text, password text.
    type V = (Seq<char>, Seq<char>);

    closed spec fn view(&self) -> (Seq<char>, Seq<char>) {
        (self.email@, self.password@)
    }
}

impl LoginPayload {
    pub fn new(email: String, password: String) -> (r: LoginPayload)
        ensures
            r@ == (email@, password@),
    {
        LoginPayload { email, password }
    }

    pub fn email(&self) -> (r: &String)
        ensures
            r@ == self@.0,
    {
        &self.email
    }

    pub fn password(&self) -> (r: &String)
        ensures
            r@ == self@.1,
    {
        &self.password
    }
}

/// The body returned when a login waits for its second factor.
#[derive(Debug, Clone, PartialEq, Eq)]
pub struct TwoFactorAuthResponse {
    pub message: String,
    pub login_attempt_id: String,
}

/// The two ways a login succeeds.
#[derive(Debug, Clone, PartialEq, Eq)]
pub enum LoginResponse {
    /// Authenticated; the token is handed back to be set as the auth cookie.
    RegularAuth(String),
    /// A challenge was recorded and its code sent; no token yet.
    TwoFactorAuth(TwoFactorAuthResponse),
}

/// The body of a second-factor verification request.
#[derive(Debug, Clone, PartialEq, Eq)]
pub struct Verify2FAPayload {
    email: String,
    login_attempt_id: String,
    code: String,
}

impl View for Verify2FAPayload {
    /// Email text, attempt identifier text, code text.
    type V = (Seq<char>, Seq<char>, Seq<char>);

    closed spec fn view(&self) -> (Seq<char>, Seq<char>, Seq<char>) {
        (self.email@, self.login_attempt_id@, self.code@)
    }
}

impl Verify2FAPayload {
    pub fn new(email: String, login_attempt_id: String, code: String) -> (r: Verify2FAPayload)
        ensures
            r@ == (email@, login_attempt_id@, code@),
    {
        Verify2FAPayload { email, login_attempt_id, code }
    }

    pub fn email(&self) -> (r: &String)
        ensures
            r@ == self@.0,
    {
        &self.email
    }

    pub fn login_attempt_id(&self) -> (r: &String)
        ensures
            r@ == self@.1,
    {
        &self.login_attempt_id
    }

    pub fn code(&self) -> (r: &String)
        ensures
            r@ == self@.2,
    {
        &self.code
    }
}

/// The body of a token check request.
#[derive(Debug, Clone, PartialEq, Eq)]
pub struct VerifyTokenPayload {
    token: String,
}

impl View for VerifyTokenPayload {
    /// The token text.
    type V = Seq<char>;

    closed spec fn view(&self) -> Seq<char> {
        self.token@
    }
}

impl VerifyTokenPayload {
    pub fn new(token: String) -> (r: VerifyTokenPayload)
        ensures
            r@ == token@,
    {
        VerifyTokenPayload { token }
    }

    pub fn token(&self) -> (r: &String)
        ensures
            r@ == self@,
    {
        &self.token
    }
}

#[derive(Debug, PartialEq, Eq, Clone, Copy)]
pub enum LogoutError {
    /// 400
    MissingToken,
    /// 401
    InvalidToken,
}

impl From<LogoutError> for AuthAPIError {
    fn from(err: LogoutError) -> (r: AuthAPIError) {
        match err {
            LogoutError::MissingToken => AuthAPIError::MissingToken,
            LogoutError::InvalidToken => AuthAPIError::InvalidToken,
        }
    }
}

impl vstd::std_specs::convert::FromSpecImpl<LogoutError> for AuthAPIError {
    open spec fn obeys_from_spec() -> bool {
        true
    }

    open spec fn from_spec(v: LogoutError) -> AuthAPIError {
        match v {
            LogoutError::MissingToken => AuthAPIError::MissingToken,
            LogoutError::InvalidToken => AuthAPIError::InvalidToken,
        }
    }
}

impl From<TokenError> for AuthAPIError {
    fn from(err: TokenError) -> (r: AuthAPIError) {
        match err {
            TokenError::InvalidToken => AuthAPIError::InvalidToken,
            TokenError::MalformedInput => AuthAPIError::UnprocessableContent,
        }
    }
}

impl vstd::std_specs::convert::FromSpecImpl<TokenError> for AuthAPIError {
    open spec fn obeys_from_spec() -> bool {
        true
    }

    open spec fn from_spec(v: TokenError) -> AuthAPIError {
        match v {
            TokenError::InvalidToken => AuthAPIError::InvalidToken,
            TokenError::MalformedInput => AuthAPIError::UnprocessableContent,
        }
    }
}

impl From<GenerateTokenError> for AuthAPIError {
    fn from(err: GenerateTokenError) -> (r: AuthAPIError) {
        AuthAPIError::UnexpectedError
    }
}

impl vstd::std_specs::convert::FromSpecImpl<GenerateTokenError> for AuthAPIError {
    open spec fn obeys_from_spec() -> bool {
        true
    }

    open spec fn from_spec(v: GenerateTokenError) -> AuthAPIError {
        AuthAPIError::UnexpectedError
    }
}

/// Both the email and the password of a request are well-formed.
pub open spec fn credentials_well_formed(email: Seq<char>, password: Seq<char>) -> bool {
    email_verdict(email) is Ok && password_verdict(password) is Ok
}

/// The email and password of a request name a registered account and match its hash.
pub open spec fn credentials_match(
    users: Map<Seq<char>, (Seq<char>, Seq<char>, bool)>,
    email: Seq<char>,
    password: Seq<char>,
) -> bool {
    let e = email_verdict(email)->Ok_0;
    &&& credentials_well_formed(email, password)
    &&& users.contains_key(e)
    &&& argon2_accepts(users[e].1, password)
}

/// Registers an account. Malformed email or password: `InvalidCredentials`; email taken:
/// `UserAlreadyExists`; a hashing or store failure: `UnexpectedError`.
pub fn signup<U: UserStore>(users: &mut U, payload: &SignupPayload) -> (r: Result<
    SignupResponse,
    AuthAPIError,
>)
    ensures
        !credentials_well_formed(payload@.0, payload@.1) ==> r == Err::<
            SignupResponse,
            AuthAPIError,
        >(AuthAPIError::InvalidCredentials),
        credentials_well_formed(payload@.0, payload@.1) && old(users).users().contains_key(
            email_verdict(payload@.0)->Ok_0,
        ) ==> r == Err::<SignupResponse, AuthAPIError>(AuthAPIError::UserAlreadyExists) || r
            == Err::<SignupResponse, AuthAPIError>(AuthAPIError::UnexpectedError),
        credentials_well_formed(payload@.0, payload@.1) && !old(users).users().contains_key(
            email_verdict(payload@.0)->Ok_0,
        ) ==> r is Ok || r == Err::<SignupResponse, AuthAPIError>(AuthAPIError::UnexpectedError),
        old(users).reliable() && credentials_well_formed(payload@.0, payload@.1)
            && old(users).users().contains_key(email_verdict(payload@.0)->Ok_0) ==> r == Err::<
            SignupResponse,
            AuthAPIError,
        >(AuthAPIError::UserAlreadyExists),
        old(users).reliable() && credentials_well_formed(payload@.0, payload@.1)
            && !old(users).users().contains_key(email_verdict(payload@.0)->Ok_0) ==> r is Ok,
        r is Err ==> final(users).users() == old(users).users(),
        r is Err ==> r == Err::<SignupResponse, AuthAPIError>(AuthAPIError::InvalidCredentials) || r
            == Err::<SignupResponse, AuthAPIError>(AuthAPIError::UserAlreadyExists) || r == Err::<
            SignupResponse,
            AuthAPIError,
        >(AuthAPIError::UnexpectedError),
        r is Ok ==> ({
            let e = email_verdict(payload@.0)->Ok_0;
            let rec = final(users).users()[e];
            &&& credentials_well_formed(payload@.0, payload@.1)
            &&& !old(users).users().contains_key(e)
            &&& final(users).users() == old(users).users().insert(e, rec)
            &&& rec.0 == e && rec.2 == payload@.2
            &&& is_hash_of(rec.1, payload@.1)
            &&& r->Ok_0.message@ == "User created successfully!"@
        }),
{
    let email = match Email::parse(payload.email.as_str()) {
        Ok(email) => email,
        Err(_) => return Err(AuthAPIError::InvalidCredentials),
    };
    match Password::parse(payload.password.as_str()) {
        Ok(_) => {},
        Err(_) => return Err(AuthAPIError::InvalidCredentials),
    }
    match users.get_user(&email) {
        Ok(_) => return Err(AuthAPIError::UserAlreadyExists),
        Err(UserStoreError::UserNotFound) => {},
        Err(_) => return Err(AuthAPIError::UnexpectedError),
    }
    let user = match prepare_signup(payload) {
        Ok(user) => user,
        Err(e) => return Err(e),
    };
    register_user(users, user)
}

/// The account a signup request asks for, with its password hashed; touches no store, so the
/// slow hashing holds no lock. Malformed email or password: `InvalidCredentials`.
pub fn prepare_signup(payload: &SignupPayload) -> (r: Result<User, AuthAPIError>)
    ensures
        !credentials_well_formed(payload@.0, payload@.1) ==> r == Err::<User, AuthAPIError>(
            AuthAPIError::InvalidCredentials,
        ),
        credentials_well_formed(payload@.0, payload@.1) ==> r is Ok,
        r is Ok ==> ({
            let u = r->Ok_0@;
            &&& credentials_well_formed(payload@.0, payload@.1)
            &&& u.0 == email_verdict(payload@.0)->Ok_0
            &&& u.2 == payload@.2
            &&& is_hash_of(u.1, payload@.1)
        }),
{
    let email = match Email::parse(payload.email.as_str()) {
        Ok(email) => email,
        Err(_) => return Err(AuthAPIError::InvalidCredentials),
    };
    let password = match HashedPassword::parse(payload.password.as_str()) {
        Ok(hash) => hash,
        Err(_) => return Err(AuthAPIError::InvalidCredentials),
    };
    Ok(User::new(email, password, payload.requires_2fa))
}

/// Stores a prepared account; a taken email is `UserAlreadyExists`, a store failure
/// `UnexpectedError`.
pub fn register_user<U: UserStore>(users: &mut U, user: User) -> (r: Result<
    SignupResponse,
    AuthAPIError,
>)
    ensures
        old(users).users().contains_key(user.email@) <==> r == Err::<SignupResponse, AuthAPIError>(
            AuthAPIError::UserAlreadyExists,
        ),
        old(users).reliable() && !old(users).users().contains_key(user.email@) ==> r is Ok,
        r is Ok ==> final(users).users() == old(users).users().insert(user.email@, user@)
            && r->Ok_0.message@ == "User created successfully!"@,
        r is Err ==> final(users).users() == old(users).users() && (r == Err::<
            SignupResponse,
            AuthAPIError,
        >(AuthAPIError::UserAlreadyExists) || r == Err::<SignupResponse, AuthAPIError>(
            AuthAPIError::UnexpectedError,
        )),
        final(users).reliable() == old(users).reliable(),
{
    match users.add_user(user) {
        Ok(()) => Ok(SignupResponse::new("User created successfully!")),
        Err(UserStoreError::UserAlreadyExists) => Err(AuthAPIError::UserAlreadyExists),
        Err(_) => Err(AuthAPIError::UnexpectedError),
    }
}

/// Logs in. Malformed credentials: `InvalidCredentials`; unknown email or wrong password:
/// `Unauthorized` (never revealing which). Without a second factor a token is issued; with
/// one, a challenge of `fresh_id` and `fresh_code` is recorded first and the code is mailed to
/// the account's email after. A failing store or mail transport gives `UnexpectedError`.
pub fn login<U: UserStore, C: TwoFACodeStore, M: EmailClient>(
    users: &U,
    codes: &mut C,
    email_client: &mut M,
    payload: &LoginPayload,
    fresh_id: LoginAttemptId,
    fresh_code: TwoFACode,
    now: u64,
    secret: &str,
) -> (r: Result<LoginResponse, AuthAPIError>)
    ensures
        ({
            let e = email_verdict(payload@.0)->Ok_0;
            let well_formed = credentials_well_formed(payload@.0, payload@.1);
            let ok = credentials_match(users.users(), payload@.0, payload@.1);
            let challenged = ok && users.users()[e].2 && !old(codes).codes().contains_key(e);
            let mail = (e, "2FA: Verify Email"@, fresh_code@);
            &&& !well_formed ==> r == Err::<LoginResponse, AuthAPIError>(
                AuthAPIError::InvalidCredentials,
            )
            &&& well_formed && !users.users().contains_key(e) ==> r == Err::<
                LoginResponse,
                AuthAPIError,
            >(AuthAPIError::Unauthorized)
            &&& well_formed && !ok ==> r == Err::<LoginResponse, AuthAPIError>(
                AuthAPIError::Unauthorized,
            ) || r == Err::<LoginResponse, AuthAPIError>(AuthAPIError::UnexpectedError)
            &&& users.reliable() && well_formed && !ok ==> r == Err::<LoginResponse, AuthAPIError>(
                AuthAPIError::Unauthorized,
            )
            &&& r is Ok ==> ok
            &&& r is Err ==> r == Err::<LoginResponse, AuthAPIError>(
                AuthAPIError::InvalidCredentials,
            ) || r == Err::<LoginResponse, AuthAPIError>(AuthAPIError::Unauthorized) || r
                == Err::<LoginResponse, AuthAPIError>(AuthAPIError::UserAlreadyExists) || r
                == Err::<LoginResponse, AuthAPIError>(AuthAPIError::UnexpectedError)
            &&& r matches Ok(LoginResponse::RegularAuth(t)) ==> !users.users()[e].2 && t@
                == issued_token(e, (now + TOKEN_TTL_SECONDS) as nat, secret@) && validates_until(
                t@,
                e,
                (now + TOKEN_TTL_SECONDS) as nat,
                secret@,
            )
            &&& r matches Ok(LoginResponse::TwoFactorAuth(resp)) ==> challenged
                && resp.login_attempt_id@ == fresh_id@ && resp.message@ == "2FA required"@
                && final(email_client).outbox() == old(email_client).outbox().push(mail)
                && is_attempt_id(fresh_id@) && is_code_text(fresh_code@)
            &&& ok && users.users()[e].2 && old(codes).codes().contains_key(e) ==> r == Err::<
                LoginResponse,
                AuthAPIError,
            >(AuthAPIError::UserAlreadyExists) || r == Err::<LoginResponse, AuthAPIError>(
                AuthAPIError::UnexpectedError,
            )
            &&& users.reliable() && ok && users.users()[e].2 && old(codes).codes().contains_key(e)
                ==> r == Err::<LoginResponse, AuthAPIError>(AuthAPIError::UserAlreadyExists)
            &&& ok && !users.users()[e].2 && now + TOKEN_TTL_SECONDS <= u64::MAX ==> (r matches Ok(
                LoginResponse::RegularAuth(_),
            )) || r == Err::<LoginResponse, AuthAPIError>(AuthAPIError::UnexpectedError)
            &&& users.reliable() && ok && !users.users()[e].2 && now + TOKEN_TTL_SECONDS
                <= u64::MAX ==> (r matches Ok(LoginResponse::RegularAuth(_)))
            &&& challenged ==> (r matches Ok(LoginResponse::TwoFactorAuth(_))) || r == Err::<
                LoginResponse,
                AuthAPIError,
            >(AuthAPIError::UnexpectedError)
            &&& users.reliable() && old(email_client).reliable() && challenged ==> (r matches Ok(
                LoginResponse::TwoFactorAuth(_),
            ))
            &&& r matches Ok(LoginResponse::TwoFactorAuth(_)) ==> final(codes).codes() == old(
                codes,
            ).codes().insert(e, (fresh_id@, fresh_code@))
            &&& final(codes).codes() == old(codes).codes() || (challenged && final(codes).codes()
                == old(codes).codes().insert(e, (fresh_id@, fresh_code@)))
            &&& !challenged ==> final(email_client).outbox() == old(email_client).outbox()
            &&& final(email_client).reliable() == old(email_client).reliable()
        }),
{
    let (email, requires_2fa) = match authenticate(users, payload) {
        Ok(found) => found,
        Err(e) => return Err(e),
    };
    complete_login(&email, requires_2fa, codes, email_client, fresh_id, fresh_code, now, secret)
}

/// Checks the credentials of a login against the accounts; touches neither the challenges
/// nor the mail, so the slow verification holds only the accounts' read lock. On success
/// returns the email and whether its account asks for a second factor.
pub fn authenticate<U: UserStore>(users: &U, payload: &LoginPayload) -> (r: Result<
    (Email, bool),
    AuthAPIError,
>)
    ensures
        ({
            let e = email_verdict(payload@.0)->Ok_0;
            let well_formed = credentials_well_formed(payload@.0, payload@.1);
            let ok = credentials_match(users.users(), payload@.0, payload@.1);
            &&& !well_formed ==> r == Err::<(Email, bool), AuthAPIError>(
                AuthAPIError::InvalidCredentials,
            )
            &&& well_formed && !users.users().contains_key(e) ==> r == Err::<
                (Email, bool),
                AuthAPIError,
            >(AuthAPIError::Unauthorized)
            &&& well_formed && !ok ==> r == Err::<(Email, bool), AuthAPIError>(
                AuthAPIError::Unauthorized,
            ) || r == Err::<(Email, bool), AuthAPIError>(AuthAPIError::UnexpectedError)
            &&& users.reliable() && well_formed && !ok ==> r == Err::<(Email, bool), AuthAPIError>(
                AuthAPIError::Unauthorized,
            )
            &&& r is Ok ==> ok && r->Ok_0.0@ == e && r->Ok_0.1 == users.users()[e].2
            &&& ok ==> r is Ok || r == Err::<(Email, bool), AuthAPIError>(
                AuthAPIError::UnexpectedError,
            )
            &&& users.reliable() && ok ==> r is Ok
            &&& r is Err ==> r == Err::<(Email, bool), AuthAPIError>(
                AuthAPIError::InvalidCredentials,
            ) || r == Err::<(Email, bool), AuthAPIError>(AuthAPIError::Unauthorized) || r
                == Err::<(Email, bool), AuthAPIError>(AuthAPIError::UnexpectedError)
        }),
{
    let email = match Email::parse(payload.email.as_str()) {
        Ok(email) => email,
        Err(_) => return Err(AuthAPIError::InvalidCredentials),
    };
    match Password::parse(payload.password.as_str()) {
        Ok(_) => {},
        Err(_) => return Err(AuthAPIError::InvalidCredentials),
    }
    match users.validate_user(&email, payload.password.as_str()) {
        Ok(()) => {},
        Err(UserStoreError::UnexpectedError) => return Err(AuthAPIError::UnexpectedError),
        Err(_) => return Err(AuthAPIError::Unauthorized),
    }
    let user = match users.get_user(&email) {
        Ok(user) => user,
        Err(_) => return Err(AuthAPIError::UnexpectedError),
    };
    Ok((email, user.requires_2fa()))
}

/// Finishes an authenticated login of `email`: a token when no second factor is asked for;
/// otherwise a recorded challenge and its code mailed.
pub fn complete_login<C: TwoFACodeStore, M: EmailClient>(
    email: &Email,
    requires_2fa: bool,
    codes: &mut C,
    email_client: &mut M,
    fresh_id: LoginAttemptId,
    fresh_code: TwoFACode,
    now: u64,
    secret: &str,
) -> (r: Result<LoginResponse, AuthAPIError>)
    ensures
        ({
            let e = email@;
            let challenged = requires_2fa && !old(codes).codes().contains_key(e);
            let mail = (e, "2FA: Verify Email"@, fresh_code@);
            &&& requires_2fa && old(codes).codes().contains_key(e) ==> r == Err::<
                LoginResponse,
                AuthAPIError,
            >(AuthAPIError::UserAlreadyExists)
            &&& challenged ==> final(codes).codes() == old(codes).codes().insert(
                e,
                (fresh_id@, fresh_code@),
            )
            &&& !challenged ==> final(codes).codes() == old(codes).codes()
            &&& !challenged ==> final(email_client).outbox() == old(email_client).outbox()
            &&& challenged ==> (r matches Ok(LoginResponse::TwoFactorAuth(_))) || r == Err::<
                LoginResponse,
                AuthAPIError,
            >(AuthAPIError::UnexpectedError)
            &&& challenged && old(email_client).reliable() ==> (r matches Ok(
                LoginResponse::TwoFactorAuth(_),
            ))
            &&& r matches Ok(LoginResponse::TwoFactorAuth(resp)) ==> challenged
                && resp.login_attempt_id@ == fresh_id@ && resp.message@ == "2FA required"@
                && final(email_client).outbox() == old(email_client).outbox().push(mail)
                && is_attempt_id(fresh_id@) && is_code_text(fresh_code@)
            &&& !requires_2fa && now + TOKEN_TTL_SECONDS <= u64::MAX ==> (r matches Ok(
                LoginResponse::RegularAuth(_),
            ))
            &&& !requires_2fa && now + TOKEN_TTL_SECONDS > u64::MAX ==> r == Err::<
                LoginResponse,
                AuthAPIError,
            >(AuthAPIError::UnexpectedError)
            &&& r matches Ok(LoginResponse::RegularAuth(t)) ==> !requires_2fa && t@ == issued_token(
                e,
                (now + TOKEN_TTL_SECONDS) as nat,
                secret@,
            ) && validates_until(t@, e, (now + TOKEN_TTL_SECONDS) as nat, secret@)
            &&& r is Err ==> r == Err::<LoginResponse, AuthAPIError>(
                AuthAPIError::UserAlreadyExists,
            ) || r == Err::<LoginResponse, AuthAPIError>(AuthAPIError::UnexpectedError)
            &&& final(email_client).reliable() == old(email_client).reliable()
        }),
{
    if requires_2fa {
        handle_2fa(email, codes, email_client, fresh_id, fresh_code)
    } else {
        handle_no_2fa(email, now, secret)
    }
}

/// Records the challenge of `email`, then mails its code. An outstanding challenge is a
/// conflict, never replaced, and nothing is mailed; a failed delivery is `UnexpectedError`.
fn handle_2fa<C: TwoFACodeStore, M: EmailClient>(
    email: &Email,
    codes: &mut C,
    email_client: &mut M,
    fresh_id: LoginAttemptId,
    fresh_code: TwoFACode,
) -> (r: Result<LoginResponse, AuthAPIError>)
    ensures
        old(codes).codes().contains_key(email@) ==> r == Err::<LoginResponse, AuthAPIError>(
            AuthAPIError::UserAlreadyExists,
        ) && final(codes).codes() == old(codes).codes() && final(email_client).outbox() == old(
            email_client,
        ).outbox(),
        !old(codes).codes().contains_key(email@) ==> final(codes).codes() == old(codes).codes().insert(
            email@,
            (fresh_id@, fresh_code@),
        ),
        !old(codes).codes().contains_key(email@) ==> (r matches Ok(
            LoginResponse::TwoFactorAuth(resp),
        ) && resp.login_attempt_id@ == fresh_id@ && resp.message@ == "2FA required"@) || r
            == Err::<LoginResponse, AuthAPIError>(AuthAPIError::UnexpectedError),
        !old(codes).codes().contains_key(email@) && old(email_client).reliable() ==> r is Ok,
        r is Ok ==> final(email_client).outbox() == old(email_client).outbox().push(
            (email@, "2FA: Verify Email"@, fresh_code@),
        ),
        final(email_client).reliable() == old(email_client).reliable(),
        is_attempt_id(fresh_id@) && is_code_text(fresh_code@),
{
    let attempt_text = String::from_str(fresh_id.as_str());
    let code_for_mail = String::from_str(fresh_code.as_str());
    match codes.add_code(email.to_owned_email(), fresh_id, fresh_code) {
        Ok(()) => {},
        Err(_) => return Err(AuthAPIError::UserAlreadyExists),
    }
    match email_client.send_email(email, "2FA: Verify Email", code_for_mail.as_str()) {
        Ok(()) => {},
        Err(_) => return Err(AuthAPIError::UnexpectedError),
    }
    Ok(
        LoginResponse::TwoFactorAuth(
            TwoFactorAuthResponse {
                message: String::from_str("2FA required"),
                login_attempt_id: attempt_text,
            },
        ),
    )
}

/// Issues the token of a login that needs no second factor.
fn handle_no_2fa(email: &Email, now: u64, secret: &str) -> (r: Result<LoginResponse, AuthAPIError>)
    ensures
        now + TOKEN_TTL_SECONDS <= u64::MAX ==> (r matches Ok(LoginResponse::RegularAuth(t)) && t@
            == issued_token(email@, (now + TOKEN_TTL_SECONDS) as nat, secret@) && validates_until(
            t@,
            email@,
            (now + TOKEN_TTL_SECONDS) as nat,
            secret@,
        )),
        now + TOKEN_TTL_SECONDS > u64::MAX ==> r == Err::<LoginResponse, AuthAPIError>(
            AuthAPIError::UnexpectedError,
        ),
{
    match generate_auth_token(email, now, secret) {
        Ok(token) => Ok(LoginResponse::RegularAuth(token)),
        Err(_) => Err(AuthAPIError::UnexpectedError),
    }
}

/// What a second-factor request gives against the challenges `codes`: the email it
/// authenticates, or the error. A malformed field: `InvalidCredentials`; no challenge, or
/// either field not matching it: `Unauthorized`.
pub open spec fn challenge_verdict(
    codes: Map<Seq<char>, (Seq<char>, Seq<char>)>,
    email: Seq<char>,
    attempt_id: Seq<char>,
    code: Seq<char>,
) -> Result<Seq<char>, AuthAPIError> {
    if email_verdict(email) is Err || !is_uuid_text(attempt_id) || !is_code_text(code) {
        Err(AuthAPIError::InvalidCredentials)
    } else {
        let e = email_verdict(email)->Ok_0;
        if !codes.contains_key(e) {
            Err(AuthAPIError::Unauthorized)
        } else if codes[e].0 != ascii_lower_seq(attempt_id) || codes[e].1 != code {
            Err(AuthAPIError::Unauthorized)
        } else {
            Ok(e)
        }
    }
}

/// Parses the three fields of a second-factor request; any malformed field is
/// `InvalidCredentials`.
fn verify_payload(payload: &Verify2FAPayload) -> (r: Result<
    (Email, LoginAttemptId, TwoFACode),
    AuthAPIError,
>)
    ensures
        r is Ok <==> email_verdict(payload@.0) is Ok && is_uuid_text(payload@.1) && is_code_text(
            payload@.2,
        ),
        r is Ok ==> r->Ok_0.0@ == email_verdict(payload@.0)->Ok_0 && r->Ok_0.1@ == ascii_lower_seq(
            payload@.1,
        ) && r->Ok_0.2@ == payload@.2,
        r is Err ==> r == Err::<(Email, LoginAttemptId, TwoFACode), AuthAPIError>(
            AuthAPIError::InvalidCredentials,
        ),
{
    let email = match Email::parse(payload.email.as_str()) {
        Ok(email) => email,
        Err(_) => return Err(AuthAPIError::InvalidCredentials),
    };
    let attempt_id = match LoginAttemptId::parse(payload.login_attempt_id.clone()) {
        Ok(id) => id,
        Err(_) => return Err(AuthAPIError::InvalidCredentials),
    };
    let code = match TwoFACode::parse(payload.code.clone()) {
        Ok(code) => code,
        Err(_) => return Err(AuthAPIError::InvalidCredentials),
    };
    Ok((email, attempt_id, code))
}

/// Checks a second-factor answer. On a match the challenge is consumed and a token issued;
/// otherwise the challenges are left as they were.
pub fn verify_2fa<C: TwoFACodeStore>(
    codes: &mut C,
    payload: &Verify2FAPayload,
    now: u64,
    secret: &str,
) -> (r: Result<String, AuthAPIError>)
    ensures
        ({
            let v = challenge_verdict(
                old(codes).codes(),
                payload@.0,
                payload@.1,
                payload@.2,
            );
            &&& v is Err ==> r == Err::<String, AuthAPIError>(v->Err_0) && final(codes).codes()
                == old(codes).codes()
            &&& v is Ok && now + TOKEN_TTL_SECONDS <= u64::MAX ==> r is Ok && r->Ok_0@
                == issued_token(v->Ok_0, (now + TOKEN_TTL_SECONDS) as nat, secret@)
                && validates_until(r->Ok_0@, v->Ok_0, (now + TOKEN_TTL_SECONDS) as nat, secret@)
                && final(codes).codes() == old(codes).codes().remove(v->Ok_0)
            &&& v is Ok && now + TOKEN_TTL_SECONDS > u64::MAX ==> r == Err::<String, AuthAPIError>(
                AuthAPIError::UnexpectedError,
            ) && final(codes).codes() == old(codes).codes()
        }),
{
    let (email, attempt_id, code) = match verify_payload(payload) {
        Ok(fields) => fields,
        Err(e) => return Err(e),
    };
    let (stored_id, stored_code) = match codes.get_code(&email) {
        Ok(entry) => entry,
        Err(_) => return Err(AuthAPIError::Unauthorized),
    };
    if !attempt_id.same_as(&stored_id) || !code.same_as(&stored_code) {
        return Err(AuthAPIError::Unauthorized);
    }
    let token = match generate_auth_token(&email, now, secret) {
        Ok(token) => token,
        Err(_) => return Err(AuthAPIError::UnexpectedError),
    };
    match codes.remove_code(&email) {
        Ok(()) => {},
        Err(_) => return Err(AuthAPIError::Unauthorized),
    }
    Ok(token)
}

/// A challenge answers once: after a request that it accepted has consumed it, the same
/// request is refused with `Unauthorized` and no challenge is left for that email.
pub proof fn lemma_challenge_single_use(
    codes: Map<Seq<char>, (Seq<char>, Seq<char>)>,
    email: Seq<char>,
    attempt_id: Seq<char>,
    code: Seq<char>,
)
    requires
        challenge_verdict(codes, email, attempt_id, code) is Ok,
    ensures
        ({
            let e = challenge_verdict(codes, email, attempt_id, code)->Ok_0;
            &&& !codes.remove(e).contains_key(e)
            &&& challenge_verdict(codes.remove(e), email, attempt_id, code) == Err::<
                Seq<char>,
                AuthAPIError,
            >(AuthAPIError::Unauthorized)
        }),
{
}

/// A recorded challenge accepts the pair it was recorded with: the attempt identifier handed
/// out and the code mailed, sent back unchanged for the same email.
pub proof fn lemma_challenge_accepts_its_pair(
    codes: Map<Seq<char>, (Seq<char>, Seq<char>)>,
    email: Seq<char>,
    attempt_id: Seq<char>,
    code: Seq<char>,
)
    requires
        email_verdict(email) is Ok,
        codes.contains_key(email_verdict(email)->Ok_0),
        codes[email_verdict(email)->Ok_0] == (attempt_id, code),
        is_attempt_id(attempt_id),
        is_code_text(code),
    ensures
        challenge_verdict(codes, email, attempt_id, code) == Ok::<Seq<char>, AuthAPIError>(
            email_verdict(email)->Ok_0,
        ),
{
}

/// Revokes the presented token. No token: `MissingToken`; an empty one, one that fails
/// validation, or one already revoked: `InvalidToken`.
pub fn logout<B: BannedTokenStore>(banned: &mut B, token: Option<String>, now: u64, secret: &str) -> (r:
    Result<(), AuthAPIError>)
    ensures
        token is None ==> r == Err::<(), AuthAPIError>(AuthAPIError::MissingToken) && final(banned).banned() == old(banned).banned(),
        token matches Some(t) ==> {
            &&& token_verdict(t@, now as nat, secret@, old(banned).banned()) is Ok ==> r is Ok
                && final(banned).banned() == old(banned).banned().insert(t@)
            &&& token_verdict(t@, now as nat, secret@, old(banned).banned()) is Err ==> r
                == Err::<(), AuthAPIError>(AuthAPIError::InvalidToken) && final(banned).banned()
                == old(banned).banned()
        },
{
    let token = match token {
        Some(token) => token,
        None => return Err(AuthAPIError::from(LogoutError::MissingToken)),
    };
    if token.as_str().is_empty() {
        return Err(AuthAPIError::from(LogoutError::InvalidToken));
    }
    match validate_token(banned, token.as_str(), now, secret) {
        Ok(_) => {},
        Err(_) => return Err(AuthAPIError::from(LogoutError::InvalidToken)),
    }
    match banned.ban_token(token) {
        Ok(()) => Ok(()),
        Err(BannedTokenStoreError::TokenAlreadyBanned) => Err(
            AuthAPIError::from(LogoutError::InvalidToken),
        ),
    }
}

/// Checks a presented token; any failure is reported as `InvalidToken`.
pub fn verify_token<B: BannedTokenStore>(
    banned: &B,
    payload: &VerifyTokenPayload,
    now: u64,
    secret: &str,
) -> (r: Result<Email, AuthAPIError>)
    ensures
        r is Ok <==> token_verdict(payload@, now as nat, secret@, banned.banned()) is Ok,
        r is Ok ==> r->Ok_0@ == token_verdict(
            payload@,
            now as nat,
            secret@,
            banned.banned(),
        )->Ok_0,
        r is Err ==> r == Err::<Email, AuthAPIError>(AuthAPIError::InvalidToken),
{
    match validate_token(banned, payload.token.as_str(), now, secret) {
        Ok(email) => Ok(email),
        Err(_) => Err(AuthAPIError::InvalidToken),
    }
}

} // verus!
