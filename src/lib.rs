//! An authentication core: credential value types, account, challenge and revoked-token
//! stores, a signed bearer token, and the signup / login / second-factor / logout flows.
pub mod data_stores;
pub mod email;
pub mod email_client;
pub mod error;
pub mod login_attempt_id;
pub mod password;
pub mod routes;
pub mod services;
pub mod text;
pub mod token;
pub mod two_fa_code;
pub mod user;

pub use data_stores::{
    BannedTokenStore, BannedTokenStoreError, TwoFACodeStore, TwoFACodeStoreError, UserStore,
    UserStoreError,
};
pub use email::{Email, EmailError};
pub use email_client::{get_email_client, EmailClient, MockEmailClient};
pub use error::{AuthAPIError, ErrorResponse};
pub use login_attempt_id::LoginAttemptId;
pub use password::{HashedPassword, HashedPasswordError, Password, PasswordError};
pub use routes::{
    authenticate, complete_login, login, logout, prepare_signup, register_user, signup,
    verify_2fa, verify_token, LoginPayload, LoginResponse, LogoutError,
    SignupPayload, SignupResponse, TwoFactorAuthResponse, Verify2FAPayload, VerifyTokenPayload,
};
pub use services::{HashmapTwoFACodeStore, HashmapUserStore, HashsetBannedTokenStore};
pub use token::{
    generate_auth_token, validate_token, GenerateTokenError, TokenError, JWT_COOKIE_NAME,
    TOKEN_TTL_SECONDS,
};
pub use two_fa_code::TwoFACode;
pub use user::User;
