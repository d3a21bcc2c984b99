use auth_service::{
    BannedTokenStore, BannedTokenStoreError, Email, HashedPassword, HashmapTwoFACodeStore,
    HashmapUserStore, HashsetBannedTokenStore, LoginAttemptId, TwoFACode, TwoFACodeStore,
    TwoFACodeStoreError, User, UserStore, UserStoreError,
};

fn create_test_email() -> Email {
    Email::parse("test@example.com").unwrap()
}

fn create_test_login_attempt_id() -> LoginAttemptId {
    LoginAttemptId::default()
}

fn create_test_2fa_code() -> TwoFACode {
    TwoFACode::parse("123456".to_string()).unwrap()
}

#[test]
fn test_add_code_success() {
    let mut store = HashmapTwoFACodeStore::default();
    let email = create_test_email();
    let login_id = create_test_login_attempt_id();
    let code = create_test_2fa_code();

    let result = store.add_code(email.clone(), login_id.clone(), code.clone());
    assert!(result.is_ok());

    let stored = store.get_code(&email).unwrap();
    assert_eq!(stored.0, login_id);
    assert_eq!(stored.1, code);
}

#[test]
fn test_add_code_rejects_duplicate() {
    let mut store = HashmapTwoFACodeStore::default();
    let email = create_test_email();
    let login_id1 = create_test_login_attempt_id();
    let code1 = create_test_2fa_code();
    let login_id2 = create_test_login_attempt_id();
    let code2 = TwoFACode::parse("654321".to_string()).unwrap();

    store.add_code(email.clone(), login_id1.clone(), code1.clone()).unwrap();

    let result = store.add_code(email.clone(), login_id2, code2);
    assert!(result.is_err());
    assert_eq!(result.unwrap_err(), TwoFACodeStoreError::CodeAlreadyExists);

    let stored = store.get_code(&email).unwrap();
    assert_eq!(stored.0, login_id1);
    assert_eq!(stored.1, code1);
}

#[test]
fn test_add_code_after_removal() {
    let mut store = HashmapTwoFACodeStore::default();
    let email = create_test_email();
    let login_id1 = create_test_login_attempt_id();
    let code1 = create_test_2fa_code();

    store.add_code(email.clone(), login_id1, code1).unwrap();
    store.remove_code(&email).unwrap();

    let login_id2 = create_test_login_attempt_id();
    let code2 = TwoFACode::parse("654321".to_string()).unwrap();
    store.add_code(email.clone(), login_id2.clone(), code2.clone()).unwrap();

    let stored = store.get_code(&email).unwrap();
    assert_eq!(stored.0, login_id2);
    assert_eq!(stored.1, code2);
}

#[test]
fn test_get_code_success() {
    let mut store = HashmapTwoFACodeStore::default();
    let email = create_test_email();
    let login_id = create_test_login_attempt_id();
    let code = create_test_2fa_code();

    store.add_code(email.clone(), login_id.clone(), code.clone()).unwrap();

    let result = store.get_code(&email);
    assert!(result.is_ok());
    let (retrieved_login_id, retrieved_code) = result.unwrap();
    assert_eq!(retrieved_login_id, login_id);
    assert_eq!(retrieved_code, code);
}

#[test]
fn test_get_code_email_not_found() {
    let store = HashmapTwoFACodeStore::default();
    let email = create_test_email();

    let result = store.get_code(&email);
    assert!(result.is_err());
    assert!(matches!(result.unwrap_err(), TwoFACodeStoreError::CodeNotFound));
}

#[test]
fn test_remove_code_success() {
    let mut store = HashmapTwoFACodeStore::default();
    let email = create_test_email();
    let login_id = create_test_login_attempt_id();
    let code = create_test_2fa_code();

    store.add_code(email.clone(), login_id, code).unwrap();
    assert!(store.get_code(&email).is_ok());

    let result = store.remove_code(&email);
    assert!(result.is_ok());

    let get_result = store.get_code(&email);
    assert!(get_result.is_err());
    assert!(matches!(get_result.unwrap_err(), TwoFACodeStoreError::CodeNotFound));
}

#[test]
fn test_remove_code_email_not_found() {
    let mut store = HashmapTwoFACodeStore::default();
    let email = create_test_email();

    let result = store.remove_code(&email);
    assert!(result.is_err());
    assert!(matches!(result.unwrap_err(), TwoFACodeStoreError::CodeNotFound));
}

#[test]
fn test_multiple_emails() {
    let mut store = HashmapTwoFACodeStore::default();
    let email1 = Email::parse("user1@example.com").unwrap();
    let email2 = Email::parse("user2@example.com").unwrap();
    let login_id1 = create_test_login_attempt_id();
    let login_id2 = create_test_login_attempt_id();
    let code1 = TwoFACode::parse("111111".to_string()).unwrap();
    let code2 = TwoFACode::parse("222222".to_string()).unwrap();

    store.add_code(email1.clone(), login_id1.clone(), code1.clone()).unwrap();
    store.add_code(email2.clone(), login_id2.clone(), code2.clone()).unwrap();

    let result1 = store.get_code(&email1).unwrap();
    let result2 = store.get_code(&email2).unwrap();

    assert_eq!(result1.0, login_id1);
    assert_eq!(result1.1, code1);
    assert_eq!(result2.0, login_id2);
    assert_eq!(result2.1, code2);

    store.remove_code(&email1).unwrap();

    assert!(store.get_code(&email1).is_err());
    assert!(store.get_code(&email2).is_ok());
}

#[test]
fn test_default_implementation() {
    let store = HashmapTwoFACodeStore::default();
    let email = create_test_email();

    let result = store.get_code(&email);
    assert!(result.is_err());
    assert!(matches!(result.unwrap_err(), TwoFACodeStoreError::CodeNotFound));
}

#[test]
fn test_store_isolation() {
    let mut store1 = HashmapTwoFACodeStore::default();
    let store2 = HashmapTwoFACodeStore::default();
    let email = create_test_email();
    let login_id = create_test_login_attempt_id();
    let code = create_test_2fa_code();

    store1.add_code(email.clone(), login_id, code).unwrap();

    assert!(store1.get_code(&email).is_ok());
    assert!(store2.get_code(&email).is_err());
}

#[test]
fn test_large_number_of_entries() {
    let mut store = HashmapTwoFACodeStore::default();
    let num_entries = 1000;

    for i in 0..num_entries {
        let email = Email::parse(format!("user{}@example.com", i).as_str()).unwrap();
        let login_id = create_test_login_attempt_id();
        let code = TwoFACode::parse(format!("{:06}", i % 1000000)).unwrap();
        store.add_code(email, login_id, code).unwrap();
    }

    for i in [0, 100, 500, 999] {
        let email = Email::parse(format!("user{}@example.com", i).as_str()).unwrap();
        let result = store.get_code(&email);
        assert!(result.is_ok(), "Entry {} should exist", i);
    }

    for i in 0..num_entries / 2 {
        let email = Email::parse(format!("user{}@example.com", i).as_str()).unwrap();
        store.remove_code(&email).unwrap();
    }

    for i in 0..num_entries / 2 {
        let email = Email::parse(format!("user{}@example.com", i).as_str()).unwrap();
        assert!(store.get_code(&email).is_err(), "Entry {} should be removed", i);
    }

    for i in num_entries / 2..num_entries {
        let email = Email::parse(format!("user{}@example.com", i).as_str()).unwrap();
        assert!(store.get_code(&email).is_ok(), "Entry {} should still exist", i);
    }
}

#[test]
fn test_concurrent_operations() {
    let store = std::sync::Arc::new(std::sync::RwLock::new(HashmapTwoFACodeStore::default()));
    let email = create_test_email();
    let login_id = create_test_login_attempt_id();
    let code = create_test_2fa_code();

    store.write().unwrap().add_code(email.clone(), login_id, code).unwrap();

    let readers: Vec<_> = (0..10).map(|_| std::sync::Arc::clone(&store)).collect();
    for reader in readers {
        let guard = reader.read().unwrap();
        assert!(guard.get_code(&email).is_ok());
    }
}

fn test_user(email: &Email) -> User {
    let password = HashedPassword::parse("ValidPassword123").unwrap();
    User::new(email.clone(), password, false)
}

#[test]
fn test_add_user() {
    let mut store = HashmapUserStore::new();
    let email = Email::parse("test@example.com").unwrap();
    let user = test_user(&email);

    let result = store.add_user(user.clone());

    assert!(result.is_ok());
    assert_eq!(store.get_users_ref().get(email.as_str()).unwrap(), &user);
}

#[test]
fn test_get_user() {
    let mut store = HashmapUserStore::new();
    let email = Email::parse("test@example.com").unwrap();
    let user = test_user(&email);

    store.insert_user_unchecked(email.clone(), user.clone());

    assert_eq!(store.get_user(&email).unwrap(), user);
}

#[test]
fn test_validate_user() {
    let mut store = HashmapUserStore::new();
    let email = Email::parse("test@example.com").unwrap();
    let user = test_user(&email);

    store.add_user(user.clone()).unwrap();

    assert!(store.validate_user(&email, "ValidPassword123").is_ok());
}

#[test]
fn user_store_reports_missing_and_wrong_password() {
    let mut store = HashmapUserStore::new();
    let email = Email::parse("test@example.com").unwrap();
    let other = Email::parse("other@example.com").unwrap();
    store.add_user(test_user(&email)).unwrap();

    assert_eq!(store.get_user(&other), Err(UserStoreError::UserNotFound));
    assert_eq!(store.validate_user(&other, "ValidPassword123"), Err(UserStoreError::UserNotFound));
    assert_eq!(
        store.validate_user(&email, "ValidPassword124"),
        Err(UserStoreError::InvalidCredentials)
    );
}

#[test]
fn signup_race_has_exactly_one_winner() {
    let store = std::sync::Arc::new(std::sync::RwLock::new(HashmapUserStore::new()));
    let email = Email::parse("race@example.com").unwrap();
    let password = HashedPassword::parse("ValidPassword123").unwrap();
    let n = 16;
    let mut successes = 0;
    let mut conflicts = 0;
    for i in 0..n {
        let user = User::new(email.clone(), password.clone(), i % 2 == 0);
        match store.write().unwrap().add_user(user) {
            Ok(()) => successes += 1,
            Err(UserStoreError::UserAlreadyExists) => conflicts += 1,
            Err(e) => panic!("unexpected error {:?}", e),
        }
    }
    assert_eq!(successes, 1);
    assert_eq!(conflicts, n - 1);
    assert!(store.read().unwrap().get_user(&email).unwrap().requires_2fa());
}

#[test]
fn ledger_ban_is_checked_and_monotonic() {
    let mut ledger = HashsetBannedTokenStore::new();
    let token = "some.token.value".to_string();
    assert!(!ledger.is_banned(token.clone()));
    assert_eq!(ledger.ban_token(token.clone()), Ok(()));
    assert!(ledger.is_banned(token.clone()));
    assert_eq!(ledger.ban_token(token.clone()), Err(BannedTokenStoreError::TokenAlreadyBanned));
    assert!(ledger.is_banned(token.clone()));
    assert!(!ledger.is_banned("another".to_string()));
}
