use user_accounts::storage::hashing::hashed;
use user_accounts::storage::{hash_password, verify_password, HashError};

#[test]
fn test_hash_password() {
    let password = "test_password_123!";
    let hash1 = hash_password(password).unwrap();
    let hash2 = hash_password(password).unwrap();

    // Hashes should be different due to random salt
    assert_ne!(hash1, hash2);

    // Both hashes should be valid for the same password
    assert!(verify_password(&hash1, password).unwrap());
    assert!(verify_password(&hash2, password).unwrap());

    // Hashes should not work for different passwords
    assert!(!verify_password(&hash1, "wrong_password").unwrap());
}

#[test]
fn test_verify_password() {
    let password = "test_password_123!";
    let hash = hash_password(password).unwrap();

    // Correct password should verify
    assert!(verify_password(&hash, password).unwrap());

    // Wrong password should not verify
    assert!(!verify_password(&hash, "wrong_password").unwrap());

    // Invalid hash should error
    assert!(verify_password("invalid_hash", password).is_err());
}

#[test]
fn outcome_of_hashing_is_passed_on_as_it_came() {
    assert_eq!(
        hashed(Ok("$argon2id$v=19$stored".to_string())),
        Ok("$argon2id$v=19$stored".to_string())
    );
    assert_eq!(
        hashed(Err("password is too long".to_string())),
        Err(HashError {
            reason: "password is too long".to_string()
        })
    );
}
