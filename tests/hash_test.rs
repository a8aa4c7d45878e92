use auth_api::password::{HashError, HashService};

#[test]
fn test_hash_password_success() {
    let password = "password123";
    let hashed_password_result = HashService::hash_password(password);
    assert!(hashed_password_result.is_ok());

    let hashed_password = hashed_password_result.unwrap();
    assert_ne!(hashed_password, password);
}

#[test]
fn test_hash_password_empty() {
    let empty_password = "";
    let empty_password_result = HashService::hash_password(empty_password);
    assert!(empty_password_result.is_err());
}

#[test]
fn test_hash_password_random() {
    let password = "a9#B!2cD";
    let hashed_password_result = HashService::hash_password(password);
    assert!(hashed_password_result.is_ok());
}

#[test]
fn test_check_password_matching() {
    let password = "password123";
    let hashed_password = HashService::hash_password(password).unwrap();

    let password_match_result = HashService::check_password(password, &hashed_password);
    assert!(password_match_result.is_ok());
    assert!(password_match_result.unwrap());
}

#[test]
fn test_check_password_not_matching() {
    let password = "password123";
    let incorrect_password = "incorrect_password";
    let hashed_password = HashService::hash_password(password).unwrap();

    let password_match_result = HashService::check_password(incorrect_password, &hashed_password);
    assert!(password_match_result.is_ok());
    assert!(!password_match_result.unwrap());
}

#[test]
fn test_check_password_invalid_hash() {
    let invalid_hash = "invalid_hash";
    let password = "password123";

    let password_match_result = HashService::check_password(password, invalid_hash);
    assert!(password_match_result.is_err());
}

#[test]
fn test_check_password_empty() {
    let empty_password = "";
    let hashed_password = HashService::hash_password("password123").unwrap();

    let password_match_result = HashService::check_password(empty_password, &hashed_password);
    assert!(password_match_result.is_err());
}

#[test]
fn hashing_twice_gives_two_hashes_that_both_verify() {
    let first = HashService::hash_password("correct horse").unwrap();
    let second = HashService::hash_password("correct horse").unwrap();
    assert_ne!(first, second);
    assert_eq!(HashService::check_password("correct horse", &first), Ok(true));
    assert_eq!(HashService::check_password("correct horse", &second), Ok(true));
}

#[test]
fn hash_is_a_phc_string() {
    let hash = HashService::hash_password("password123").unwrap();
    assert!(hash.starts_with("$argon2id"));
}

#[test]
fn other_password_does_not_verify() {
    let hash = HashService::hash_password("first secret").unwrap();
    assert_eq!(HashService::check_password("second secret", &hash), Ok(false));
}

#[test]
fn empty_inputs_are_refused_with_input_errors() {
    assert_eq!(HashService::hash_password(""), Err(HashError::EmptyInput));
    assert_eq!(HashService::check_password("", "$argon2id$whatever"), Err(HashError::EmptyInput));
    assert_eq!(HashService::check_password("password123", ""), Err(HashError::EmptyInput));
}

#[test]
fn malformed_hash_is_reported_as_such() {
    assert_eq!(HashService::check_password("password123", "invalid_hash"), Err(HashError::MalformedHash));
}
