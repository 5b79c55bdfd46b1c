use schemalens::encryption::EncryptionService;

#[test]
fn test_encryption_decryption() {
    let credentials = r#"{"host":"localhost","port":5432,"database":"test"}"#;
    let password = "my_secure_password";
    let name = "Test Connection";

    let encrypted = EncryptionService::encrypt(credentials, password, name).unwrap();

    let decrypted = EncryptionService::decrypt(&encrypted, password).unwrap();

    assert_eq!(credentials, decrypted);
}

#[test]
fn test_wrong_password() {
    let credentials = r#"{"host":"localhost","port":5432,"database":"test"}"#;
    let password = "my_secure_password";
    let wrong_password = "wrong_password";
    let name = "Test Connection";

    let encrypted = EncryptionService::encrypt(credentials, password, name).unwrap();

    let result = EncryptionService::decrypt(&encrypted, wrong_password);

    assert!(result.is_err());
}

#[test]
fn test_verify_password() {
    let credentials = r#"{"host":"localhost","port":5432,"database":"test"}"#;
    let password = "my_secure_password";
    let name = "Test Connection";

    let encrypted = EncryptionService::encrypt(credentials, password, name).unwrap();

    assert!(EncryptionService::verify_password(&encrypted, password));
    assert!(!EncryptionService::verify_password(&encrypted, "wrong"));
}

#[test]
fn encrypted_connection_keeps_name_and_salt_in_clear() {
    let encrypted = EncryptionService::encrypt("{}", "pw", "My DB").unwrap();
    assert_eq!(encrypted.name, "My DB");
    assert!(!encrypted.salt.is_empty());
    assert!(!encrypted.nonce.is_empty());
    assert!(!encrypted.encrypted_data.is_empty());
}

#[test]
fn malformed_stored_data_fails_to_decrypt() {
    let good = EncryptionService::encrypt("secret payload", "pw", "c").unwrap();

    let mut bad_data = good.clone();
    bad_data.encrypted_data = "!!!not base64!!!".to_string();
    assert!(EncryptionService::decrypt(&bad_data, "pw").is_err());

    let mut bad_nonce = good.clone();
    bad_nonce.nonce = "AAAA".to_string();
    assert!(EncryptionService::decrypt(&bad_nonce, "pw").is_err());

    let mut bad_salt = good;
    bad_salt.salt = "***".to_string();
    assert!(EncryptionService::decrypt(&bad_salt, "pw").is_err());
}
