use base64::Engine;
use notifico::credential::{
    decrypt_credential, encrypt_credential, open_credential, seal_credential, CredentialError,
};
use serde_json::Value;

fn test_key() -> [u8; 32] {
    [0xABu8; 32]
}

#[test]
fn encrypt_decrypt_roundtrip() {
    let key = test_key();
    let data: Value = serde_json::from_str(
        r#"{"smtp_host": "mail.example.com", "smtp_port": 587, "smtp_password": "secret123"}"#,
    )
    .unwrap();

    let encrypted = encrypt_credential(&data, &key).unwrap();
    assert_ne!(encrypted, serde_json::to_string(&data).unwrap());

    let decrypted = decrypt_credential(&encrypted, &key).unwrap();
    assert_eq!(decrypted, data);
}

#[test]
fn sealing_uses_fresh_nonces() {
    let key = test_key();
    let a = seal_credential(b"{}", &key).unwrap();
    let b = seal_credential(b"{}", &key).unwrap();
    assert_ne!(a, b);
    assert_eq!(open_credential(&a, &key).unwrap(), b"{}".to_vec());
    assert_eq!(open_credential(&b, &key).unwrap(), b"{}".to_vec());
}

#[test]
fn opening_errors() {
    let key = test_key();
    let decode_error = base64::engine::general_purpose::STANDARD
        .decode("not base64!")
        .unwrap_err()
        .to_string();
    let err = decrypt_credential("not base64!", &key).unwrap_err();
    assert_eq!(err, CredentialError::Base64Decode(decode_error.clone()));
    assert_eq!(err.message(), format!("Base64 decode error: {decode_error}"));
    // Twelve bytes: a nonce and nothing after it.
    let err = decrypt_credential("AAAAAAAAAAAAAAAA", &key).unwrap_err();
    assert_eq!(err, CredentialError::TooShort);
    assert_eq!(err.message(), "Encrypted data too short");
    let sealed = seal_credential(b"secret", &key).unwrap();
    let err = decrypt_credential(&sealed, &[0xCD; 32]).unwrap_err();
    assert_eq!(err, CredentialError::Decryption("aead::Error".to_string()));
    assert_eq!(err.message(), "Decryption error: aead::Error");
}

#[test]
fn credential_error_messages() {
    assert_eq!(
        CredentialError::Encryption("aead::Error".into()).message(),
        "Encryption error: aead::Error"
    );
    assert_eq!(
        CredentialError::Base64Decode("Invalid padding".into()).message(),
        "Base64 decode error: Invalid padding"
    );
    assert_eq!(CredentialError::TooShort.message(), "Encrypted data too short");
    assert_eq!(
        CredentialError::Decryption("aead::Error".into()).message(),
        "Decryption error: aead::Error"
    );
}

#[test]
fn opened_data_must_be_json() {
    let key = test_key();
    let sealed = seal_credential(b"not json", &key).unwrap();
    assert_eq!(open_credential(&sealed, &key).unwrap(), b"not json".to_vec());
    let parse_error = serde_json::from_slice::<Value>(b"not json").unwrap_err().to_string();
    let err = decrypt_credential(&sealed, &key).unwrap_err();
    assert_eq!(err, CredentialError::JsonDeserialize(parse_error.clone()));
    assert_eq!(err.message(), format!("JSON deserialize error: {parse_error}"));
    assert_eq!(
        CredentialError::JsonSerialize("oops".into()).message(),
        "JSON serialize error: oops"
    );
}

#[test]
fn credentials_need_a_configured_key() {
    assert_eq!(notifico::credential::configured_key(&Some([7u8; 32])), Ok([7u8; 32]));
    assert_eq!(
        notifico::credential::configured_key(&None),
        Err((400, "Encryption key not configured. Set NOTIFICO_AUTH_ENCRYPTION_KEY."))
    );
}
