use hashicorp_vault::transit::{decrypt_body, encrypt_body, read_ciphertext, read_decrypt_body, read_encrypt_body};
use hashicorp_vault::Error;

#[test]
fn encrypt_body_holds_base64_plaintext() {
    assert_eq!(encrypt_body(b"hello"), r#"{"plaintext":"aGVsbG8="}"#);
    assert_eq!(encrypt_body(b""), r#"{"plaintext":""}"#);
}

#[test]
fn decrypt_body_holds_prefixed_ciphertext() {
    assert_eq!(decrypt_body(b"\x02af"), r#"{"ciphertext":"vault:v1:AmFm"}"#);
}

#[test]
fn ciphertext_prefix_is_stripped() {
    assert_eq!(read_ciphertext("vault:v1:AmFm").unwrap(), b"\x02af".to_vec());
}

#[test]
fn ciphertext_without_prefix_is_refused() {
    assert!(matches!(read_ciphertext("AmFm"), Err(Error::Vault(_))));
    assert!(matches!(read_ciphertext("vault:v2:AmFm"), Err(Error::Vault(_))));
    let body = r#"{"data":{"ciphertext":"AmFm"}}"#;
    assert!(matches!(read_encrypt_body(body), Err(Error::Vault(_))));
}

#[test]
fn ciphertext_with_bad_base64_is_refused() {
    assert!(matches!(read_ciphertext("vault:v1:!!!"), Err(Error::Base64(_))));
}

#[test]
fn encrypt_response_without_data_is_refused() {
    assert!(matches!(read_encrypt_body(r#"{"data":null}"#), Err(Error::Vault(_))));
    assert!(matches!(read_decrypt_body(r#"{}"#), Err(Error::Vault(_))));
}

#[test]
fn transit_round_trip_with_echoing_service() {
    // The service answers encryption with ciphertext standing for the same
    // bytes, and decryption with the plaintext field it was sent.
    let plaintext = b"plaintext".to_vec();
    let sent = encrypt_body(&plaintext);
    let b64 = sent.trim_start_matches(r#"{"plaintext":""#).trim_end_matches(r#""}"#).to_string();
    let enc_answer = format!(r#"{{"data":{{"ciphertext":"vault:v1:{}"}}}}"#, b64);
    let cipher = read_encrypt_body(&enc_answer).unwrap();
    let dec_request = decrypt_body(&cipher);
    assert_eq!(dec_request, format!(r#"{{"ciphertext":"vault:v1:{}"}}"#, b64));
    let dec_answer = format!(r#"{{"data":{{"plaintext":"{}"}}}}"#, b64);
    assert_eq!(read_decrypt_body(&dec_answer).unwrap(), plaintext);
}

#[test]
fn decrypt_response_with_bad_base64_is_refused() {
    assert!(matches!(read_decrypt_body(r#"{"data":{"plaintext":"%%"}}"#), Err(Error::Base64(_))));
}
