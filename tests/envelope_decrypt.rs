use bootstrap::envelope::{open_payload, payload_data, Decryptor};
use bootstrap::error::DecryptError;
use rops::cryptography::cipher::AES256GCM;
use rops::cryptography::hasher::SHA512;
use rops::file::builder::RopsFileBuilder;
use rops::file::format::JsonFileFormat;
use rops::file::state::EncryptedFile;
use rops::file::RopsFile;
use rops::integration::{AgeIntegration, IntegrationTestUtils};

/// Recipient of the identity that `set_mock_private_key_env_var` binds.
const KNOWN_RECIPIENT: &str = "age1se5ghfycr4n8kcwc3qwf234ymvmr2lex2a99wh8gpfx97glwt9hqch4569";
/// A recipient whose identity is not bound.
const OTHER_RECIPIENT: &str = "age1qazf43xll4ramx3wcn7h2yl9scycxdhrwge8862vv6zj97pafdvq0d5mn6";

fn seal(plain: &str, recipient: &str) -> String {
    RopsFileBuilder::<JsonFileFormat>::new(plain)
        .unwrap()
        .add_integration_key::<AgeIntegration>(recipient.parse().unwrap())
        .encrypt::<AES256GCM, SHA512>()
        .unwrap()
        .to_string()
}

/// Decrypts with rops under the bound identity: the document, or `None`.
fn open(sealed: &str) -> Option<String> {
    let file = sealed.parse::<RopsFile<EncryptedFile<AES256GCM, SHA512>, JsonFileFormat>>().ok()?;
    let opened = file.decrypt::<JsonFileFormat>().ok()?;
    Some(opened.map().to_string())
}

fn decrypt(d: &Decryptor, sealed: &str) -> Result<String, DecryptError> {
    d.build(sealed, open(sealed).as_deref())
}

fn decryptor() -> Decryptor {
    AgeIntegration::set_mock_private_key_env_var();
    let mut d = Decryptor::new();
    d.key(AgeIntegration::mock_private_key_str().as_ref().to_string());
    d
}

#[test]
fn envelope_round_trip_gives_data() {
    let sealed = seal(r#"{"data":"hello"}"#, KNOWN_RECIPIENT);
    assert_eq!(decrypt(&decryptor(), &sealed), Ok("hello".to_string()));
}

#[test]
fn envelope_round_trip_keeps_multiline_data() {
    let sealed = seal(r#"{"data":"line one\nline two ∥ ü","other":"x"}"#, KNOWN_RECIPIENT);
    assert_eq!(decrypt(&decryptor(), &sealed), Ok("line one\nline two ∥ ü".to_string()));
}

#[test]
fn envelope_for_another_identity_fails_authentication() {
    let sealed = seal(r#"{"data":"hello"}"#, OTHER_RECIPIENT);
    assert_eq!(decrypt(&decryptor(), &sealed), Err(DecryptError::AuthenticationFailed));
}

#[test]
fn tampered_envelope_fails_authentication() {
    let sealed = seal(r#"{"data":"hello"}"#, KNOWN_RECIPIENT);
    let v: serde_json::Value = serde_json::from_str(&sealed).unwrap();
    let data = v.get("data").unwrap().as_str().unwrap().to_string();
    let start = data.find("data:").unwrap() + 5;
    let mut chars: Vec<char> = data.chars().collect();
    chars[start] = if chars[start] == 'A' { 'B' } else { 'A' };
    let forged: String = chars.into_iter().collect();
    let tampered = sealed.replace(&data, &forged);
    assert_ne!(tampered, sealed);
    assert_eq!(decrypt(&decryptor(), &tampered), Err(DecryptError::AuthenticationFailed));
}

#[test]
fn non_envelope_is_malformed() {
    let d = decryptor();
    assert_eq!(decrypt(&d, "not an envelope"), Err(DecryptError::Malformed));
    assert_eq!(d.build(r#"{"data":"hello"}"#, Some(r#"{"data":"hello"}"#)), Err(DecryptError::Malformed));
    assert_eq!(d.build("", None), Err(DecryptError::Malformed));
}

#[test]
fn envelope_without_data_has_unexpected_shape() {
    let sealed = seal(r#"{"other":"hello"}"#, KNOWN_RECIPIENT);
    assert_eq!(decrypt(&decryptor(), &sealed), Err(DecryptError::UnexpectedPayloadShape));
}

#[test]
fn envelope_with_non_string_data_has_unexpected_shape() {
    let sealed = seal(r#"{"data":42}"#, KNOWN_RECIPIENT);
    assert_eq!(decrypt(&decryptor(), &sealed), Err(DecryptError::UnexpectedPayloadShape));
}

#[test]
fn payload_data_reads_the_data_field() {
    assert_eq!(payload_data(r#"{"data":"hello"}"#), Ok("hello".to_string()));
    assert_eq!(payload_data(r#"{"a":1,"data":"x y"}"#), Ok("x y".to_string()));
    assert_eq!(payload_data(r#"{"data":""}"#), Ok(String::new()));
}

#[test]
fn payload_without_string_data_is_rejected() {
    assert_eq!(payload_data(r#"{"other":"hello"}"#), Err(DecryptError::UnexpectedPayloadShape));
    assert_eq!(payload_data(r#"{"data":null}"#), Err(DecryptError::UnexpectedPayloadShape));
    assert_eq!(payload_data(r#"["data"]"#), Err(DecryptError::UnexpectedPayloadShape));
    assert_eq!(payload_data("hello"), Err(DecryptError::UnexpectedPayloadShape));
}

#[test]
fn envelope_builder_keeps_settings() {
    let mut d = Decryptor::new();
    d.key("AGE-SECRET-KEY-1X".to_string()).input("in.json".to_string()).output("out".to_string());
    assert_eq!(d.key_text(), "AGE-SECRET-KEY-1X");
    assert_eq!(d.input_path(), "in.json");
    assert_eq!(d.output_path(), "out");
}

#[test]
fn failed_decryption_is_authentication_failure() {
    let sealed = seal(r#"{"data":"hello"}"#, KNOWN_RECIPIENT);
    let d = decryptor();
    assert_eq!(d.build(&sealed, None), Err(DecryptError::AuthenticationFailed));
    assert_eq!(d.build(&sealed, Some(r#"{"data":"hi"}"#)), Ok("hi".to_string()));
    assert_eq!(d.build(&sealed, Some("{}")), Err(DecryptError::UnexpectedPayloadShape));
}

#[test]
fn open_payload_follows_the_outcome() {
    assert_eq!(open_payload(None), Err(DecryptError::AuthenticationFailed));
    assert_eq!(open_payload(Some(r#"{"data":"hello"}"#)), Ok("hello".to_string()));
    assert_eq!(open_payload(Some("[]")), Err(DecryptError::UnexpectedPayloadShape));
}
