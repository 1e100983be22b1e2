//! Decryption of a sops-style JSON envelope (AES-256-GCM values, SHA-512 MAC)
//! with an age identity.
//!
//! The cipher library takes the identity from the process environment and
//! may abort on some decrypted values, so running it is the caller's part:
//! bind [`Decryptor::key_text`] in the environment, decrypt the envelope into
//! its JSON document (or nothing, when decryption fails or aborts), restore
//! the environment, and hand the outcome to [`Decryptor::build`]. This module
//! decides what the outcome means: which error, or which plaintext.
use crate::error::DecryptError;
use rops::cryptography::cipher::AES256GCM;
use rops::cryptography::hasher::SHA512;
use rops::file::format::JsonFileFormat;
use rops::file::state::EncryptedFile;
use rops::file::{RopsFile, RopsFileFromStrError};
use vstd::prelude::*;

verus! {

/// Whether `text` deserialises as an encrypted JSON envelope with AES-256-GCM
/// metadata and a SHA-512 MAC. The cipher named inside each encrypted value
/// is only read when decrypting.
pub uninterp spec fn envelope_parses(text: Seq<char>) -> bool;

/// The string that the JSON document `doc` holds under the top-level key
/// `key`, if `doc` is JSON, has that key, and its value is a string.
pub uninterp spec fn json_str_field(doc: Seq<char>, key: Seq<char>) -> Option<Seq<char>>;

#[verifier::external_type_specification]
#[verifier::external_body]
pub struct ExRopsFileFromStrError(RopsFileFromStrError);

/// Relies on `FromStr for rops::file::RopsFile`: deserialisation of the text
/// alone; the parsed file itself is dropped.
#[verifier::external_body]
fn check_envelope(text: &str) -> (r: Result<(), RopsFileFromStrError>)
    ensures
        r.is_ok() == envelope_parses(text@),
{
    text.parse::<RopsFile<EncryptedFile<AES256GCM, SHA512>, JsonFileFormat>>().map(|_| ())
}

/// Relies on `serde_json::from_str` into a `serde_json::Value`, then
/// `Value::get` and `Value::as_str`: the string under `key` in the document.
#[verifier::external_body]
fn json_string_field(doc: &str, key: &str) -> (r: Option<String>)
    ensures
        r is None <==> json_str_field(doc@, key@) is None,
        r matches Some(s) ==> json_str_field(doc@, key@) == Some(s@),
{
    serde_json::from_str::<serde_json::Value>(doc).ok().and_then(
        |v| v.get(key).and_then(|f| f.as_str()).map(|s| s.to_string()),
    )
}

/// The result that [`payload_data`] gives for the decrypted document `doc`.
pub open spec fn spec_payload(doc: Seq<char>) -> Result<Seq<char>, DecryptError> {
    match json_str_field(doc, "data"@) {
        Some(v) => Ok(v),
        None => Err(DecryptError::UnexpectedPayloadShape),
    }
}

/// Takes the plaintext out of a decrypted document: the string field `data`.
pub fn payload_data(doc: &str) -> (r: Result<String, DecryptError>)
    ensures
        r matches Ok(s) ==> spec_payload(doc@) == Ok::<Seq<char>, DecryptError>(s@),
        r matches Err(e) ==> spec_payload(doc@) == Err::<Seq<char>, DecryptError>(e),
{
    match json_string_field(doc, "data") {
        Some(s) => Ok(s),
        None => Err(DecryptError::UnexpectedPayloadShape),
    }
}

/// The view of an optional document.
pub open spec fn opt_doc(o: Option<&str>) -> Option<Seq<char>> {
    match o {
        Some(d) => Some(d@),
        None => None,
    }
}

/// The result for a decryption outcome: a failed decryption is
/// `AuthenticationFailed`, a decrypted document gives its `data`.
pub open spec fn spec_open(opened: Option<Seq<char>>) -> Result<Seq<char>, DecryptError> {
    match opened {
        None => Err(DecryptError::AuthenticationFailed),
        Some(doc) => spec_payload(doc),
    }
}

/// The plaintext for a decryption outcome: `None` (decryption failed) is
/// `AuthenticationFailed`, a document gives its string field `data`.
pub fn open_payload(opened: Option<&str>) -> (r: Result<String, DecryptError>)
    ensures
        r matches Ok(s) ==> spec_open(opt_doc(opened)) == Ok::<Seq<char>, DecryptError>(s@),
        r matches Err(e) ==> spec_open(opt_doc(opened)) == Err::<Seq<char>, DecryptError>(e),
{
    match opened {
        None => Err(DecryptError::AuthenticationFailed),
        Some(doc) => payload_data(doc),
    }
}

/// Decryptor of an encrypted JSON envelope with an age identity.
pub struct Decryptor {
    key: String,
    enc_path: String,
    dec_path: String,
}

impl Decryptor {
    /// The age identity used to decrypt.
    pub closed spec fn spec_key(&self) -> Seq<char> {
        self.key@
    }

    /// Path of the encrypted envelope.
    pub closed spec fn spec_input(&self) -> Seq<char> {
        self.enc_path@
    }

    /// Path of the plaintext output.
    pub closed spec fn spec_output(&self) -> Seq<char> {
        self.dec_path@
    }

    /// A decryptor with an empty key and empty paths.
    pub fn new() -> (r: Self)
        ensures
            r.spec_key() == Seq::<char>::empty(),
            r.spec_input() == Seq::<char>::empty(),
            r.spec_output() == Seq::<char>::empty(),
    {
        Decryptor { key: String::new(), enc_path: String::new(), dec_path: String::new() }
    }

    /// Sets the age identity used to decrypt.
    pub fn key(&mut self, key: String) -> (r: &mut Self)
        ensures
            r.spec_key() == key@,
            r.spec_input() == old(self).spec_input(),
            r.spec_output() == old(self).spec_output(),
            *final(self) == *final(r),
    {
        self.key = key;
        self
    }

    /// Sets the path of the encrypted envelope.
    pub fn input(&mut self, path: String) -> (r: &mut Self)
        ensures
            r.spec_input() == path@,
            r.spec_key() == old(self).spec_key(),
            r.spec_output() == old(self).spec_output(),
            *final(self) == *final(r),
    {
        self.enc_path = path;
        self
    }

    /// Sets the path where the plaintext is written.
    pub fn output(&mut self, path: String) -> (r: &mut Self)
        ensures
            r.spec_output() == path@,
            r.spec_key() == old(self).spec_key(),
            r.spec_input() == old(self).spec_input(),
            *final(self) == *final(r),
    {
        self.dec_path = path;
        self
    }

    /// The age identity used to decrypt.
    pub fn key_text(&self) -> (r: &str)
        ensures
            r@ == self.spec_key(),
    {
        self.key.as_str()
    }

    /// The path of the encrypted envelope.
    pub fn input_path(&self) -> (r: &str)
        ensures
            r@ == self.spec_input(),
    {
        self.enc_path.as_str()
    }

    /// The path where the plaintext is written.
    pub fn output_path(&self) -> (r: &str)
        ensures
            r@ == self.spec_output(),
    {
        self.dec_path.as_str()
    }

    /// The plaintext of the envelope `encrypted`, given `opened`: the JSON
    /// document that decrypting it gave, or `None` when decryption failed.
    ///
    /// Text that is no envelope of this kind is `Malformed`. A failed
    /// decryption (wrong identity or tampered data alike) is
    /// `AuthenticationFailed`. A document without a string `data` is
    /// `UnexpectedPayloadShape`.
    pub fn build(&self, encrypted: &str, opened: Option<&str>) -> (r: Result<String, DecryptError>)
        ensures
            !envelope_parses(encrypted@) ==> r == Err::<String, DecryptError>(DecryptError::Malformed),
            envelope_parses(encrypted@) ==> match r {
                Ok(s) => spec_open(opt_doc(opened)) == Ok::<Seq<char>, DecryptError>(s@),
                Err(e) => spec_open(opt_doc(opened)) == Err::<Seq<char>, DecryptError>(e),
            },
    {
        match check_envelope(encrypted) {
            Ok(()) => open_payload(opened),
            Err(_) => Err(DecryptError::Malformed),
        }
    }
}

} // verus!
