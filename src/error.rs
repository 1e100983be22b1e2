//! The failures that a decryption or the interrupt setup can end in.
use vstd::prelude::*;

verus! {

/// Why a decryption (or the installation of the interrupt handler) failed.
///
/// Wrong keys and tampered ciphertext share one kind, so that a caller learns
/// nothing about which of the two it was.
#[derive(Debug, Clone, Copy, PartialEq, Eq, Structural)]
pub enum DecryptError {
    /// The input is not a recognisable envelope or message.
    Malformed,
    /// Wrong key or passphrase, or tampered ciphertext.
    AuthenticationFailed,
    /// The decrypted document does not hold the expected string field.
    UnexpectedPayloadShape,
    /// Reading, creating or writing a file failed.
    Io,
    /// The user aborted the passphrase prompt.
    UserCancelled,
    /// The interrupt handler could not be registered.
    HandlerInstallFailed,
}

impl DecryptError {
    /// A short, secret-free description of the failure.
    pub fn message(&self) -> (r: String)
        ensures
            r@ == self.spec_message(),
    {
        let s = match self {
            DecryptError::Malformed => "input is not a recognisable encrypted file",
            DecryptError::AuthenticationFailed => "authentication failed: wrong key or tampered data",
            DecryptError::UnexpectedPayloadShape => "decrypted content has an unexpected shape",
            DecryptError::Io => "reading or writing a file failed",
            DecryptError::UserCancelled => "cancelled by the user",
            DecryptError::HandlerInstallFailed => "failed to set the interrupt handler",
        };
        s.to_string()
    }

    pub open spec fn spec_message(&self) -> Seq<char> {
        match self {
            DecryptError::Malformed => "input is not a recognisable encrypted file"@,
            DecryptError::AuthenticationFailed => "authentication failed: wrong key or tampered data"@,
            DecryptError::UnexpectedPayloadShape => "decrypted content has an unexpected shape"@,
            DecryptError::Io => "reading or writing a file failed"@,
            DecryptError::UserCancelled => "cancelled by the user"@,
            DecryptError::HandlerInstallFailed => "failed to set the interrupt handler"@,
        }
    }
}

} // verus!
