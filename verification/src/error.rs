//! Errors of the vault core.
use vstd::prelude::*;

verus! {

/// Trusted: the outside type `std::io::Error`, carried through unchanged.
#[verifier::external_type_specification]
#[verifier::external_body]
pub struct ExIoError(std::io::Error);

/// Errors of vault operations.
#[derive(Debug)]
pub enum VaultError {
    InvalidPassword,
    FileNotFound(String),
    CorruptedVault,
    EncryptionError(String),
    DecryptionError(String),
    IoError(std::io::Error),
    SerializationError(String),
}

/// Trusted: `<std::io::Error as Display>::fmt` through `to_string`, the error's description.
/// It depends on the operating system's message, so nothing is stated of it.
#[verifier::external_body]
fn io_error_text(e: &std::io::Error) -> String {
    e.to_string()
}

impl VaultError {
    /// The display text of the error: a fixed phrase, followed by the payload for the variants
    /// that carry one.
    pub fn display_text(&self) -> (r: String)
        ensures
            self is InvalidPassword ==> r@ == "Invalid master password"@,
            self is CorruptedVault ==> r@ == "Vault file is corrupted"@,
            self matches VaultError::FileNotFound(p) ==> r@ == "Vault file not found: "@ + p@,
            self matches VaultError::EncryptionError(m) ==> r@ == "Encryption error: "@ + m@,
            self matches VaultError::DecryptionError(m) ==> r@ == "Decryption error: "@ + m@,
            self matches VaultError::SerializationError(m) ==> r@ == "Serialization error: "@ + m@,
            self is IoError ==> r@.len() >= "IO error: "@.len() && r@.subrange(
                0,
                "IO error: "@.len() as int,
            ) == "IO error: "@,
    {
        match self {
            VaultError::InvalidPassword => String::from_str("Invalid master password"),
            VaultError::FileNotFound(path) => {
                let mut text = String::from_str("Vault file not found: ");
                text.append(path.as_str());
                text
            },
            VaultError::CorruptedVault => String::from_str("Vault file is corrupted"),
            VaultError::EncryptionError(message) => {
                let mut text = String::from_str("Encryption error: ");
                text.append(message.as_str());
                text
            },
            VaultError::DecryptionError(message) => {
                let mut text = String::from_str("Decryption error: ");
                text.append(message.as_str());
                text
            },
            VaultError::IoError(error) => {
                let mut text = String::from_str("IO error: ");
                let detail = io_error_text(error);
                let ghost prefix = text@;
                text.append(detail.as_str());
                assert(text@.subrange(0, prefix.len() as int) =~= prefix);
                text
            },
            VaultError::SerializationError(message) => {
                let mut text = String::from_str("Serialization error: ");
                text.append(message.as_str());
                text
            },
        }
    }
}

} // verus!
