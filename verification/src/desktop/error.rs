//! The error the desktop shell hands its frontend: a stable code and a message that never
//! carries a path, a backend detail or a secret.
use vstd::prelude::*;

use crate::api::{error_code_message, error_code_name, ErrorCode};
use crate::error::VaultError;

verus! {

/// An error returned to the desktop frontend.
#[derive(Debug, Clone, PartialEq, Eq)]
pub struct ArcaError {
    pub code: String,
    pub message: String,
}

/// Whether `e` has the given code and message.
pub open spec fn arca_error_is(e: ArcaError, code: Seq<char>, message: Seq<char>) -> bool {
    e.code@ == code && e.message@ == message
}

/// The error for a command that needs an unlocked vault.
pub open spec fn is_locked_error(e: ArcaError) -> bool {
    arca_error_is(e, "vault_locked"@, "Vault is locked"@)
}

/// The error for a missing entity.
pub open spec fn is_not_found_error(e: ArcaError, entity: Seq<char>) -> bool {
    arca_error_is(e, "not_found"@, entity + " not found"@)
}

impl ArcaError {
    /// An error with the given code and message.
    pub fn new(code: &str, message: &str) -> (r: Self)
        ensures
            arca_error_is(r, code@, message@),
    {
        ArcaError { code: String::from_str(code), message: String::from_str(message) }
    }

    /// The vault is locked.
    pub fn locked() -> (r: Self)
        ensures
            is_locked_error(r),
    {
        Self::new("vault_locked", "Vault is locked")
    }

    /// `entity` was not found.
    pub fn not_found(entity: &str) -> (r: Self)
        ensures
            is_not_found_error(r, entity@),
    {
        let mut message = String::from_str(entity);
        message.append(" not found");
        ArcaError { code: String::from_str("not_found"), message }
    }

    /// The application state could not be locked.
    pub fn state_lock() -> (r: Self)
        ensures
            arca_error_is(r, "state_lock"@, "Application state is unavailable"@),
    {
        Self::new("state_lock", "Application state is unavailable")
    }

    /// The input was refused, for the reason given.
    pub fn invalid_input(message: &str) -> (r: Self)
        ensures
            arca_error_is(r, "invalid_input"@, message@),
    {
        Self::new("invalid_input", message)
    }

    /// The desktop preferences could not be read or written.
    pub fn preferences(message: &str) -> (r: Self)
        ensures
            arca_error_is(r, "preferences_unavailable"@, message@),
    {
        Self::new("preferences_unavailable", message)
    }

    /// The frontend error for a core error: the code of its kind with that code's fixed
    /// message. The payload (a path, a backend detail) is dropped.
    pub fn from_vault_error(error: VaultError) -> (r: Self)
        ensures
            arca_error_is(
                r,
                error_code_name(vault_error_code(error)),
                error_code_message(vault_error_code(error)),
            ),
    {
        let code = match error {
            VaultError::InvalidPassword => ErrorCode::InvalidPassword,
            VaultError::FileNotFound(_) => ErrorCode::FileNotFound,
            VaultError::CorruptedVault => ErrorCode::CorruptedVault,
            VaultError::EncryptionError(_) => ErrorCode::EncryptionError,
            VaultError::DecryptionError(_) => ErrorCode::DecryptionError,
            VaultError::IoError(_) => ErrorCode::IoError,
            VaultError::SerializationError(_) => ErrorCode::SerializationError,
        };
        Self::new(code.as_str(), safe_vault_error_message(code))
    }
}

/// The error code of each kind of core error.
pub open spec fn vault_error_code(error: VaultError) -> ErrorCode {
    match error {
        VaultError::InvalidPassword => ErrorCode::InvalidPassword,
        VaultError::FileNotFound(_) => ErrorCode::FileNotFound,
        VaultError::CorruptedVault => ErrorCode::CorruptedVault,
        VaultError::EncryptionError(_) => ErrorCode::EncryptionError,
        VaultError::DecryptionError(_) => ErrorCode::DecryptionError,
        VaultError::IoError(_) => ErrorCode::IoError,
        VaultError::SerializationError(_) => ErrorCode::SerializationError,
    }
}

/// The fixed message shown for an error code.
pub fn safe_vault_error_message(code: ErrorCode) -> (r: &'static str)
    ensures
        r@ == error_code_message(code),
{
    code.safe_message()
}

} // verus!
