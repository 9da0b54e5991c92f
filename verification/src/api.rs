//! Public machine contract for Arca clients.
//!
//! Client privileges are enforced through [`ClientKind`] and [`Capability`].
//! Adapters call [`ClientKind::require_operation`] before servicing a public operation, or
//! [`ClientKind::require_capability`] when an adapter has already resolved the operation to
//! a capability. The initial capability matrix is:
//!
//! | Client kind | Capabilities |
//! | --- | --- |
//! | `DesktopApp` | all initial capabilities |
//! | `BrowserExtension` | `Unlock`, `ReadMeta`, `CopySecret` |
//! | `IosApp` | all initial capabilities except `ExportPlaintext` |
//! | `AndroidApp` | all initial capabilities except `ExportPlaintext` |
//! | `IosAutofillExtension` | `Unlock`, `ReadMeta`, `CopySecret` |
//! | `AndroidAutofillService` | `Unlock`, `ReadMeta`, `CopySecret` |
//! | `FutureSyncServer` | none; sync is ciphertext-only and outside this plaintext API surface |
use vstd::prelude::*;

use crate::secret::{zeroizing_text, ZeroizingText};

verus! {

/// Plaintext value that may cross a public API boundary only through explicit
/// secret-bearing operations. The text is wiped from memory when the value is dropped.
pub struct SecretString(ZeroizingText);

impl View for SecretString {
    type V = Seq<char>;

    closed spec fn view(&self) -> Seq<char> {
        zeroizing_text(self.0)
    }
}

impl SecretString {
    /// Wraps a plaintext value for explicit secret-bearing API calls.
    pub fn new(value: String) -> (r: Self)
        ensures
            r@ == value@,
    {
        SecretString(ZeroizingText::new(value))
    }

    /// Returns the plaintext value for the narrow adapter boundary that needs it.
    pub fn expose_secret(&self) -> (r: &str)
        ensures
            r@ == self@,
    {
        self.0.as_str()
    }

    /// Consumes the wrapper and returns plaintext for core mutation calls.
    pub fn into_inner(self) -> (r: String)
        ensures
            r@ == self@,
    {
        String::from_str(self.0.as_str())
    }

    /// A copy holding the same plaintext.
    pub fn duplicate(&self) -> (r: Self)
        ensures
            r@ == self@,
    {
        SecretString(self.0.duplicate())
    }

    /// Whether two secrets hold the same plaintext.
    pub fn same_secret(&self, other: &Self) -> (r: bool)
        ensures
            r == (self@ == other@),
    {
        self.0.same_text(&other.0)
    }

    /// The redacted text shown instead of the secret in formatted output.
    pub fn redacted_text(&self) -> (r: &'static str)
        ensures
            r@ == "[secret]"@,
    {
        "[secret]"
    }
}

pub const KDBX_FORMAT_VERSION: u16 = 4;

pub const ARCA_SEMANTICS_VERSION: u16 = 1;

pub const CLIENT_PROTOCOL_VERSION: u16 = 1;

/// The versions of the public contract: KDBX format, Arca semantics and client protocol.
#[derive(Debug, Clone, Copy, PartialEq, Eq, Structural)]
pub struct ContractVersions {
    pub kdbx_format_version: u16,
    pub arca_semantics_version: u16,
    pub client_protocol_version: u16,
}

impl ContractVersions {
    /// Returns the currently supported public contract version tuple.
    pub fn current() -> (r: Self)
        ensures
            r.kdbx_format_version == KDBX_FORMAT_VERSION,
            r.arca_semantics_version == ARCA_SEMANTICS_VERSION,
            r.client_protocol_version == CLIENT_PROTOCOL_VERSION,
    {
        ContractVersions {
            kdbx_format_version: KDBX_FORMAT_VERSION,
            arca_semantics_version: ARCA_SEMANTICS_VERSION,
            client_protocol_version: CLIENT_PROTOCOL_VERSION,
        }
    }

    /// Rejects writer paths that would rewrite newer Arca semantics.
    pub fn ensure_writer_supported(&self) -> (r: Result<(), ApiError>)
        ensures
            r is Ok <==> self.arca_semantics_version <= ARCA_SEMANTICS_VERSION,
            r matches Err(e) ==> e.code == ErrorCode::InvalidInput
                && e.message@ == "unsupported future Arca semantics version"@,
    {
        if self.arca_semantics_version > ARCA_SEMANTICS_VERSION {
            return Err(
                ApiError::new(
                    ErrorCode::InvalidInput,
                    String::from_str("unsupported future Arca semantics version"),
                ),
            );
        }
        Ok(())
    }
}

/// Vault metadata returned after creating or unlocking a vault.
#[derive(Debug, Clone, PartialEq, Eq)]
pub struct VaultSummary {
    pub name: String,
    pub path: String,
    pub entry_count: usize,
    pub modified_at: String,
}

impl VaultSummary {
    /// Builds vault metadata returned after creating or unlocking a vault.
    pub fn new(name: String, path: String, entry_count: usize, modified_at: String) -> (r: Self)
        ensures
            r.name@ == name@,
            r.path@ == path@,
            r.entry_count == entry_count,
            r.modified_at@ == modified_at@,
    {
        VaultSummary { name, path, entry_count, modified_at }
    }
}

/// Metadata-only view of an entry: never carries the current or any historical password.
#[derive(Debug, Clone, PartialEq, Eq)]
pub struct EntryView {
    pub id: String,
    pub title: String,
    pub username: String,
    pub collection: Option<String>,
    pub url: Option<String>,
    pub notes: Option<String>,
    pub tags: Vec<String>,
    pub created_at: String,
    pub updated_at: String,
    pub revision_count: usize,
}

/// Metadata-only view of one revision, with a flag telling whether its password differs from
/// the next newer one.
#[derive(Debug, Clone, PartialEq, Eq)]
pub struct RevisionView {
    pub captured_at: String,
    pub updated_at: String,
    pub title: String,
    pub username: String,
    pub collection: Option<String>,
    pub url: Option<String>,
    pub notes: Option<String>,
    pub tags: Vec<String>,
    pub password_changed: bool,
}

/// A request to create an entry.
pub struct CreateEntryRequest {
    pub title: String,
    pub username: String,
    pub password: SecretString,
    pub collection: Option<String>,
    pub url: Option<String>,
    pub notes: Option<String>,
    pub tags: Vec<String>,
}

/// A partial update of an entry. `None` leaves a field unchanged; for the nullable metadata
/// fields `Some(None)` clears the value.
pub struct EntryMutation {
    pub title: Option<String>,
    pub username: Option<String>,
    pub password: Option<SecretString>,
    pub collection: Option<Option<String>>,
    pub url: Option<Option<String>>,
    pub notes: Option<Option<String>>,
    pub tags: Option<Vec<String>>,
}

impl Default for EntryMutation {
    /// The mutation that changes nothing.
    fn default() -> (r: Self)
        ensures
            r.title is None,
            r.username is None,
            r.password is None,
            r.collection is None,
            r.url is None,
            r.notes is None,
            r.tags is None,
    {
        EntryMutation {
            title: None,
            username: None,
            password: None,
            collection: None,
            url: None,
            notes: None,
            tags: None,
        }
    }
}

/// Partial generator settings; absent values take the generator defaults.
#[derive(Debug, Clone, Copy, PartialEq, Eq, Structural)]
pub struct GeneratorParams {
    pub length: Option<usize>,
    pub uppercase: Option<bool>,
    pub lowercase: Option<bool>,
    pub digits: Option<bool>,
    pub symbols: Option<bool>,
    pub exclude_ambiguous: Option<bool>,
    pub mode: Option<GeneratorMode>,
}

impl Default for GeneratorParams {
    /// No parameter given.
    fn default() -> (r: Self)
        ensures
            r.length is None,
            r.uppercase is None,
            r.lowercase is None,
            r.digits is None,
            r.symbols is None,
            r.exclude_ambiguous is None,
            r.mode is None,
    {
        GeneratorParams {
            length: None,
            uppercase: None,
            lowercase: None,
            digits: None,
            symbols: None,
            exclude_ambiguous: None,
            mode: None,
        }
    }
}

/// Explicit response for an intentional secret reveal.
#[derive(Clone, PartialEq, Eq)]
pub struct RevealedSecret {
    pub secret: String,
}

impl RevealedSecret {
    /// Builds an explicit response for intentional secret reveal operations.
    pub fn new(secret: String) -> (r: Self)
        ensures
            r.secret@ == secret@,
    {
        RevealedSecret { secret }
    }

    /// Builds a reveal response from a secret wrapper.
    pub fn from_secret(secret: SecretString) -> (r: Self)
        ensures
            r.secret@ == secret@,
    {
        Self::new(secret.into_inner())
    }

    /// Returns the revealed plaintext.
    pub fn expose_secret(&self) -> (r: &str)
        ensures
            r@ == self.secret@,
    {
        self.secret.as_str()
    }
}

/// Generator mode on the public contract.
#[derive(Debug, Clone, Copy, PartialEq, Eq, Structural)]
pub enum GeneratorMode {
    Random,
    Passphrase,
}

/// A public API capability.
#[derive(Debug, Clone, Copy, PartialEq, Eq, Structural)]
pub enum Capability {
    Unlock,
    ReadMeta,
    RevealSecret,
    CopySecret,
    MutateEntry,
    CreateVault,
    ChangeKdf,
    ExportPlaintext,
    ExportKdbx,
    ReadHistory,
    DeletePermanent,
}

/// The kind of client calling the API.
#[derive(Debug, Clone, Copy, PartialEq, Eq, Structural)]
pub enum ClientKind {
    DesktopApp,
    BrowserExtension,
    IosApp,
    AndroidApp,
    IosAutofillExtension,
    AndroidAutofillService,
    FutureSyncServer,
}

/// A public API operation.
#[derive(Debug, Clone, Copy, PartialEq, Eq, Structural)]
pub enum ApiOperation {
    UnlockVault,
    OpenVault,
    LockVault,
    ReadVaultSummary,
    ListEntries,
    GetEntry,
    SearchEntries,
    RevealSecret,
    RevealRevisionSecret,
    CopySecret,
    GenerateSecret,
    CreateEntry,
    UpdateEntry,
    DeleteEntry,
    SaveVault,
    CreateVault,
    ChangeKdf,
    ExportPlaintext,
    ExportKdbx,
    ReadHistory,
    DeletePermanent,
}

/// Every capability, in declaration order.
pub open spec fn all_capabilities() -> Seq<Capability> {
    seq![
        Capability::Unlock,
        Capability::ReadMeta,
        Capability::RevealSecret,
        Capability::CopySecret,
        Capability::MutateEntry,
        Capability::CreateVault,
        Capability::ChangeKdf,
        Capability::ExportPlaintext,
        Capability::ExportKdbx,
        Capability::ReadHistory,
        Capability::DeletePermanent,
    ]
}

/// Every capability except `ExportPlaintext`: the grant of the full mobile apps.
pub open spec fn mobile_app_capabilities() -> Seq<Capability> {
    seq![
        Capability::Unlock,
        Capability::ReadMeta,
        Capability::RevealSecret,
        Capability::CopySecret,
        Capability::MutateEntry,
        Capability::CreateVault,
        Capability::ChangeKdf,
        Capability::ExportKdbx,
        Capability::ReadHistory,
        Capability::DeletePermanent,
    ]
}

/// `Unlock`, `ReadMeta` and `CopySecret`: the grant of the browser extension and of the
/// autofill clients.
pub open spec fn restricted_capabilities() -> Seq<Capability> {
    seq![Capability::Unlock, Capability::ReadMeta, Capability::CopySecret]
}

/// The capabilities granted to each client kind, in declaration order.
pub open spec fn granted(kind: ClientKind) -> Seq<Capability> {
    match kind {
        ClientKind::DesktopApp => all_capabilities(),
        ClientKind::BrowserExtension => restricted_capabilities(),
        ClientKind::IosApp | ClientKind::AndroidApp => mobile_app_capabilities(),
        ClientKind::IosAutofillExtension | ClientKind::AndroidAutofillService =>
            restricted_capabilities(),
        ClientKind::FutureSyncServer => Seq::empty(),
    }
}

/// The capability each operation requires.
pub open spec fn required(op: ApiOperation) -> Capability {
    match op {
        ApiOperation::UnlockVault | ApiOperation::OpenVault | ApiOperation::LockVault =>
            Capability::Unlock,
        ApiOperation::ReadVaultSummary
        | ApiOperation::ListEntries
        | ApiOperation::GetEntry
        | ApiOperation::SearchEntries => Capability::ReadMeta,
        ApiOperation::RevealSecret
        | ApiOperation::RevealRevisionSecret
        | ApiOperation::GenerateSecret => Capability::RevealSecret,
        ApiOperation::CopySecret => Capability::CopySecret,
        ApiOperation::CreateEntry
        | ApiOperation::UpdateEntry
        | ApiOperation::DeleteEntry
        | ApiOperation::SaveVault => Capability::MutateEntry,
        ApiOperation::CreateVault => Capability::CreateVault,
        ApiOperation::ChangeKdf => Capability::ChangeKdf,
        ApiOperation::ExportPlaintext => Capability::ExportPlaintext,
        ApiOperation::ExportKdbx => Capability::ExportKdbx,
        ApiOperation::ReadHistory => Capability::ReadHistory,
        ApiOperation::DeletePermanent => Capability::DeletePermanent,
    }
}

/// The wire name of a client kind.
pub open spec fn client_kind_name(kind: ClientKind) -> Seq<char> {
    match kind {
        ClientKind::DesktopApp => "desktopApp"@,
        ClientKind::BrowserExtension => "browserExtension"@,
        ClientKind::IosApp => "iosApp"@,
        ClientKind::AndroidApp => "androidApp"@,
        ClientKind::IosAutofillExtension => "iosAutofillExtension"@,
        ClientKind::AndroidAutofillService => "androidAutofillService"@,
        ClientKind::FutureSyncServer => "futureSyncServer"@,
    }
}

/// The wire name of a capability.
pub open spec fn capability_name(c: Capability) -> Seq<char> {
    match c {
        Capability::Unlock => "unlock"@,
        Capability::ReadMeta => "readMeta"@,
        Capability::RevealSecret => "revealSecret"@,
        Capability::CopySecret => "copySecret"@,
        Capability::MutateEntry => "mutateEntry"@,
        Capability::CreateVault => "createVault"@,
        Capability::ChangeKdf => "changeKdf"@,
        Capability::ExportPlaintext => "exportPlaintext"@,
        Capability::ExportKdbx => "exportKdbx"@,
        Capability::ReadHistory => "readHistory"@,
        Capability::DeletePermanent => "deletePermanent"@,
    }
}

/// The message of a denied capability check.
pub open spec fn denial_message(kind: ClientKind, c: Capability) -> Seq<char> {
    client_kind_name(kind) + " cannot use the "@ + capability_name(c) + " capability"@
}

/// A client kind together with the capabilities it is granted.
#[derive(Debug, Clone, PartialEq, Eq)]
pub struct ClientCapabilities {
    pub client_kind: ClientKind,
    pub capabilities: Vec<Capability>,
}

impl ClientKind {
    /// Returns the capabilities granted to this client by the public API policy.
    pub fn capabilities(self) -> (r: Vec<Capability>)
        ensures
            r@ == granted(self),
    {
        let r = match self {
            ClientKind::DesktopApp => vec![
                Capability::Unlock,
                Capability::ReadMeta,
                Capability::RevealSecret,
                Capability::CopySecret,
                Capability::MutateEntry,
                Capability::CreateVault,
                Capability::ChangeKdf,
                Capability::ExportPlaintext,
                Capability::ExportKdbx,
                Capability::ReadHistory,
                Capability::DeletePermanent,
            ],
            ClientKind::BrowserExtension => vec![
                Capability::Unlock,
                Capability::ReadMeta,
                Capability::CopySecret,
            ],
            ClientKind::IosApp | ClientKind::AndroidApp => vec![
                Capability::Unlock,
                Capability::ReadMeta,
                Capability::RevealSecret,
                Capability::CopySecret,
                Capability::MutateEntry,
                Capability::CreateVault,
                Capability::ChangeKdf,
                Capability::ExportKdbx,
                Capability::ReadHistory,
                Capability::DeletePermanent,
            ],
            ClientKind::IosAutofillExtension | ClientKind::AndroidAutofillService => vec![
                Capability::Unlock,
                Capability::ReadMeta,
                Capability::CopySecret,
            ],
            ClientKind::FutureSyncServer => Vec::new(),
        };
        assert(r@ =~= granted(self));
        r
    }

    /// Builds the record describing the granted capabilities.
    pub fn granted_capabilities(self) -> (r: ClientCapabilities)
        ensures
            r.client_kind == self,
            r.capabilities@ == granted(self),
    {
        ClientCapabilities { client_kind: self, capabilities: self.capabilities() }
    }

    /// Returns true when this client is allowed to use a public API capability.
    pub fn allows(self, capability: Capability) -> (r: bool)
        ensures
            r == granted(self).contains(capability),
    {
        let caps = self.capabilities();
        let mut i: usize = 0;
        while i < caps.len()
            invariant
                i <= caps.len(),
                caps@ == granted(self),
                forall|k: int| 0 <= k < i ==> caps@[k] != capability,
            decreases caps.len() - i,
        {
            if caps[i] == capability {
                assert(caps@[i as int] == capability);
                return true;
            }
            i = i + 1;
        }
        false
    }

    /// Fails closed when this client attempts to use a capability it lacks.
    pub fn require_capability(self, capability: Capability) -> (r: Result<(), ApiError>)
        ensures
            r is Ok <==> granted(self).contains(capability),
            r matches Err(e) ==> e.code == ErrorCode::CapabilityDenied && e.message@
                == denial_message(self, capability),
    {
        if self.allows(capability) {
            return Ok(());
        }
        let mut message = String::from_str(self.as_str());
        message.append(" cannot use the ");
        message.append(capability.as_str());
        message.append(" capability");
        Err(ApiError::new(ErrorCode::CapabilityDenied, message))
    }

    /// Fails closed when this client attempts to call a public API operation that maps to a
    /// capability it lacks.
    pub fn require_operation(self, operation: ApiOperation) -> (r: Result<(), ApiError>)
        ensures
            r is Ok <==> granted(self).contains(required(operation)),
            r matches Err(e) ==> e.code == ErrorCode::CapabilityDenied && e.message@
                == denial_message(self, required(operation)),
    {
        self.require_capability(operation.required_capability())
    }

    /// Returns the stable lower-camel-case wire name for this client kind.
    pub fn as_str(self) -> (r: &'static str)
        ensures
            r@ == client_kind_name(self),
    {
        match self {
            ClientKind::DesktopApp => "desktopApp",
            ClientKind::BrowserExtension => "browserExtension",
            ClientKind::IosApp => "iosApp",
            ClientKind::AndroidApp => "androidApp",
            ClientKind::IosAutofillExtension => "iosAutofillExtension",
            ClientKind::AndroidAutofillService => "androidAutofillService",
            ClientKind::FutureSyncServer => "futureSyncServer",
        }
    }
}

impl ApiOperation {
    /// Returns the capability required before servicing this public operation.
    pub fn required_capability(self) -> (r: Capability)
        ensures
            r == required(self),
    {
        match self {
            ApiOperation::UnlockVault | ApiOperation::OpenVault | ApiOperation::LockVault =>
                Capability::Unlock,
            ApiOperation::ReadVaultSummary
            | ApiOperation::ListEntries
            | ApiOperation::GetEntry
            | ApiOperation::SearchEntries => Capability::ReadMeta,
            ApiOperation::RevealSecret
            | ApiOperation::RevealRevisionSecret
            | ApiOperation::GenerateSecret => Capability::RevealSecret,
            ApiOperation::CopySecret => Capability::CopySecret,
            ApiOperation::CreateEntry
            | ApiOperation::UpdateEntry
            | ApiOperation::DeleteEntry
            | ApiOperation::SaveVault => Capability::MutateEntry,
            ApiOperation::CreateVault => Capability::CreateVault,
            ApiOperation::ChangeKdf => Capability::ChangeKdf,
            ApiOperation::ExportPlaintext => Capability::ExportPlaintext,
            ApiOperation::ExportKdbx => Capability::ExportKdbx,
            ApiOperation::ReadHistory => Capability::ReadHistory,
            ApiOperation::DeletePermanent => Capability::DeletePermanent,
        }
    }
}

impl Capability {
    /// Returns every capability in the public API policy.
    pub fn all() -> (r: Vec<Capability>)
        ensures
            r@ == all_capabilities(),
    {
        ClientKind::DesktopApp.capabilities()
    }

    /// Returns true for capabilities that receive or emit plaintext secrets at the public API
    /// boundary.
    pub fn carries_plaintext_secret(self) -> (r: bool)
        ensures
            r == (self == Capability::Unlock || self == Capability::RevealSecret || self
                == Capability::CopySecret || self == Capability::MutateEntry || self
                == Capability::CreateVault || self == Capability::ChangeKdf || self
                == Capability::ExportPlaintext),
    {
        match self {
            Capability::Unlock
            | Capability::RevealSecret
            | Capability::CopySecret
            | Capability::MutateEntry
            | Capability::CreateVault
            | Capability::ChangeKdf
            | Capability::ExportPlaintext => true,
            _ => false,
        }
    }

    /// Returns the stable lower-camel-case wire name for this capability.
    pub fn as_str(self) -> (r: &'static str)
        ensures
            r@ == capability_name(self),
    {
        match self {
            Capability::Unlock => "unlock",
            Capability::ReadMeta => "readMeta",
            Capability::RevealSecret => "revealSecret",
            Capability::CopySecret => "copySecret",
            Capability::MutateEntry => "mutateEntry",
            Capability::CreateVault => "createVault",
            Capability::ChangeKdf => "changeKdf",
            Capability::ExportPlaintext => "exportPlaintext",
            Capability::ExportKdbx => "exportKdbx",
            Capability::ReadHistory => "readHistory",
            Capability::DeletePermanent => "deletePermanent",
        }
    }
}

/// Severity of an audit finding.
#[derive(Debug, Clone, Copy, PartialEq, Eq, Structural)]
pub enum AuditSeverity {
    High,
    Medium,
    Low,
}

/// What an audit finding is about.
#[derive(Debug, Clone, Copy, PartialEq, Eq, Structural)]
pub enum AuditFindingKind {
    WeakPassword,
    ReusedPassword,
    InsecureUrl,
    DuplicateUrl,
    DuplicateUsername,
    StaleEntry,
    MissingUrl,
    MissingCollection,
    Untagged,
}

/// One audit finding about an entry; it never carries plaintext.
#[derive(Debug, Clone, PartialEq, Eq)]
pub struct AuditFinding {
    pub key: String,
    pub severity: AuditSeverity,
    pub kind: AuditFindingKind,
    pub entry_id: String,
    pub meta: String,
}

/// Stable machine-readable error codes.
#[derive(Debug, Clone, Copy, PartialEq, Eq, Structural)]
pub enum ErrorCode {
    InvalidPassword,
    FileNotFound,
    CorruptedVault,
    EncryptionError,
    DecryptionError,
    IoError,
    SerializationError,
    VaultLocked,
    NotFound,
    InvalidInput,
    CapabilityDenied,
    DocumentPermissionLost,
    DocumentReadOnly,
    ExternalFileChanged,
    SaveFailed,
}

/// The snake-case wire name of an error code.
pub open spec fn error_code_name(code: ErrorCode) -> Seq<char> {
    match code {
        ErrorCode::InvalidPassword => "invalid_password"@,
        ErrorCode::FileNotFound => "file_not_found"@,
        ErrorCode::CorruptedVault => "corrupted_vault"@,
        ErrorCode::EncryptionError => "encryption_error"@,
        ErrorCode::DecryptionError => "decryption_error"@,
        ErrorCode::IoError => "io_error"@,
        ErrorCode::SerializationError => "serialization_error"@,
        ErrorCode::VaultLocked => "vault_locked"@,
        ErrorCode::NotFound => "not_found"@,
        ErrorCode::InvalidInput => "invalid_input"@,
        ErrorCode::CapabilityDenied => "capability_denied"@,
        ErrorCode::DocumentPermissionLost => "document_permission_lost"@,
        ErrorCode::DocumentReadOnly => "document_read_only"@,
        ErrorCode::ExternalFileChanged => "external_file_changed"@,
        ErrorCode::SaveFailed => "save_failed"@,
    }
}

/// The fixed, non-secret message that accompanies each error code.
pub open spec fn error_code_message(code: ErrorCode) -> Seq<char> {
    match code {
        ErrorCode::InvalidPassword => "Invalid password"@,
        ErrorCode::FileNotFound => "Vault file not found"@,
        ErrorCode::CorruptedVault => "Vault file is corrupted"@,
        ErrorCode::EncryptionError => "Unable to encrypt vault data"@,
        ErrorCode::DecryptionError => "Unable to decrypt vault data"@,
        ErrorCode::IoError => "Unable to read or write vault data"@,
        ErrorCode::SerializationError => "Unable to process vault data"@,
        ErrorCode::VaultLocked => "Vault is locked"@,
        ErrorCode::NotFound => "Item not found"@,
        ErrorCode::InvalidInput => "Invalid input"@,
        ErrorCode::CapabilityDenied => "Capability denied"@,
        ErrorCode::DocumentPermissionLost => "Vault document permission was lost"@,
        ErrorCode::DocumentReadOnly => "Vault document is read-only"@,
        ErrorCode::ExternalFileChanged => "Vault document changed outside Arca"@,
        ErrorCode::SaveFailed => "Unable to save vault"@,
    }
}

impl ErrorCode {
    /// Returns the stable snake-case wire name of this code.
    pub fn as_str(&self) -> (r: &'static str)
        ensures
            r@ == error_code_name(*self),
    {
        match self {
            ErrorCode::InvalidPassword => "invalid_password",
            ErrorCode::FileNotFound => "file_not_found",
            ErrorCode::CorruptedVault => "corrupted_vault",
            ErrorCode::EncryptionError => "encryption_error",
            ErrorCode::DecryptionError => "decryption_error",
            ErrorCode::IoError => "io_error",
            ErrorCode::SerializationError => "serialization_error",
            ErrorCode::VaultLocked => "vault_locked",
            ErrorCode::NotFound => "not_found",
            ErrorCode::InvalidInput => "invalid_input",
            ErrorCode::CapabilityDenied => "capability_denied",
            ErrorCode::DocumentPermissionLost => "document_permission_lost",
            ErrorCode::DocumentReadOnly => "document_read_only",
            ErrorCode::ExternalFileChanged => "external_file_changed",
            ErrorCode::SaveFailed => "save_failed",
        }
    }

    /// Returns the fixed message for this code; it never holds caller-controlled text.
    pub fn safe_message(&self) -> (r: &'static str)
        ensures
            r@ == error_code_message(*self),
    {
        match self {
            ErrorCode::InvalidPassword => "Invalid password",
            ErrorCode::FileNotFound => "Vault file not found",
            ErrorCode::CorruptedVault => "Vault file is corrupted",
            ErrorCode::EncryptionError => "Unable to encrypt vault data",
            ErrorCode::DecryptionError => "Unable to decrypt vault data",
            ErrorCode::IoError => "Unable to read or write vault data",
            ErrorCode::SerializationError => "Unable to process vault data",
            ErrorCode::VaultLocked => "Vault is locked",
            ErrorCode::NotFound => "Item not found",
            ErrorCode::InvalidInput => "Invalid input",
            ErrorCode::CapabilityDenied => "Capability denied",
            ErrorCode::DocumentPermissionLost => "Vault document permission was lost",
            ErrorCode::DocumentReadOnly => "Vault document is read-only",
            ErrorCode::ExternalFileChanged => "Vault document changed outside Arca",
            ErrorCode::SaveFailed => "Unable to save vault",
        }
    }
}

/// A portable API error: a stable code and a message.
#[derive(Debug, Clone, PartialEq, Eq)]
pub struct ApiError {
    pub code: ErrorCode,
    pub message: String,
}

impl ApiError {
    /// Builds a portable API error with a stable machine-readable code.
    pub fn new(code: ErrorCode, message: String) -> (r: Self)
        ensures
            r.code == code,
            r.message@ == message@,
    {
        ApiError { code, message }
    }

    /// Builds an error whose message is the code's fixed safe message.
    pub fn stable(code: ErrorCode) -> (r: Self)
        ensures
            r.code == code,
            r.message@ == error_code_message(code),
    {
        ApiError { code, message: String::from_str(code.safe_message()) }
    }

    /// The display text `"{code}: {message}"`.
    pub fn display_text(&self) -> (r: String)
        ensures
            r@ == error_code_name(self.code) + ": "@ + self.message@,
    {
        let mut text = String::from_str(self.code.as_str());
        text.append(": ");
        text.append(self.message.as_str());
        text
    }
}

/// The desktop app is granted every capability.
pub proof fn desktop_is_granted_every_capability(c: Capability)
    ensures
        granted(ClientKind::DesktopApp).contains(c),
{
    let s = all_capabilities();
    match c {
        Capability::Unlock => assert(s[0] == c),
        Capability::ReadMeta => assert(s[1] == c),
        Capability::RevealSecret => assert(s[2] == c),
        Capability::CopySecret => assert(s[3] == c),
        Capability::MutateEntry => assert(s[4] == c),
        Capability::CreateVault => assert(s[5] == c),
        Capability::ChangeKdf => assert(s[6] == c),
        Capability::ExportPlaintext => assert(s[7] == c),
        Capability::ExportKdbx => assert(s[8] == c),
        Capability::ReadHistory => assert(s[9] == c),
        Capability::DeletePermanent => assert(s[10] == c),
    }
}

/// The browser extension and the autofill clients hold at most `Unlock`, `ReadMeta` and
/// `CopySecret`: they can never reveal, mutate, create, export or delete.
pub proof fn restricted_clients_only_unlock_read_and_copy(kind: ClientKind, c: Capability)
    requires
        kind == ClientKind::BrowserExtension || kind == ClientKind::IosAutofillExtension || kind
            == ClientKind::AndroidAutofillService,
        granted(kind).contains(c),
    ensures
        c == Capability::Unlock || c == Capability::ReadMeta || c == Capability::CopySecret,
{
}

/// The future sync server is granted nothing, so every operation is denied to it.
pub proof fn sync_server_is_granted_nothing(c: Capability)
    ensures
        !granted(ClientKind::FutureSyncServer).contains(c),
{
}

/// Only the desktop app may export plaintext.
pub proof fn only_desktop_exports_plaintext(kind: ClientKind)
    ensures
        granted(kind).contains(Capability::ExportPlaintext) <==> kind == ClientKind::DesktopApp,
{
    if kind == ClientKind::DesktopApp {
        assert(all_capabilities()[7] == Capability::ExportPlaintext);
    }
}

/// Whether an operation hands out a plaintext secret: revealing the current or an earlier
/// password, or generating a new one.
pub open spec fn reveals_plaintext_secret(op: ApiOperation) -> bool {
    op == ApiOperation::RevealSecret || op == ApiOperation::RevealRevisionSecret || op
        == ApiOperation::GenerateSecret
}

/// Whether an operation only reads entry metadata: the vault summary, the entry list, one
/// entry's metadata, or a search.
pub open spec fn reads_metadata_only(op: ApiOperation) -> bool {
    op == ApiOperation::ReadVaultSummary || op == ApiOperation::ListEntries || op
        == ApiOperation::GetEntry || op == ApiOperation::SearchEntries
}

/// Handing out a plaintext secret takes the `RevealSecret` capability, and nothing less: a
/// client may reveal or generate a secret exactly when it holds `RevealSecret`, so the
/// browser extension and the autofill clients never can, while reading metadata takes only
/// `ReadMeta`.
pub proof fn plaintext_secrets_need_reveal_capability(kind: ClientKind, op: ApiOperation)
    ensures
        reveals_plaintext_secret(op) ==> required(op) == Capability::RevealSecret,
        reveals_plaintext_secret(op) ==> (granted(kind).contains(required(op)) <==> granted(
            kind,
        ).contains(Capability::RevealSecret)),
        reveals_plaintext_secret(op) && (kind == ClientKind::BrowserExtension || kind
            == ClientKind::IosAutofillExtension || kind == ClientKind::AndroidAutofillService)
            ==> !granted(kind).contains(required(op)),
        reads_metadata_only(op) ==> required(op) == Capability::ReadMeta,
        required(op) == Capability::RevealSecret ==> reveals_plaintext_secret(op),
{
    if reveals_plaintext_secret(op) && (kind == ClientKind::BrowserExtension || kind
        == ClientKind::IosAutofillExtension || kind == ClientKind::AndroidAutofillService) {
        let s = restricted_capabilities();
        if s.contains(Capability::RevealSecret) {
            let i = choose|i: int| 0 <= i < s.len() && s[i] == Capability::RevealSecret;
            assert(s[0] != Capability::RevealSecret);
        }
    }
}

/// Every operation requires the capability for what it does: opening, unlocking and
/// locking take `Unlock`; copying a secret takes `CopySecret`; creating, updating, deleting
/// entries and saving take `MutateEntry`; and vault creation, KDF changes, both exports,
/// reading history and permanent deletion each take the capability of the same name.
pub proof fn operations_require_their_own_capability(op: ApiOperation)
    ensures
        (op == ApiOperation::UnlockVault || op == ApiOperation::OpenVault || op == ApiOperation::LockVault)
            ==> required(op) == Capability::Unlock,
        op == ApiOperation::CopySecret ==> required(op) == Capability::CopySecret,
        (op == ApiOperation::CreateEntry || op == ApiOperation::UpdateEntry || op == ApiOperation::DeleteEntry
            || op == ApiOperation::SaveVault) ==> required(op) == Capability::MutateEntry,
        op == ApiOperation::CreateVault ==> required(op) == Capability::CreateVault,
        op == ApiOperation::ChangeKdf ==> required(op) == Capability::ChangeKdf,
        op == ApiOperation::ExportPlaintext ==> required(op) == Capability::ExportPlaintext,
        op == ApiOperation::ExportKdbx ==> required(op) == Capability::ExportKdbx,
        op == ApiOperation::ReadHistory ==> required(op) == Capability::ReadHistory,
        op == ApiOperation::DeletePermanent ==> required(op) == Capability::DeletePermanent,
{
}

} // verus!
