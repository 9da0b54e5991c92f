//! Canonical contract for the full-app iOS and Android vault session.
//!
//! Native code owns document-picker permissions and I/O. The adapter maps its platform
//! locator to a process-local [`MobileDocumentHandle`], reads encrypted KDBX bytes while its
//! permission is active, and supplies an opaque [`DocumentRevision`] derived from platform
//! metadata. Rust owns the decrypted session, validates the revision before save
//! preparation, and returns encrypted bytes for a coordinated native write.
//!
//! Each session keeps its [`MobileSessionClient`] guard inside and authorizes every
//! operation before it inspects or changes any state.
use vstd::prelude::*;
use vstd::string::StringSliceAdditionalSpecFns;

use crate::api::{
    mobile_app_capabilities, Capability, error_code_message, granted, required, ApiError, ApiOperation, ClientKind,
    CreateEntryRequest, EntryMutation, EntryView, ErrorCode, GeneratorMode, GeneratorParams,
    RevealedSecret, RevisionView, SecretString,
};
use crate::entry::{
    self as core_entry, opt_opt_view, opt_strings_view, search_result,
    updated_entry, EntryPatch, PatchModel, DEFAULT_ENTRY_REVISION_LIMIT, effective_limit,
    patch_changes, changing_update_bounds_history,
};
use crate::generator::{
    self as core_generator, enabled_sets, full_charset, is_generated_password, GeneratorConfig,
    GeneratorMode as CoreGeneratorMode,
};
use crate::secret::{zeroizing_bytes, zeroizing_text, ZeroizingBytes, ZeroizingText};
use crate::text::{copy_opt, copy_string, copy_strings, opt_view, trimmed_of, strings_view, trim};
use crate::types::{entries_view, EntryModel, EntryRevision, MetaModel, RevisionModel, VaultEntry, VaultMeta};
use crate::vault as core_vault;
use crate::vault::{entries_read_from, histories_readable, is_saved_vault, reads_meta, vault_storable};
use crate::kdbx::{rfc3339_of, kdb1_signature, kdbx4_signature, kdbx_identified, kdbx_opened, opens_under_some_password};
use crate::error::VaultError;

verus! {

/// Every operation of the first full-app session surface.
pub open spec fn mobile_session_operations() -> Seq<ApiOperation> {
    seq![
        ApiOperation::CreateVault,
        ApiOperation::OpenVault,
        ApiOperation::UnlockVault,
        ApiOperation::LockVault,
        ApiOperation::ReadVaultSummary,
        ApiOperation::ListEntries,
        ApiOperation::GetEntry,
        ApiOperation::SearchEntries,
        ApiOperation::RevealSecret,
        ApiOperation::RevealRevisionSecret,
        ApiOperation::CopySecret,
        ApiOperation::ReadHistory,
        ApiOperation::GenerateSecret,
        ApiOperation::CreateEntry,
        ApiOperation::UpdateEntry,
        ApiOperation::DeleteEntry,
        ApiOperation::SaveVault,
    ]
}

/// Every operation of the first full-app session surface, in contract order.
pub fn mobile_vault_session_operations() -> (r: Vec<ApiOperation>)
    ensures
        r@ == mobile_session_operations(),
{
    let r = vec![
        ApiOperation::CreateVault,
        ApiOperation::OpenVault,
        ApiOperation::UnlockVault,
        ApiOperation::LockVault,
        ApiOperation::ReadVaultSummary,
        ApiOperation::ListEntries,
        ApiOperation::GetEntry,
        ApiOperation::SearchEntries,
        ApiOperation::RevealSecret,
        ApiOperation::RevealRevisionSecret,
        ApiOperation::CopySecret,
        ApiOperation::ReadHistory,
        ApiOperation::GenerateSecret,
        ApiOperation::CreateEntry,
        ApiOperation::UpdateEntry,
        ApiOperation::DeleteEntry,
        ApiOperation::SaveVault,
    ];
    assert(r@ =~= mobile_session_operations());
    r
}

/// Whether `kind` may perform `op` under the capability policy.
pub open spec fn permits(kind: ClientKind, op: ApiOperation) -> bool {
    granted(kind).contains(required(op))
}

/// Whether `e` is the stable error for `code`: that code with its fixed safe message.
pub open spec fn is_stable(e: ApiError, code: ErrorCode) -> bool {
    e.code == code && e.message@ == error_code_message(code)
}

/// Whether `r` is the stable error for `code`.
pub open spec fn fails_with<T>(r: Result<T, ApiError>, code: ErrorCode) -> bool {
    match r {
        Ok(_) => false,
        Err(e) => is_stable(e, code),
    }
}

/// Where a mobile document lives.
#[derive(Debug, Clone, Copy, PartialEq, Eq, Structural)]
pub enum MobileDocumentKind {
    IosSecurityScoped,
    IosAppScoped,
    AndroidStorageAccessFramework,
    AndroidAppScoped,
}

/// Whether the platform grant allows writing the document.
#[derive(Debug, Clone, Copy, PartialEq, Eq, Structural)]
pub enum MobileDocumentAccess {
    ReadOnly,
    ReadWrite,
}

/// Whether a document of kind `doc` belongs to the platform of client `kind`.
pub open spec fn document_matches(kind: ClientKind, doc: MobileDocumentKind) -> bool {
    ||| kind == ClientKind::IosApp && (doc == MobileDocumentKind::IosSecurityScoped || doc
        == MobileDocumentKind::IosAppScoped)
    ||| kind == ClientKind::AndroidApp && (doc == MobileDocumentKind::AndroidStorageAccessFramework
        || doc == MobileDocumentKind::AndroidAppScoped)
}

/// Whether a byte may appear in a document handle: ASCII letters and digits, `-` and `_`.
pub open spec fn handle_byte(b: u8) -> bool {
    (48 <= b <= 57) || (65 <= b <= 90) || (97 <= b <= 122) || b == 45 || b == 95
}

/// Whether text is an acceptable opaque handle: 1 to 256 bytes, each a handle byte. Paths,
/// URLs and URIs are rejected because `/`, `:`, `.` and `\` are not handle bytes.
pub open spec fn valid_handle(bytes: Seq<u8>) -> bool {
    &&& 0 < bytes.len() <= 256
    &&& forall|i: int| 0 <= i < bytes.len() ==> handle_byte(#[trigger] bytes[i])
}

/// Whether text is an acceptable document revision: non-empty and at most 512 bytes.
pub open spec fn valid_revision(chars: Seq<char>, bytes: Seq<u8>) -> bool {
    chars.len() > 0 && bytes.len() <= 512
}

/// Process-local opaque identifier of a platform document. The raw platform locator never
/// crosses this boundary.
#[derive(Clone, PartialEq, Eq)]
pub struct MobileDocumentHandle(String);

impl View for MobileDocumentHandle {
    type V = Seq<char>;

    closed spec fn view(&self) -> Seq<char> {
        self.0@
    }
}

/// The bytes of the UTF-8 encoding of a text.
pub open spec fn utf8_bytes(s: Seq<char>) -> Seq<u8> {
    vstd::utf8::encode_utf8(s)
}

impl MobileDocumentHandle {
    /// Accepts a handle of 1 to 256 bytes made of ASCII letters, digits, `-` and `_`;
    /// anything else is `invalid_input`.
    pub fn new(value: String) -> (r: Result<Self, ApiError>)
        ensures
            r is Ok <==> valid_handle(utf8_bytes(value@)),
            r matches Ok(h) ==> h@ == value@,
            r matches Err(e) ==> is_stable(e, ErrorCode::InvalidInput),
    {
        let text = value.as_str();
        let bytes = text.as_bytes();
        assert(text@ == value@);
        assert(bytes@ == utf8_bytes(value@));
        let n = bytes.len();
        if n == 0 || n > 256 {
            return Err(ApiError::stable(ErrorCode::InvalidInput));
        }
        let mut i: usize = 0;
        while i < n
            invariant
                n == bytes@.len(),
                bytes@ == utf8_bytes(value@),
                i <= n,
                forall|k: int| 0 <= k < i ==> handle_byte(#[trigger] bytes@[k]),
            decreases n - i,
        {
            let b = bytes[i];
            let allowed = (48 <= b && b <= 57) || (65 <= b && b <= 90) || (97 <= b && b <= 122)
                || b == 45 || b == 95;
            if !allowed {
                assert(!handle_byte(bytes@[i as int]));
                return Err(ApiError::stable(ErrorCode::InvalidInput));
            }
            i = i + 1;
        }
        Ok(MobileDocumentHandle(value))
    }

    /// The handle text.
    pub fn as_str(&self) -> (r: &str)
        ensures
            r@ == self@,
    {
        self.0.as_str()
    }

    /// A copy of the handle.
    pub fn duplicate(&self) -> (r: Self)
        ensures
            r@ == self@,
    {
        MobileDocumentHandle(copy_string(&self.0))
    }

    /// The redacted text shown instead of the handle in formatted output.
    pub fn redacted_text(&self) -> (r: &'static str)
        ensures
            r@ == "[document handle]"@,
    {
        "[document handle]"
    }
}

/// Opaque revision of a platform document, derived by native code from stable metadata.
#[derive(Clone, PartialEq, Eq)]
pub struct DocumentRevision(String);

impl View for DocumentRevision {
    type V = Seq<char>;

    closed spec fn view(&self) -> Seq<char> {
        self.0@
    }
}

impl DocumentRevision {
    /// Accepts a non-empty revision of at most 512 bytes; anything else is `invalid_input`.
    pub fn new(value: String) -> (r: Result<Self, ApiError>)
        ensures
            r is Ok <==> valid_revision(value@, utf8_bytes(value@)),
            r matches Ok(rev) ==> rev@ == value@,
            r matches Err(e) ==> is_stable(e, ErrorCode::InvalidInput),
    {
        let text = value.as_str();
        let bytes = text.as_bytes();
        assert(bytes@ == utf8_bytes(value@));
        if text.is_empty() || bytes.len() > 512 {
            return Err(ApiError::stable(ErrorCode::InvalidInput));
        }
        Ok(DocumentRevision(value))
    }

    /// The revision text.
    pub fn as_str(&self) -> (r: &str)
        ensures
            r@ == self@,
    {
        self.0.as_str()
    }

    /// A copy of the revision.
    pub fn duplicate(&self) -> (r: Self)
        ensures
            r@ == self@,
    {
        DocumentRevision(copy_string(&self.0))
    }

    /// Whether two revisions are the same text.
    pub fn same_as(&self, other: &Self) -> (r: bool)
        ensures
            r == (self@ == other@),
    {
        self.0 == other.0
    }

    /// The redacted text shown instead of the revision in formatted output.
    pub fn redacted_text(&self) -> (r: &'static str)
        ensures
            r@ == "[document revision]"@,
    {
        "[document revision]"
    }
}

/// A platform document the session works on.
#[derive(Clone, PartialEq, Eq)]
pub struct MobileDocument {
    pub handle: MobileDocumentHandle,
    pub kind: MobileDocumentKind,
    pub access: MobileDocumentAccess,
    pub revision: DocumentRevision,
}

/// The mathematical value of a [`MobileDocument`].
pub struct DocumentModel {
    pub handle: Seq<char>,
    pub kind: MobileDocumentKind,
    pub access: MobileDocumentAccess,
    pub revision: Seq<char>,
}

impl View for MobileDocument {
    type V = DocumentModel;

    open spec fn view(&self) -> DocumentModel {
        DocumentModel {
            handle: self.handle@,
            kind: self.kind,
            access: self.access,
            revision: self.revision@,
        }
    }
}

impl MobileDocument {
    /// A copy of the document description.
    pub fn duplicate(&self) -> (r: Self)
        ensures
            r@ == self@,
    {
        MobileDocument {
            handle: self.handle.duplicate(),
            kind: self.kind,
            access: self.access,
            revision: self.revision.duplicate(),
        }
    }
}

/// Encrypted KDBX bytes, wiped from memory when dropped.
pub struct EncryptedVaultBytes(ZeroizingBytes);

impl View for EncryptedVaultBytes {
    type V = Seq<u8>;

    closed spec fn view(&self) -> Seq<u8> {
        zeroizing_bytes(self.0)
    }
}

impl EncryptedVaultBytes {
    /// Holds the given bytes.
    pub fn new(bytes: Vec<u8>) -> (r: Self)
        ensures
            r@ == bytes@,
    {
        EncryptedVaultBytes(ZeroizingBytes::new(bytes))
    }

    /// The held bytes.
    pub fn as_bytes(&self) -> (r: &[u8])
        ensures
            r@ == self@,
    {
        self.0.as_slice()
    }

    /// A copy holding the same bytes.
    pub fn duplicate(&self) -> (r: Self)
        ensures
            r@ == self@,
    {
        EncryptedVaultBytes(self.0.duplicate())
    }

    /// Whether two holders hold the same bytes.
    pub fn same_bytes(&self, other: &Self) -> (r: bool)
        ensures
            r == (self@ == other@),
    {
        self.0.same_bytes(&other.0)
    }

    /// The redacted text shown instead of the bytes in formatted output.
    pub fn redacted_text(&self) -> (r: &'static str)
        ensures
            r@ == "[encrypted vault bytes]"@,
    {
        "[encrypted vault bytes]"
    }
}

/// A request to stage encrypted bytes read by native code.
pub struct OpenMobileVaultRequest {
    pub document: MobileDocument,
    pub encrypted_vault: EncryptedVaultBytes,
}

/// A request to unlock the staged vault.
pub struct UnlockMobileVaultRequest {
    pub password: SecretString,
}

/// A request to create a new vault document.
pub struct CreateMobileVaultRequest {
    pub document: MobileDocument,
    pub name: String,
    pub password: SecretString,
}

/// Password-free summary of an unlocked vault.
#[derive(Debug, Clone, PartialEq, Eq)]
pub struct MobileVaultSummary {
    pub name: String,
    pub entry_count: usize,
    pub modified_at: String,
}

/// The phase of a session.
#[derive(Debug, Clone, Copy, PartialEq, Eq, Structural)]
pub enum MobileSessionPhase {
    Empty,
    Locked,
    UnlockedClean,
    UnlockedDirty,
}

/// Password-free status of a session.
#[derive(Debug, Clone, PartialEq, Eq)]
pub struct MobileSessionStatus {
    pub phase: MobileSessionPhase,
    pub writable: bool,
    pub summary: Option<MobileVaultSummary>,
}

/// A secret handed to native code for an immediate clipboard write.
pub struct SecretForCopy {
    secret: SecretString,
}

impl SecretForCopy {
    /// Wraps a secret for copying.
    pub fn new(secret: SecretString) -> (r: Self)
        ensures
            r.secret_view() == secret@,
    {
        SecretForCopy { secret }
    }

    /// The secret's characters.
    pub closed spec fn secret_view(&self) -> Seq<char> {
        self.secret@
    }

    /// The plaintext to write to the clipboard.
    pub fn expose_secret(&self) -> (r: &str)
        ensures
            r@ == self.secret_view(),
    {
        self.secret.expose_secret()
    }
}

/// A request to prepare a save, with the revision native code observed just before it.
#[derive(Clone, PartialEq, Eq)]
pub struct PrepareMobileVaultSaveRequest {
    pub observed_revision: DocumentRevision,
}

/// Encrypted bytes for native code to write over the document with the given handle, if its
/// revision is still the expected one.
pub struct PreparedMobileVaultWrite {
    pub document_handle: MobileDocumentHandle,
    pub expected_revision: DocumentRevision,
    pub encrypted_vault: EncryptedVaultBytes,
}

/// The acknowledgement of a completed native write, with the document's new revision.
#[derive(Clone, PartialEq, Eq)]
pub struct CommitMobileVaultWriteRequest {
    pub committed_revision: DocumentRevision,
}

/// What native code does to the session after an error.
#[derive(Debug, Clone, Copy, PartialEq, Eq, Structural)]
pub enum MobileFailureAction {
    KeepState,
    StayLocked,
    LockAndDiscard,
    KeepUnlockedDirty,
}

/// The state transition that follows each error code.
pub open spec fn failure_action_of(code: ErrorCode) -> MobileFailureAction {
    match code {
        ErrorCode::InvalidPassword => MobileFailureAction::StayLocked,
        ErrorCode::CorruptedVault
        | ErrorCode::FileNotFound
        | ErrorCode::DocumentPermissionLost
        | ErrorCode::ExternalFileChanged => MobileFailureAction::LockAndDiscard,
        ErrorCode::SaveFailed => MobileFailureAction::KeepUnlockedDirty,
        _ => MobileFailureAction::KeepState,
    }
}

/// The state transition that follows an error code.
pub fn failure_action(code: ErrorCode) -> (r: MobileFailureAction)
    ensures
        r == failure_action_of(code),
{
    match code {
        ErrorCode::InvalidPassword => MobileFailureAction::StayLocked,
        ErrorCode::CorruptedVault
        | ErrorCode::FileNotFound
        | ErrorCode::DocumentPermissionLost
        | ErrorCode::ExternalFileChanged => MobileFailureAction::LockAndDiscard,
        ErrorCode::SaveFailed => MobileFailureAction::KeepUnlockedDirty,
        _ => MobileFailureAction::KeepState,
    }
}

/// The capability guard a session keeps: the client kind fixed at construction.
#[derive(Debug, Clone, Copy, PartialEq, Eq, Structural)]
pub struct MobileSessionClient {
    client_kind: ClientKind,
}

impl MobileSessionClient {
    /// The client kind of the guard.
    pub closed spec fn kind(&self) -> ClientKind {
        self.client_kind
    }

    /// Only the full iOS and Android apps may own a session; anything else is
    /// `capability_denied`.
    pub fn new(client_kind: ClientKind) -> (r: Result<Self, ApiError>)
        ensures
            r is Ok <==> (client_kind == ClientKind::IosApp || client_kind == ClientKind::AndroidApp),
            r matches Ok(c) ==> c.kind() == client_kind,
            r matches Err(e) ==> is_stable(e, ErrorCode::CapabilityDenied),
    {
        match client_kind {
            ClientKind::IosApp | ClientKind::AndroidApp => Ok(MobileSessionClient { client_kind }),
            _ => Err(ApiError::stable(ErrorCode::CapabilityDenied)),
        }
    }

    /// The client kind of the guard.
    pub fn client_kind(self) -> (r: ClientKind)
        ensures
            r == self.kind(),
    {
        self.client_kind
    }

    /// Checks the capability policy for `operation`; a denial carries only the stable
    /// message, never the client or capability names.
    pub fn authorize(self, operation: ApiOperation) -> (r: Result<(), ApiError>)
        ensures
            r is Ok <==> permits(self.kind(), operation),
            r matches Err(e) ==> is_stable(e, ErrorCode::CapabilityDenied),
    {
        match self.client_kind.require_operation(operation) {
            Ok(()) => Ok(()),
            Err(error) => Err(ApiError::stable(error.code)),
        }
    }

    /// Checks that the document belongs to the session's platform.
    pub fn authorize_document(self, document: &MobileDocument) -> (r: Result<(), ApiError>)
        ensures
            r is Ok <==> document_matches(self.kind(), document.kind),
            r matches Err(e) ==> is_stable(e, ErrorCode::CapabilityDenied),
    {
        let allowed = match (self.client_kind, document.kind) {
            (ClientKind::IosApp, MobileDocumentKind::IosSecurityScoped) => true,
            (ClientKind::IosApp, MobileDocumentKind::IosAppScoped) => true,
            (ClientKind::AndroidApp, MobileDocumentKind::AndroidStorageAccessFramework) => true,
            (ClientKind::AndroidApp, MobileDocumentKind::AndroidAppScoped) => true,
            _ => false,
        };
        if allowed {
            Ok(())
        } else {
            Err(ApiError::stable(ErrorCode::CapabilityDenied))
        }
    }

    /// Checks the capability, the platform match and then write access, in that order.
    pub fn authorize_write(self, operation: ApiOperation, document: &MobileDocument) -> (r: Result<(), ApiError>)
        ensures
            r is Ok <==> write_allowed(self.kind(), operation, document@),
            r matches Err(e) ==> is_stable(e, write_denial(self.kind(), operation, document@)),
    {
        self.authorize(operation)?;
        self.authorize_document(document)?;
        if document.access == MobileDocumentAccess::ReadWrite {
            Ok(())
        } else {
            Err(ApiError::stable(ErrorCode::DocumentReadOnly))
        }
    }
}

/// Whether `kind` may write `doc` for `op`: the capability, the platform and write access.
pub open spec fn write_allowed(kind: ClientKind, op: ApiOperation, doc: DocumentModel) -> bool {
    permits(kind, op) && document_matches(kind, doc.kind) && doc.access
        == MobileDocumentAccess::ReadWrite
}

/// The error a denied write reports: `capability_denied` for the capability or platform,
/// `document_read_only` for a read-only document.
pub open spec fn write_denial(kind: ClientKind, op: ApiOperation, doc: DocumentModel) -> ErrorCode {
    if !permits(kind, op) || !document_matches(kind, doc.kind) {
        ErrorCode::CapabilityDenied
    } else {
        ErrorCode::DocumentReadOnly
    }
}

/// Whether `v` shows the metadata of entry `e`: every field but the passwords, and the
/// number of revisions.
pub open spec fn is_entry_view_of(v: EntryView, e: EntryModel) -> bool {
    &&& v.id@ == e.id
    &&& v.title@ == e.title
    &&& v.username@ == e.username
    &&& opt_view(v.collection) == e.collection
    &&& opt_view(v.url) == e.url
    &&& opt_view(v.notes) == e.notes
    &&& strings_view(v.tags@) == e.tags
    &&& v.created_at@ == e.created_at
    &&& v.updated_at@ == e.updated_at
    &&& v.revision_count == e.revisions.len()
}

/// Whether `v` shows the metadata of revision `r` with the given password-change flag.
pub open spec fn is_revision_view_of(v: RevisionView, r: RevisionModel, changed: bool) -> bool {
    &&& v.captured_at@ == r.captured_at
    &&& v.updated_at@ == r.updated_at
    &&& v.title@ == r.title
    &&& v.username@ == r.username
    &&& opt_view(v.collection) == r.collection
    &&& opt_view(v.url) == r.url
    &&& opt_view(v.notes) == r.notes
    &&& strings_view(v.tags@) == r.tags
    &&& v.password_changed == changed
}

/// Whether `s` summarizes a vault with metadata `meta` and `count` entries.
pub open spec fn is_summary_of(s: MobileVaultSummary, meta: MetaModel, count: nat) -> bool {
    s.name@ == meta.name && s.entry_count == count && s.modified_at@ == meta.modified_at
}

/// The metadata-only view of an entry.
pub fn entry_view(entry: &VaultEntry) -> (v: EntryView)
    ensures
        is_entry_view_of(v, entry@),
{
    EntryView {
        id: copy_string(&entry.id),
        title: copy_string(&entry.title),
        username: copy_string(&entry.username),
        collection: copy_opt(&entry.collection),
        url: copy_opt(&entry.url),
        notes: copy_opt(&entry.notes),
        tags: copy_strings(&entry.tags),
        created_at: copy_string(&entry.created_at),
        updated_at: copy_string(&entry.updated_at),
        revision_count: entry.revisions.len(),
    }
}

/// The metadata-only view of a revision with its password-change flag.
pub fn revision_view(revision: &EntryRevision, password_changed: bool) -> (v: RevisionView)
    ensures
        is_revision_view_of(v, revision@, password_changed),
{
    RevisionView {
        captured_at: copy_string(&revision.captured_at),
        updated_at: copy_string(&revision.updated_at),
        title: copy_string(&revision.title),
        username: copy_string(&revision.username),
        collection: copy_opt(&revision.collection),
        url: copy_opt(&revision.url),
        notes: copy_opt(&revision.notes),
        tags: copy_strings(&revision.tags),
        password_changed,
    }
}

/// The summary of a vault with `meta` and `entry_count` entries.
pub fn mobile_summary(meta: &VaultMeta, entry_count: usize) -> (s: MobileVaultSummary)
    ensures
        is_summary_of(s, meta@, entry_count as nat),
{
    MobileVaultSummary {
        name: copy_string(&meta.name),
        entry_count,
        modified_at: copy_string(&meta.modified_at),
    }
}

/// The patch a public mutation stands for.
pub open spec fn patch_of(m: EntryMutation) -> PatchModel {
    PatchModel {
        title: opt_view(m.title),
        username: opt_view(m.username),
        password: match m.password {
            Some(p) => Some(p@),
            None => None,
        },
        collection: opt_opt_view(m.collection),
        url: opt_opt_view(m.url),
        notes: opt_opt_view(m.notes),
        tags: opt_strings_view(m.tags),
    }
}

/// Converts a public mutation into the core patch.
pub fn entry_patch(mutation: EntryMutation) -> (p: EntryPatch)
    ensures
        p@ == patch_of(mutation),
{
    let password = match mutation.password {
        Some(secret) => Some(secret.into_inner()),
        None => None,
    };
    EntryPatch {
        title: mutation.title,
        username: mutation.username,
        password,
        collection: mutation.collection,
        url: mutation.url,
        notes: mutation.notes,
        tags: mutation.tags,
    }
}

/// The generator settings for public parameters: each absent parameter takes the default
/// (24 characters, all classes, ambiguous characters allowed, random mode).
pub open spec fn config_of(p: GeneratorParams) -> GeneratorConfig {
    GeneratorConfig {
        length: match p.length {
            Some(l) => l,
            None => 24,
        },
        uppercase: match p.uppercase {
            Some(b) => b,
            None => true,
        },
        lowercase: match p.lowercase {
            Some(b) => b,
            None => true,
        },
        digits: match p.digits {
            Some(b) => b,
            None => true,
        },
        symbols: match p.symbols {
            Some(b) => b,
            None => true,
        },
        exclude_ambiguous: match p.exclude_ambiguous {
            Some(b) => b,
            None => false,
        },
        mode: match p.mode {
            Some(GeneratorMode::Passphrase) => CoreGeneratorMode::Passphrase,
            _ => CoreGeneratorMode::Random,
        },
    }
}

fn or_default_bool(value: Option<bool>, default: bool) -> (r: bool)
    ensures
        r == match value {
            Some(b) => b,
            None => default,
        },
{
    match value {
        Some(b) => b,
        None => default,
    }
}

/// Applies the generator defaults to partial public parameters.
pub fn generator_config(params: GeneratorParams) -> (c: GeneratorConfig)
    ensures
        c == config_of(params),
{
    let default = GeneratorConfig::default();
    GeneratorConfig {
        length: match params.length {
            Some(l) => l,
            None => default.length,
        },
        uppercase: or_default_bool(params.uppercase, default.uppercase),
        lowercase: or_default_bool(params.lowercase, default.lowercase),
        digits: or_default_bool(params.digits, default.digits),
        symbols: or_default_bool(params.symbols, default.symbols),
        exclude_ambiguous: or_default_bool(params.exclude_ambiguous, default.exclude_ambiguous),
        mode: match params.mode {
            Some(GeneratorMode::Random) | None => CoreGeneratorMode::Random,
            Some(GeneratorMode::Passphrase) => CoreGeneratorMode::Passphrase,
        },
    }
}

/// A generated password with what its entropy estimate is computed from: the estimate in
/// bits is `length * log2(charset_size)`.
pub struct GeneratedPassword {
    pub password: String,
    pub length: usize,
    pub charset_size: usize,
}

impl GeneratedPassword {
    /// The generated plaintext.
    pub fn expose_secret(&self) -> (r: &str)
        ensures
            r@ == self.password@,
    {
        self.password.as_str()
    }
}

/// The mathematical state of a session.
pub enum SessionState {
    /// No document.
    Empty,
    /// Encrypted bytes staged for unlocking.
    Locked { staged_document: DocumentModel, staged_bytes: Seq<u8> },
    /// Decrypted vault held in memory.
    Unlocked {
        document: DocumentModel,
        password: Seq<char>,
        meta: MetaModel,
        entries: Seq<EntryModel>,
        dirty: bool,
        write_pending: bool,
    },
}

/// The mathematical value of a session: its fixed client kind and its state.
pub struct SessionModel {
    pub kind: ClientKind,
    pub state: SessionState,
}

/// Whether `st` reports state `s`: the phase, whether the document is writable, and for an
/// unlocked vault its summary.
pub open spec fn status_matches(st: MobileSessionStatus, s: SessionState) -> bool {
    match s {
        SessionState::Empty => st.phase == MobileSessionPhase::Empty && !st.writable
            && st.summary is None,
        SessionState::Locked { staged_document, .. } => st.phase == MobileSessionPhase::Locked
            && st.writable == (staged_document.access == MobileDocumentAccess::ReadWrite)
            && st.summary is None,
        SessionState::Unlocked { document, meta, entries, dirty, .. } => st.phase == (if dirty {
            MobileSessionPhase::UnlockedDirty
        } else {
            MobileSessionPhase::UnlockedClean
        }) && st.writable == (document.access == MobileDocumentAccess::ReadWrite)
            && (st.summary matches Some(sum) && is_summary_of(sum, meta, entries.len())),
    }
}

/// The error that stops a reading operation before it looks at entries: a denied capability,
/// then a vault that is not unlocked.
pub open spec fn read_gate(m: SessionModel, op: ApiOperation) -> Option<ErrorCode> {
    if !permits(m.kind, op) {
        Some(ErrorCode::CapabilityDenied)
    } else if !(m.state is Unlocked) {
        Some(ErrorCode::VaultLocked)
    } else {
        None
    }
}

/// The error that stops a writing operation: a denied capability, a vault that is not
/// unlocked, a document of another platform, a read-only document, and, where the operation
/// must not overlap a pending write, a pending write.
pub open spec fn write_gate(m: SessionModel, op: ApiOperation, no_pending: bool) -> Option<ErrorCode> {
    if !permits(m.kind, op) {
        Some(ErrorCode::CapabilityDenied)
    } else if !(m.state is Unlocked) {
        Some(ErrorCode::VaultLocked)
    } else if !document_matches(m.kind, m.state->document.kind) {
        Some(ErrorCode::CapabilityDenied)
    } else if m.state->document.access != MobileDocumentAccess::ReadWrite {
        Some(ErrorCode::DocumentReadOnly)
    } else if no_pending && m.state->write_pending {
        Some(ErrorCode::InvalidInput)
    } else {
        None
    }
}

/// Whether entry `i` is the first entry with id `id`.
pub open spec fn first_with_id(es: Seq<EntryModel>, id: Seq<char>, i: int) -> bool {
    &&& 0 <= i < es.len()
    &&& es[i].id == id
    &&& forall|j: int| 0 <= j < i ==> es[j].id != id
}

/// Whether some entry has id `id`.
pub open spec fn has_id(es: Seq<EntryModel>, id: Seq<char>) -> bool {
    exists|i: int| 0 <= i < es.len() && es[i].id == id
}

/// The session state with the unlocked vault's entries replaced and marked dirty.
pub open spec fn with_entries(s: SessionState, entries: Seq<EntryModel>) -> SessionState {
    SessionState::Unlocked {
        document: s->document,
        password: s->password,
        meta: s->meta,
        entries,
        dirty: true,
        write_pending: s->write_pending,
    }
}

/// Whether a password differs from the next newer one in an entry's history: for the newest
/// revision, from the current password.
pub open spec fn password_changed_at(e: EntryModel, i: int) -> bool {
    e.revisions[i].password != (if i == 0 {
        e.password
    } else {
        e.revisions[i - 1].password
    })
}

/// The number of revisions the history view shows.
pub open spec fn shown_history_len(e: EntryModel) -> nat {
    if e.revisions.len() < DEFAULT_ENTRY_REVISION_LIMIT {
        e.revisions.len()
    } else {
        DEFAULT_ENTRY_REVISION_LIMIT as nat
    }
}

/// Whether `e` is the entry a create request makes: the request's fields, no history, and
/// created and last updated at the same moment.
pub open spec fn created_from(e: EntryModel, request: CreateEntryRequest) -> bool {
    &&& e.title == request.title@
    &&& e.username == request.username@
    &&& e.password == request.password@
    &&& e.collection == opt_view(request.collection)
    &&& e.url == opt_view(request.url)
    &&& e.notes == opt_view(request.notes)
    &&& e.tags == strings_view(request.tags@)
    &&& e.updated_at == e.created_at
    &&& e.revisions.len() == 0
}

/// Whether a mutation sets the password to the empty text.
pub open spec fn clears_password(m: EntryMutation) -> bool {
    m.password matches Some(p) && p@.len() == 0
}

/// The unlocked state with new dirty and pending-write flags.
pub open spec fn with_flags(s: SessionState, dirty: bool, write_pending: bool) -> SessionState {
    SessionState::Unlocked {
        document: s->document,
        password: s->password,
        meta: s->meta,
        entries: s->entries,
        dirty,
        write_pending,
    }
}

/// The unlocked state after a committed write: the document at its new revision, clean, with
/// no write pending.
pub open spec fn committed(s: SessionState, revision: Seq<char>) -> SessionState {
    SessionState::Unlocked {
        document: DocumentModel { revision, ..s->document },
        password: s->password,
        meta: s->meta,
        entries: s->entries,
        dirty: false,
        write_pending: false,
    }
}

struct LockedMobileVault {
    document: MobileDocument,
    encrypted_vault: EncryptedVaultBytes,
}

struct UnlockedMobileVault {
    document: MobileDocument,
    master_password: ZeroizingText,
    meta: VaultMeta,
    entries: Vec<VaultEntry>,
    dirty: bool,
    write_pending: bool,
}

enum MobileVaultSessionState {
    Empty,
    Locked(LockedMobileVault),
    Unlocked(UnlockedMobileVault),
}

/// One full-app vault session: at most one document, decrypted only while unlocked, with at
/// most one write in flight.
pub struct MobileVaultSession {
    client: MobileSessionClient,
    state: MobileVaultSessionState,
}

/// The mathematical state of an unlocked vault.
spec fn unlocked_model(u: UnlockedMobileVault) -> SessionState {
    SessionState::Unlocked {
        document: u.document@,
        password: zeroizing_text(u.master_password),
        meta: u.meta@,
        entries: entries_view(u.entries@),
        dirty: u.dirty,
        write_pending: u.write_pending,
    }
}

/// The mathematical value of a session state.
spec fn state_model(s: MobileVaultSessionState) -> SessionState {
    match s {
        MobileVaultSessionState::Empty => SessionState::Empty,
        MobileVaultSessionState::Locked(l) => SessionState::Locked {
            staged_document: l.document@,
            staged_bytes: l.encrypted_vault@,
        },
        MobileVaultSessionState::Unlocked(u) => unlocked_model(u),
    }
}

impl View for MobileVaultSession {
    type V = SessionModel;

    closed spec fn view(&self) -> SessionModel {
        SessionModel { kind: self.client.kind(), state: state_model(self.state) }
    }
}

/// Finds the first entry with id `id`.
fn find_index(entries: &Vec<VaultEntry>, id: &str) -> (r: Option<usize>)
    ensures
        r matches Some(i) ==> first_with_id(entries_view(entries@), id@, i as int),
        r is None ==> !has_id(entries_view(entries@), id@),
{
    let wanted = String::from_str(id);
    let mut i: usize = 0;
    while i < entries.len()
        invariant
            i <= entries.len(),
            wanted@ == id@,
            forall|j: int| 0 <= j < i ==> entries@[j]@.id != id@,
        decreases entries.len() - i,
    {
        if entries[i].id == wanted {
            return Some(i);
        }
        i = i + 1;
    }
    assert forall|j: int| 0 <= j < entries@.len() implies entries_view(entries@)[j].id != id@ by {
        assert(entries_view(entries@)[j] == entries@[j]@);
    }
    None
}

impl MobileVaultSession {
    /// Creates an empty session for a full mobile app; other clients are `capability_denied`.
    pub fn new(client_kind: ClientKind) -> (r: Result<Self, ApiError>)
        ensures
            r is Ok <==> (client_kind == ClientKind::IosApp || client_kind == ClientKind::AndroidApp),
            r matches Ok(s) ==> s@ == (SessionModel { kind: client_kind, state: SessionState::Empty }),
            r matches Err(e) ==> is_stable(e, ErrorCode::CapabilityDenied),
    {
        let client = MobileSessionClient::new(client_kind)?;
        Ok(MobileVaultSession { client, state: MobileVaultSessionState::Empty })
    }

    fn status_unchecked(&self) -> (st: MobileSessionStatus)
        ensures
            status_matches(st, self@.state),
    {
        match &self.state {
            MobileVaultSessionState::Empty => MobileSessionStatus {
                phase: MobileSessionPhase::Empty,
                writable: false,
                summary: None,
            },
            MobileVaultSessionState::Locked(locked) => MobileSessionStatus {
                phase: MobileSessionPhase::Locked,
                writable: locked.document.access == MobileDocumentAccess::ReadWrite,
                summary: None,
            },
            MobileVaultSessionState::Unlocked(unlocked) => MobileSessionStatus {
                phase: if unlocked.dirty {
                    MobileSessionPhase::UnlockedDirty
                } else {
                    MobileSessionPhase::UnlockedClean
                },
                writable: unlocked.document.access == MobileDocumentAccess::ReadWrite,
                summary: Some(mobile_summary(&unlocked.meta, unlocked.entries.len())),
            },
        }
    }

    /// The session's status.
    pub fn status(&self) -> (r: Result<MobileSessionStatus, ApiError>)
        ensures
            r is Ok <==> permits(self@.kind, ApiOperation::ReadVaultSummary),
            r matches Ok(st) ==> status_matches(st, self@.state),
            r matches Err(e) ==> is_stable(e, ErrorCode::CapabilityDenied),
    {
        self.client.authorize(ApiOperation::ReadVaultSummary)?;
        Ok(self.status_unchecked())
    }

    fn unlocked(&self) -> (r: Result<&UnlockedMobileVault, ApiError>)
        ensures
            r is Ok <==> self@.state is Unlocked,
            r matches Ok(u) ==> self.state == MobileVaultSessionState::Unlocked(*u),
            r matches Err(e) ==> is_stable(e, ErrorCode::VaultLocked),
    {
        match &self.state {
            MobileVaultSessionState::Unlocked(unlocked) => Ok(unlocked),
            _ => Err(ApiError::stable(ErrorCode::VaultLocked)),
        }
    }

    /// Discards everything the session holds; decrypted entries are wiped before they are
    /// dropped, and the password and staged bytes are in holders that wipe themselves.
    fn clear(&mut self)
        ensures
            final(self)@ == (SessionModel { kind: old(self)@.kind, state: SessionState::Empty }),
    {
        let taken = self.take_state();
        if let MobileVaultSessionState::Unlocked(mut unlocked) = taken {
            crate::wipe::zeroize_entries(&mut unlocked.entries);
        }
        self.state = MobileVaultSessionState::Empty;
    }

    /// Capability check, unlocked check and write-permission check for an operation that
    /// changes the unlocked vault.
    fn authorize_existing_write(&self, operation: ApiOperation) -> (r: Result<(), ApiError>)
        ensures
            r is Ok <==> write_gate(self@, operation, false) is None,
            r matches Err(e) ==> is_stable(e, write_gate(self@, operation, false)->0),
    {
        self.client.authorize(operation)?;
        let unlocked = self.unlocked()?;
        self.client.authorize_write(operation, &unlocked.document)
    }

    fn ensure_no_pending_write(&self) -> (r: Result<(), ApiError>)
        requires
            self@.state is Unlocked,
        ensures
            r is Ok <==> !self@.state->write_pending,
            r matches Err(e) ==> is_stable(e, ErrorCode::InvalidInput),
    {
        let unlocked = self.unlocked()?;
        if unlocked.write_pending {
            Err(ApiError::stable(ErrorCode::InvalidInput))
        } else {
            Ok(())
        }
    }

    fn ensure_empty(&self) -> (r: Result<(), ApiError>)
        ensures
            r is Ok <==> self@.state is Empty,
            r matches Err(e) ==> is_stable(e, ErrorCode::InvalidInput),
    {
        match &self.state {
            MobileVaultSessionState::Empty => Ok(()),
            _ => Err(ApiError::stable(ErrorCode::InvalidInput)),
        }
    }

    /// Stages encrypted bytes of a document without decrypting them. Fails when the
    /// capability or platform is denied, or when the session is not empty.
    pub fn open(&mut self, request: OpenMobileVaultRequest) -> (r: Result<MobileSessionStatus, ApiError>)
        ensures
            final(self)@.kind == old(self)@.kind,
            !permits(old(self)@.kind, ApiOperation::OpenVault) || !document_matches(
                old(self)@.kind,
                request.document.kind,
            ) ==> fails_with(r, ErrorCode::CapabilityDenied) && final(self)@
                == old(self)@,
            permits(old(self)@.kind, ApiOperation::OpenVault) && document_matches(
                old(self)@.kind,
                request.document.kind,
            ) && !(old(self)@.state is Empty) ==> fails_with(r, ErrorCode::InvalidInput) && final(self)@ == old(self)@,
            permits(old(self)@.kind, ApiOperation::OpenVault) && document_matches(
                old(self)@.kind,
                request.document.kind,
            ) && old(self)@.state is Empty ==> (r matches Ok(st) && final(self)@.state
                == (SessionState::Locked {
                staged_document: request.document@,
                staged_bytes: request.encrypted_vault@,
            }) && status_matches(st, final(self)@.state)),
    {
        self.client.authorize(ApiOperation::OpenVault)?;
        self.client.authorize_document(&request.document)?;
        self.ensure_empty()?;
        self.state = MobileVaultSessionState::Locked(
            LockedMobileVault { document: request.document, encrypted_vault: request.encrypted_vault },
        );
        Ok(self.status_unchecked())
    }

    /// Locks: discards the password, decrypted entries, staged bytes and any pending write.
    pub fn lock(&mut self) -> (r: Result<MobileSessionStatus, ApiError>)
        ensures
            final(self)@.kind == old(self)@.kind,
            !permits(old(self)@.kind, ApiOperation::LockVault) ==> fails_with(r, ErrorCode::CapabilityDenied) && final(self)@ == old(self)@,
            permits(old(self)@.kind, ApiOperation::LockVault) ==> final(self)@.state
                == SessionState::Empty && (r matches Ok(st) && status_matches(st, SessionState::Empty)),
    {
        self.client.authorize(ApiOperation::LockVault)?;
        self.clear();
        Ok(self.status_unchecked())
    }

    /// The unlocked vault's summary.
    pub fn summary(&self) -> (r: Result<MobileVaultSummary, ApiError>)
        ensures
            read_gate(self@, ApiOperation::ReadVaultSummary) matches Some(code) ==> fails_with(r, code),
            read_gate(self@, ApiOperation::ReadVaultSummary) is None ==> (r matches Ok(s)
                && is_summary_of(s, self@.state->meta, self@.state->entries.len())),
    {
        self.client.authorize(ApiOperation::ReadVaultSummary)?;
        let unlocked = self.unlocked()?;
        Ok(mobile_summary(&unlocked.meta, unlocked.entries.len()))
    }

    /// Metadata-only views of all entries, in stored order.
    pub fn list_entries(&self) -> (r: Result<Vec<EntryView>, ApiError>)
        ensures
            read_gate(self@, ApiOperation::ListEntries) matches Some(code) ==> fails_with(r, code),
            read_gate(self@, ApiOperation::ListEntries) is None ==> (r matches Ok(views)
                && views@.len() == self@.state->entries.len() && forall|i: int|
                0 <= i < views@.len() ==> is_entry_view_of(
                    #[trigger] views@[i],
                    self@.state->entries[i],
                )),
    {
        self.client.authorize(ApiOperation::ListEntries)?;
        let unlocked = self.unlocked()?;
        let mut views: Vec<EntryView> = Vec::new();
        let mut i: usize = 0;
        while i < unlocked.entries.len()
            invariant
                i <= unlocked.entries.len(),
                views@.len() == i,
                forall|k: int| 0 <= k < i ==> is_entry_view_of(#[trigger] views@[k], unlocked.entries@[k]@),
            decreases unlocked.entries.len() - i,
        {
            views.push(entry_view(&unlocked.entries[i]));
            i = i + 1;
        }
        Ok(views)
    }

    /// The metadata-only view of the first entry with id `entry_id`; `not_found` otherwise.
    pub fn get_entry(&self, entry_id: &str) -> (r: Result<EntryView, ApiError>)
        ensures
            read_gate(self@, ApiOperation::GetEntry) matches Some(code) ==> fails_with(r, code),
            read_gate(self@, ApiOperation::GetEntry) is None && !has_id(
                self@.state->entries,
                entry_id@,
            ) ==> fails_with(r, ErrorCode::NotFound),
            read_gate(self@, ApiOperation::GetEntry) is None && has_id(
                self@.state->entries,
                entry_id@,
            ) ==> (r matches Ok(v) && exists|i: int|
                first_with_id(self@.state->entries, entry_id@, i) && is_entry_view_of(
                    v,
                    self@.state->entries[i],
                )),
    {
        self.client.authorize(ApiOperation::GetEntry)?;
        let unlocked = self.unlocked()?;
        match find_index(&unlocked.entries, entry_id) {
            Some(i) => Ok(entry_view(&unlocked.entries[i])),
            None => Err(ApiError::stable(ErrorCode::NotFound)),
        }
    }

    /// Views of the entries matching `query`, in search order (see
    /// [`core_entry::search_entries`]).
    pub fn search_entries(&self, query: &str) -> (r: Result<Vec<EntryView>, ApiError>)
        ensures
            read_gate(self@, ApiOperation::SearchEntries) matches Some(code) ==> fails_with(r, code),
            read_gate(self@, ApiOperation::SearchEntries) is None ==> (r matches Ok(views) && {
                let found = search_result(self@.state->entries, query@);
                &&& views@.len() == found.len()
                &&& forall|i: int| 0 <= i < views@.len() ==> is_entry_view_of(#[trigger] views@[i], found[i])
            }),
    {
        self.client.authorize(ApiOperation::SearchEntries)?;
        let unlocked = self.unlocked()?;
        let found = core_entry::search_entries(unlocked.entries.as_slice(), query);
        let ghost found_view = core_entry::refs_view(found@);
        let mut views: Vec<EntryView> = Vec::new();
        let mut i: usize = 0;
        while i < found.len()
            invariant
                i <= found.len(),
                found_view == core_entry::refs_view(found@),
                views@.len() == i,
                forall|k: int| 0 <= k < i ==> is_entry_view_of(#[trigger] views@[k], found_view[k]),
            decreases found.len() - i,
        {
            views.push(entry_view(found[i]));
            i = i + 1;
        }
        Ok(views)
    }

    fn find_entry(&self, entry_id: &str) -> (r: Result<&VaultEntry, ApiError>)
        requires
            self@.state is Unlocked,
        ensures
            !has_id(self@.state->entries, entry_id@) ==> fails_with(r, ErrorCode::NotFound),
            has_id(self@.state->entries, entry_id@) ==> (r matches Ok(entry) && exists|i: int|
                first_with_id(self@.state->entries, entry_id@, i) && entry@ == self@.state->entries[i]),
    {
        let unlocked = self.unlocked()?;
        match find_index(&unlocked.entries, entry_id) {
            Some(i) => Ok(&unlocked.entries[i]),
            None => Err(ApiError::stable(ErrorCode::NotFound)),
        }
    }

    /// The current password of the first entry with id `entry_id`.
    pub fn reveal_secret(&self, entry_id: &str) -> (r: Result<RevealedSecret, ApiError>)
        ensures
            read_gate(self@, ApiOperation::RevealSecret) matches Some(code) ==> fails_with(r, code),
            read_gate(self@, ApiOperation::RevealSecret) is None && !has_id(
                self@.state->entries,
                entry_id@,
            ) ==> fails_with(r, ErrorCode::NotFound),
            read_gate(self@, ApiOperation::RevealSecret) is None && has_id(
                self@.state->entries,
                entry_id@,
            ) ==> (r matches Ok(v) && exists|i: int|
                first_with_id(self@.state->entries, entry_id@, i) && v.secret@
                    == self@.state->entries[i].password),
    {
        self.client.authorize(ApiOperation::RevealSecret)?;
        self.unlocked()?;
        let entry = self.find_entry(entry_id)?;
        Ok(RevealedSecret::new(copy_string(&entry.password)))
    }

    /// The current password of the first entry with id `entry_id`, for the clipboard.
    pub fn copy_secret(&self, entry_id: &str) -> (r: Result<SecretForCopy, ApiError>)
        ensures
            read_gate(self@, ApiOperation::CopySecret) matches Some(code) ==> fails_with(r, code),
            read_gate(self@, ApiOperation::CopySecret) is None && !has_id(
                self@.state->entries,
                entry_id@,
            ) ==> fails_with(r, ErrorCode::NotFound),
            read_gate(self@, ApiOperation::CopySecret) is None && has_id(
                self@.state->entries,
                entry_id@,
            ) ==> (r matches Ok(v) && exists|i: int|
                first_with_id(self@.state->entries, entry_id@, i) && v.secret_view()
                    == self@.state->entries[i].password),
    {
        self.client.authorize(ApiOperation::CopySecret)?;
        self.unlocked()?;
        let entry = self.find_entry(entry_id)?;
        Ok(SecretForCopy::new(SecretString::new(copy_string(&entry.password))))
    }

    /// Metadata-only views of the newest revisions (at most the default limit) of the first
    /// entry with id `entry_id`, each flagged when its password differs from the next newer
    /// one.
    pub fn entry_history(&self, entry_id: &str) -> (r: Result<Vec<RevisionView>, ApiError>)
        ensures
            read_gate(self@, ApiOperation::ReadHistory) matches Some(code) ==> fails_with(r, code),
            read_gate(self@, ApiOperation::ReadHistory) is None && !has_id(
                self@.state->entries,
                entry_id@,
            ) ==> fails_with(r, ErrorCode::NotFound),
            read_gate(self@, ApiOperation::ReadHistory) is None && has_id(
                self@.state->entries,
                entry_id@,
            ) ==> (r matches Ok(views) && exists|i: int|
                first_with_id(self@.state->entries, entry_id@, i) && {
                    let e = self@.state->entries[i];
                    &&& views@.len() == shown_history_len(e)
                    &&& forall|k: int|
                        0 <= k < views@.len() ==> is_revision_view_of(
                            #[trigger] views@[k],
                            e.revisions[k],
                            password_changed_at(e, k),
                        )
                }),
    {
        self.client.authorize(ApiOperation::ReadHistory)?;
        self.unlocked()?;
        let entry = self.find_entry(entry_id)?;
        let ghost e = entry@;
        let shown = if entry.revisions.len() < DEFAULT_ENTRY_REVISION_LIMIT {
            entry.revisions.len()
        } else {
            DEFAULT_ENTRY_REVISION_LIMIT
        };
        let mut views: Vec<RevisionView> = Vec::new();
        let mut index: usize = 0;
        while index < shown
            invariant
                index <= shown,
                shown == shown_history_len(e),
                shown <= entry.revisions@.len(),
                e == entry@,
                views@.len() == index,
                forall|k: int| 0 <= k < index ==> is_revision_view_of(
                    #[trigger] views@[k],
                    e.revisions[k],
                    password_changed_at(e, k),
                ),
            decreases shown - index,
        {
            let revision = &entry.revisions[index];
            let changed = if index == 0 {
                revision.password != entry.password
            } else {
                revision.password != entry.revisions[index - 1].password
            };
            assert(e.revisions[index as int] == revision@);
            views.push(revision_view(revision, changed));
            index = index + 1;
        }
        Ok(views)
    }

    fn find_revision(&self, entry_id: &str, revision_index: usize) -> (r: Result<&EntryRevision, ApiError>)
        requires
            self@.state is Unlocked,
        ensures
            !has_id(self@.state->entries, entry_id@) ==> fails_with(r, ErrorCode::NotFound),
            has_id(self@.state->entries, entry_id@) ==> exists|i: int|
                first_with_id(self@.state->entries, entry_id@, i) && (if revision_index
                    < self@.state->entries[i].revisions.len() {
                    r matches Ok(rev) && rev@ == self@.state->entries[i].revisions[revision_index as int]
                } else {
                    fails_with(r, ErrorCode::NotFound)
                }),
    {
        let entry = self.find_entry(entry_id)?;
        if revision_index < entry.revisions.len() {
            Ok(&entry.revisions[revision_index])
        } else {
            Err(ApiError::stable(ErrorCode::NotFound))
        }
    }

    /// The password of revision `revision_index` (0 is the newest) of the first entry with id
    /// `entry_id`.
    pub fn reveal_revision_secret(&self, entry_id: &str, revision_index: usize) -> (r: Result<RevealedSecret, ApiError>)
        ensures
            read_gate(self@, ApiOperation::RevealRevisionSecret) matches Some(code) ==> fails_with(r, code),
            read_gate(self@, ApiOperation::RevealRevisionSecret) is None && !has_id(
                self@.state->entries,
                entry_id@,
            ) ==> fails_with(r, ErrorCode::NotFound),
            read_gate(self@, ApiOperation::RevealRevisionSecret) is None && has_id(
                self@.state->entries,
                entry_id@,
            ) ==> exists|i: int|
                first_with_id(self@.state->entries, entry_id@, i) && (if revision_index
                    < self@.state->entries[i].revisions.len() {
                    r matches Ok(v) && v.secret@
                        == self@.state->entries[i].revisions[revision_index as int].password
                } else {
                    fails_with(r, ErrorCode::NotFound)
                }),
    {
        self.client.authorize(ApiOperation::RevealRevisionSecret)?;
        self.unlocked()?;
        let revision = self.find_revision(entry_id, revision_index)?;
        Ok(RevealedSecret::new(copy_string(&revision.password)))
    }

    /// The password of revision `revision_index` of the first entry with id `entry_id`, for
    /// the clipboard.
    pub fn copy_revision_secret(&self, entry_id: &str, revision_index: usize) -> (r: Result<SecretForCopy, ApiError>)
        ensures
            read_gate(self@, ApiOperation::CopySecret) matches Some(code) ==> fails_with(r, code),
            read_gate(self@, ApiOperation::CopySecret) is None && !has_id(
                self@.state->entries,
                entry_id@,
            ) ==> fails_with(r, ErrorCode::NotFound),
            read_gate(self@, ApiOperation::CopySecret) is None && has_id(
                self@.state->entries,
                entry_id@,
            ) ==> exists|i: int|
                first_with_id(self@.state->entries, entry_id@, i) && (if revision_index
                    < self@.state->entries[i].revisions.len() {
                    r matches Ok(v) && v.secret_view()
                        == self@.state->entries[i].revisions[revision_index as int].password
                } else {
                    fails_with(r, ErrorCode::NotFound)
                }),
    {
        self.client.authorize(ApiOperation::CopySecret)?;
        self.unlocked()?;
        let revision = self.find_revision(entry_id, revision_index)?;
        Ok(SecretForCopy::new(SecretString::new(copy_string(&revision.password))))
    }

    /// Creates a new empty vault on a writable document of the session's platform: the
    /// session becomes unlocked, dirty and waiting for the native write of the returned
    /// bytes. A blank name or a session that is not empty is `invalid_input`; a failure to
    /// encrypt is `save_failed`.
    pub fn create(&mut self, request: CreateMobileVaultRequest) -> (r: Result<PreparedMobileVaultWrite, ApiError>)
        ensures
            final(self)@.kind == old(self)@.kind,
            !write_allowed(old(self)@.kind, ApiOperation::CreateVault, request.document@) ==> fails_with(
                r,
                write_denial(old(self)@.kind, ApiOperation::CreateVault, request.document@),
            ) && final(self)@ == old(self)@,
            write_allowed(old(self)@.kind, ApiOperation::CreateVault, request.document@) && !(old(
                self,
            )@.state is Empty) ==> fails_with(r, ErrorCode::InvalidInput) && final(self)@ == old(self)@,
            write_allowed(old(self)@.kind, ApiOperation::CreateVault, request.document@) && old(
                self,
            )@.state is Empty && trimmed_of(request.name@).len() == 0 ==> fails_with(
                r,
                ErrorCode::InvalidInput,
            ) && final(self)@ == old(self)@,
            write_allowed(old(self)@.kind, ApiOperation::CreateVault, request.document@) && old(
                self,
            )@.state is Empty && trimmed_of(request.name@).len() > 0 && r is Err ==> fails_with(
                r,
                ErrorCode::SaveFailed,
            ) && final(self)@ == old(self)@,
            r matches Ok(w) ==> {
                let meta = final(self)@.state->meta;
                &&& w.document_handle@ == request.document.handle@
                &&& w.expected_revision@ == request.document.revision@
                &&& final(self)@.state == SessionState::Unlocked {
                    document: request.document@,
                    password: request.password@,
                    meta,
                    entries: Seq::empty(),
                    dirty: true,
                    write_pending: true,
                }
                &&& meta.name == request.name@
                &&& meta.created_at == meta.modified_at
                &&& is_saved_vault(w.encrypted_vault@, request.password@, meta, Seq::empty())
            },
    {
        self.client.authorize_write(ApiOperation::CreateVault, &request.document)?;
        self.ensure_empty()?;
        if trim(request.name.as_str()).is_empty() {
            return Err(ApiError::stable(ErrorCode::InvalidInput));
        }
        let (meta, encrypted_vault) = match core_vault::create_vault_bytes(
            request.password.expose_secret(),
            request.name.as_str(),
        ) {
            Ok(created) => created,
            Err(_) => return Err(ApiError::stable(ErrorCode::SaveFailed)),
        };
        let prepared_write = PreparedMobileVaultWrite {
            document_handle: request.document.handle.duplicate(),
            expected_revision: request.document.revision.duplicate(),
            encrypted_vault: EncryptedVaultBytes::new(encrypted_vault),
        };
        let entries: Vec<VaultEntry> = Vec::new();
        let unlocked = UnlockedMobileVault {
            document: request.document,
            master_password: ZeroizingText::new(request.password.into_inner()),
            meta,
            entries,
            dirty: true,
            write_pending: true,
        };
        proof {
            assert(entries_view(unlocked.entries@) =~= Seq::<EntryModel>::empty());
        }
        self.state = MobileVaultSessionState::Unlocked(unlocked);
        Ok(prepared_write)
    }

    /// Decrypts the staged bytes with the request's password. A wrong password is
    /// `invalid_password` and keeps the bytes staged for another try; any other failure to
    /// open is `corrupted_vault` and empties the session.
    pub fn unlock(&mut self, request: UnlockMobileVaultRequest) -> (r: Result<MobileVaultSummary, ApiError>)
        ensures
            final(self)@.kind == old(self)@.kind,
            !permits(old(self)@.kind, ApiOperation::UnlockVault) ==> fails_with(
                r,
                ErrorCode::CapabilityDenied,
            ) && final(self)@ == old(self)@,
            permits(old(self)@.kind, ApiOperation::UnlockVault) && !(old(self)@.state is Locked)
                ==> fails_with(r, ErrorCode::VaultLocked) && final(self)@ == old(self)@,
            permits(old(self)@.kind, ApiOperation::UnlockVault) && old(self)@.state is Locked && r is Err
                ==> (fails_with(r, ErrorCode::InvalidPassword) && final(self)@ == old(self)@) || (
                fails_with(r, ErrorCode::CorruptedVault) && final(self)@.state is Empty),
            permits(old(self)@.kind, ApiOperation::UnlockVault) && old(self)@.state is Locked
                && !kdb1_signature(old(self)@.state->staged_bytes) ==> (r is Ok
                <==> (kdbx_opened(old(self)@.state->staged_bytes, request.password@) matches Some((es, h))
                && histories_readable(es))),
            permits(old(self)@.kind, ApiOperation::UnlockVault) && old(self)@.state is Locked
                && !kdbx_identified(old(self)@.state->staged_bytes) ==> fails_with(r, ErrorCode::CorruptedVault)
                && final(self)@.state is Empty,
            permits(old(self)@.kind, ApiOperation::UnlockVault) && old(self)@.state is Locked
                && kdbx4_signature(old(self)@.state->staged_bytes) && opens_under_some_password(
                old(self)@.state->staged_bytes,
            ) && kdbx_opened(old(self)@.state->staged_bytes, request.password@) is None ==> fails_with(
                r,
                ErrorCode::InvalidPassword,
            ) && final(self)@ == old(self)@,
            r matches Ok(summary) ==> {
                let s = final(self)@.state;
                &&& !kdb1_signature(old(self)@.state->staged_bytes) ==> (kdbx_opened(
                    old(self)@.state->staged_bytes,
                    request.password@,
                ) matches Some((es, h)) && reads_meta(h, s->meta) && entries_read_from(es, s->entries))
                &&& s is Unlocked
                &&& s->document == old(self)@.state->staged_document
                &&& s->password == request.password@
                &&& !s->dirty
                &&& !s->write_pending
                &&& is_summary_of(summary, s->meta, s->entries.len())
            },
    {
        self.client.authorize(ApiOperation::UnlockVault)?;
        let opened = match &self.state {
            MobileVaultSessionState::Locked(locked) => core_vault::open_vault_bytes(
                locked.encrypted_vault.as_bytes(),
                request.password.expose_secret(),
            ),
            _ => return Err(ApiError::stable(ErrorCode::VaultLocked)),
        };
        let (meta, entries) = match opened {
            Ok(opened) => opened,
            Err(VaultError::InvalidPassword) => {
                return Err(ApiError::stable(ErrorCode::InvalidPassword));
            },
            Err(_) => {
                self.clear();
                return Err(ApiError::stable(ErrorCode::CorruptedVault));
            },
        };
        let taken = self.take_state();
        match taken {
            MobileVaultSessionState::Locked(locked) => {
                let summary = mobile_summary(&meta, entries.len());
                self.state = MobileVaultSessionState::Unlocked(
                    UnlockedMobileVault {
                        document: locked.document,
                        master_password: ZeroizingText::new(request.password.into_inner()),
                        meta,
                        entries,
                        dirty: false,
                        write_pending: false,
                    },
                );
                Ok(summary)
            },
            other => {
                self.state = other;
                Err(ApiError::stable(ErrorCode::VaultLocked))
            },
        }
    }

    /// Encrypts the unlocked vault for a native write, after checking that the document
    /// still has the revision the session knows. A changed revision is
    /// `external_file_changed` and empties the session; a failure to encrypt is
    /// `save_failed` and leaves the vault dirty. Either way the modification time is renewed.
    pub fn prepare_save(&mut self, request: PrepareMobileVaultSaveRequest) -> (r: Result<PreparedMobileVaultWrite, ApiError>)
        ensures
            final(self)@.kind == old(self)@.kind,
            write_gate(old(self)@, ApiOperation::SaveVault, true) matches Some(code) ==> fails_with(
                r,
                code,
            ) && final(self)@ == old(self)@,
            write_gate(old(self)@, ApiOperation::SaveVault, true) is None && old(
                self,
            )@.state->document.revision != request.observed_revision@ ==> fails_with(
                r,
                ErrorCode::ExternalFileChanged,
            ) && final(self)@.state is Empty,
            write_gate(old(self)@, ApiOperation::SaveVault, true) is None && old(
                self,
            )@.state->document.revision == request.observed_revision@ ==> {
                let before = old(self)@.state;
                let after = final(self)@.state;
                &&& after == SessionState::Unlocked {
                    document: before->document,
                    password: before->password,
                    meta: after->meta,
                    entries: before->entries,
                    dirty: true,
                    write_pending: r is Ok,
                }
                &&& after->meta.name == before->meta.name
                &&& after->meta.created_at == before->meta.created_at
                &&& r is Err ==> fails_with(r, ErrorCode::SaveFailed)
                &&& !vault_storable(after->meta, before->entries) ==> r is Err
                &&& r is Ok ==> vault_storable(after->meta, before->entries)
                &&& r matches Ok(w) ==> w.document_handle@ == before->document.handle
                    && w.expected_revision@ == before->document.revision
                    && is_saved_vault(w.encrypted_vault@, before->password, after->meta, before->entries)
                &&& exists|t: chrono::NaiveDateTime| after->meta.modified_at == rfc3339_of(t)
            },
    {
        self.authorize_existing_write(ApiOperation::SaveVault)?;
        self.ensure_no_pending_write()?;
        let taken = self.take_state();
        let mut unlocked = match taken {
            MobileVaultSessionState::Unlocked(unlocked) => unlocked,
            other => {
                self.state = other;
                return Err(ApiError::stable(ErrorCode::VaultLocked));
            },
        };
        if !unlocked.document.revision.same_as(&request.observed_revision) {
            return Err(ApiError::stable(ErrorCode::ExternalFileChanged));
        }
        unlocked.meta.mark_modified_now();
        unlocked.dirty = true;
        let saved = core_vault::save_vault_bytes(
            unlocked.master_password.as_str(),
            &unlocked.meta,
            unlocked.entries.as_slice(),
        );
        match saved {
            Ok(encrypted_vault) => {
                let prepared_write = PreparedMobileVaultWrite {
                    document_handle: unlocked.document.handle.duplicate(),
                    expected_revision: unlocked.document.revision.duplicate(),
                    encrypted_vault: EncryptedVaultBytes::new(encrypted_vault),
                };
                unlocked.write_pending = true;
                self.state = MobileVaultSessionState::Unlocked(unlocked);
                Ok(prepared_write)
            },
            Err(_) => {
                self.state = MobileVaultSessionState::Unlocked(unlocked);
                Err(ApiError::stable(ErrorCode::SaveFailed))
            },
        }
    }

    /// Records that native code wrote the prepared bytes: the document takes its new
    /// revision and the vault is clean. Without a pending write it is `invalid_input`.
    pub fn commit_write(&mut self, request: CommitMobileVaultWriteRequest) -> (r: Result<MobileSessionStatus, ApiError>)
        ensures
            final(self)@.kind == old(self)@.kind,
            write_gate(old(self)@, ApiOperation::SaveVault, false) matches Some(code) ==> fails_with(
                r,
                code,
            ) && final(self)@ == old(self)@,
            write_gate(old(self)@, ApiOperation::SaveVault, false) is None && !old(
                self,
            )@.state->write_pending ==> fails_with(r, ErrorCode::InvalidInput) && final(self)@ == old(
                self,
            )@,
            write_gate(old(self)@, ApiOperation::SaveVault, false) is None && old(
                self,
            )@.state->write_pending ==> final(self)@.state == committed(
                old(self)@.state,
                request.committed_revision@,
            ) && (r matches Ok(st) && status_matches(st, final(self)@.state)),
    {
        self.authorize_existing_write(ApiOperation::SaveVault)?;
        let pending = match &self.state {
            MobileVaultSessionState::Unlocked(unlocked) => unlocked.write_pending,
            _ => false,
        };
        if !pending {
            return Err(ApiError::stable(ErrorCode::InvalidInput));
        }
        let taken = self.take_state();
        match taken {
            MobileVaultSessionState::Unlocked(mut unlocked) => {
                unlocked.document.revision = request.committed_revision;
                unlocked.write_pending = false;
                unlocked.dirty = false;
                self.state = MobileVaultSessionState::Unlocked(unlocked);
            },
            other => {
                self.state = other;
            },
        }
        Ok(self.status_unchecked())
    }

    /// Records that the native write failed: the vault stays unlocked and dirty for another
    /// save, and the answer is `save_failed`. Without a pending write it is `invalid_input`.
    pub fn report_save_failure(&mut self) -> (r: Result<(), ApiError>)
        ensures
            final(self)@.kind == old(self)@.kind,
            write_gate(old(self)@, ApiOperation::SaveVault, false) matches Some(code) ==> fails_with(
                r,
                code,
            ) && final(self)@ == old(self)@,
            write_gate(old(self)@, ApiOperation::SaveVault, false) is None && !old(
                self,
            )@.state->write_pending ==> fails_with(r, ErrorCode::InvalidInput) && final(self)@ == old(
                self,
            )@,
            write_gate(old(self)@, ApiOperation::SaveVault, false) is None && old(
                self,
            )@.state->write_pending ==> fails_with(r, ErrorCode::SaveFailed) && final(self)@.state
                == with_flags(old(self)@.state, true, false),
    {
        self.authorize_existing_write(ApiOperation::SaveVault)?;
        let pending = match &self.state {
            MobileVaultSessionState::Unlocked(unlocked) => unlocked.write_pending,
            _ => false,
        };
        if !pending {
            return Err(ApiError::stable(ErrorCode::InvalidInput));
        }
        let taken = self.take_state();
        match taken {
            MobileVaultSessionState::Unlocked(mut unlocked) => {
                unlocked.write_pending = false;
                unlocked.dirty = true;
                self.state = MobileVaultSessionState::Unlocked(unlocked);
            },
            other => {
                self.state = other;
            },
        }
        Err(ApiError::stable(ErrorCode::SaveFailed))
    }

    /// Native code lost its permission on the document: the session is emptied and the
    /// answer is `document_permission_lost`.
    pub fn report_document_permission_lost(&mut self) -> (r: Result<(), ApiError>)
        ensures
            final(self)@.kind == old(self)@.kind,
            !permits(old(self)@.kind, ApiOperation::LockVault) ==> fails_with(
                r,
                ErrorCode::CapabilityDenied,
            ) && final(self)@ == old(self)@,
            permits(old(self)@.kind, ApiOperation::LockVault) ==> fails_with(
                r,
                ErrorCode::DocumentPermissionLost,
            ) && final(self)@.state is Empty,
    {
        self.client.authorize(ApiOperation::LockVault)?;
        self.clear();
        Err(ApiError::stable(ErrorCode::DocumentPermissionLost))
    }

    /// Native code no longer finds the document: the session is emptied and the answer is
    /// `file_not_found`.
    pub fn report_document_not_found(&mut self) -> (r: Result<(), ApiError>)
        ensures
            final(self)@.kind == old(self)@.kind,
            !permits(old(self)@.kind, ApiOperation::LockVault) ==> fails_with(
                r,
                ErrorCode::CapabilityDenied,
            ) && final(self)@ == old(self)@,
            permits(old(self)@.kind, ApiOperation::LockVault) ==> fails_with(
                r,
                ErrorCode::FileNotFound,
            ) && final(self)@.state is Empty,
    {
        self.client.authorize(ApiOperation::LockVault)?;
        self.clear();
        Err(ApiError::stable(ErrorCode::FileNotFound))
    }

    /// Moves the state out, leaving the session empty.
    fn take_state(&mut self) -> (s: MobileVaultSessionState)
        ensures
            s == old(self).state,
            final(self).client == old(self).client,
            final(self).state == MobileVaultSessionState::Empty,
    {
        let mut taken = MobileVaultSessionState::Empty;
        std::mem::swap(&mut taken, &mut self.state);
        taken
    }

    /// Adds an entry made from the request to the unlocked vault and marks it dirty. An empty
    /// password is `invalid_input`; so is a write still pending.
    pub fn create_entry(&mut self, request: CreateEntryRequest) -> (r: Result<EntryView, ApiError>)
        ensures
            final(self)@.kind == old(self)@.kind,
            write_gate(old(self)@, ApiOperation::CreateEntry, true) matches Some(code) ==> fails_with(
                r,
                code,
            ) && final(self)@ == old(self)@,
            write_gate(old(self)@, ApiOperation::CreateEntry, true) is None && request.password@.len()
                == 0 ==> fails_with(r, ErrorCode::InvalidInput) && final(self)@ == old(self)@,
            write_gate(old(self)@, ApiOperation::CreateEntry, true) is None && request.password@.len()
                > 0 ==> ({
                let old_entries = old(self)@.state->entries;
                let entries = final(self)@.state->entries;
                &&& entries.len() == old_entries.len() + 1
                &&& entries.drop_last() == old_entries
                &&& created_from(entries.last(), request)
                &&& final(self)@.state == with_entries(old(self)@.state, entries)
                &&& r matches Ok(v) && is_entry_view_of(v, entries.last())
            }),
    {
        self.authorize_existing_write(ApiOperation::CreateEntry)?;
        self.ensure_no_pending_write()?;
        if request.password.expose_secret().is_empty() {
            return Err(ApiError::stable(ErrorCode::InvalidInput));
        }
        let core = core_entry::create_entry(
            request.title.as_str(),
            request.username.as_str(),
            request.password.expose_secret(),
        );
        let entry = VaultEntry {
            id: core.id,
            title: core.title,
            username: core.username,
            password: core.password,
            collection: request.collection,
            url: request.url,
            notes: request.notes,
            tags: request.tags,
            created_at: core.created_at,
            updated_at: core.updated_at,
            revisions: core.revisions,
        };
        let view = entry_view(&entry);
        let ghost e = entry@;
        let taken = self.take_state();
        match taken {
            MobileVaultSessionState::Unlocked(mut unlocked) => {
                let ghost before = unlocked.entries@;
                unlocked.entries.push(entry);
                unlocked.dirty = true;
                proof {
                    assert(entries_view(unlocked.entries@) =~= entries_view(before).push(e));
                    assert(entries_view(unlocked.entries@).drop_last() =~= entries_view(before));
                }
                self.state = MobileVaultSessionState::Unlocked(unlocked);
            },
            other => {
                self.state = other;
            },
        }
        Ok(view)
    }

    /// Applies a mutation to the first entry with id `entry_id`, keeping history within the
    /// default revision limit, and marks the vault dirty. A mutation that sets an empty
    /// password is `invalid_input`; an unknown id is `not_found`.
    pub fn update_entry(&mut self, entry_id: &str, mutation: EntryMutation) -> (r: Result<EntryView, ApiError>)
        ensures
            final(self)@.kind == old(self)@.kind,
            write_gate(old(self)@, ApiOperation::UpdateEntry, true) matches Some(code) ==> fails_with(
                r,
                code,
            ) && final(self)@ == old(self)@,
            write_gate(old(self)@, ApiOperation::UpdateEntry, true) is None && clears_password(
                mutation,
            ) ==> fails_with(r, ErrorCode::InvalidInput) && final(self)@ == old(self)@,
            write_gate(old(self)@, ApiOperation::UpdateEntry, true) is None && !clears_password(
                mutation,
            ) && !has_id(old(self)@.state->entries, entry_id@) ==> fails_with(r, ErrorCode::NotFound)
                && final(self)@ == old(self)@,
            write_gate(old(self)@, ApiOperation::UpdateEntry, true) is None && !clears_password(
                mutation,
            ) && has_id(old(self)@.state->entries, entry_id@) ==> exists|i: int|
                first_with_id(old(self)@.state->entries, entry_id@, i) && {
                    let old_entries = old(self)@.state->entries;
                    let entries = final(self)@.state->entries;
                    &&& entries == old_entries.update(
                        i,
                        updated_entry(
                            old_entries[i],
                            patch_of(mutation),
                            DEFAULT_ENTRY_REVISION_LIMIT as nat,
                            entries[i].updated_at,
                        ),
                    )
                    &&& final(self)@.state == with_entries(old(self)@.state, entries)
                    &&& r matches Ok(v) && is_entry_view_of(v, entries[i])
                },
    {
        self.authorize_existing_write(ApiOperation::UpdateEntry)?;
        self.ensure_no_pending_write()?;
        let empty_password = match &mutation.password {
            Some(password) => password.expose_secret().is_empty(),
            None => false,
        };
        if empty_password {
            return Err(ApiError::stable(ErrorCode::InvalidInput));
        }
        let index = match &self.state {
            MobileVaultSessionState::Unlocked(unlocked) => find_index(&unlocked.entries, entry_id),
            _ => None,
        };
        let i = match index {
            Some(i) => i,
            None => return Err(ApiError::stable(ErrorCode::NotFound)),
        };
        let patch = entry_patch(mutation);
        let taken = self.take_state();
        match taken {
            MobileVaultSessionState::Unlocked(mut unlocked) => {
                let ghost before = unlocked.entries@;
                core_entry::update_entry_with_revision_limit(
                    &mut unlocked.entries[i],
                    patch,
                    DEFAULT_ENTRY_REVISION_LIMIT,
                );
                unlocked.dirty = true;
                let view = entry_view(&unlocked.entries[i]);
                proof {
                    assert(entries_view(unlocked.entries@) =~= entries_view(before).update(
                        i as int,
                        unlocked.entries@[i as int]@,
                    ));
                }
                self.state = MobileVaultSessionState::Unlocked(unlocked);
                Ok(view)
            },
            other => {
                self.state = other;
                Err(ApiError::stable(ErrorCode::VaultLocked))
            },
        }
    }

    /// Removes the first entry with id `entry_id` and marks the vault dirty; an unknown id is
    /// `not_found`.
    pub fn delete_entry(&mut self, entry_id: &str) -> (r: Result<(), ApiError>)
        ensures
            final(self)@.kind == old(self)@.kind,
            write_gate(old(self)@, ApiOperation::DeleteEntry, true) matches Some(code) ==> fails_with(
                r,
                code,
            ) && final(self)@ == old(self)@,
            write_gate(old(self)@, ApiOperation::DeleteEntry, true) is None && !has_id(
                old(self)@.state->entries,
                entry_id@,
            ) ==> fails_with(r, ErrorCode::NotFound) && final(self)@ == old(self)@,
            write_gate(old(self)@, ApiOperation::DeleteEntry, true) is None && has_id(
                old(self)@.state->entries,
                entry_id@,
            ) ==> r is Ok && exists|i: int|
                first_with_id(old(self)@.state->entries, entry_id@, i) && final(self)@.state
                    == with_entries(old(self)@.state, old(self)@.state->entries.remove(i)),
    {
        self.authorize_existing_write(ApiOperation::DeleteEntry)?;
        self.ensure_no_pending_write()?;
        let index = match &self.state {
            MobileVaultSessionState::Unlocked(unlocked) => find_index(&unlocked.entries, entry_id),
            _ => None,
        };
        let i = match index {
            Some(i) => i,
            None => return Err(ApiError::stable(ErrorCode::NotFound)),
        };
        let taken = self.take_state();
        match taken {
            MobileVaultSessionState::Unlocked(mut unlocked) => {
                let ghost before = unlocked.entries@;
                unlocked.entries.remove(i);
                unlocked.dirty = true;
                proof {
                    assert(entries_view(unlocked.entries@) =~= entries_view(before).remove(i as int));
                }
                self.state = MobileVaultSessionState::Unlocked(unlocked);
                Ok(())
            },
            other => {
                self.state = other;
                Err(ApiError::stable(ErrorCode::VaultLocked))
            },
        }
    }

    /// Generates a password from the parameters (absent ones take the defaults); parameters
    /// that enable no character class are `invalid_input`. Works in any session state.
    pub fn generate_secret(&self, params: GeneratorParams) -> (r: Result<GeneratedPassword, ApiError>)
        ensures
            !permits(self@.kind, ApiOperation::GenerateSecret) ==> fails_with(r, ErrorCode::CapabilityDenied),
            permits(self@.kind, ApiOperation::GenerateSecret) ==> (r is Ok <==> enabled_sets(
                config_of(params),
            ).len() > 0),
            r is Err && permits(self@.kind, ApiOperation::GenerateSecret) ==> fails_with(
                r,
                ErrorCode::InvalidInput,
            ),
            r matches Ok(g) ==> g.password@.len() > 0 && is_generated_password(
                config_of(params),
                g.password@,
            ) && g.length == g.password@.len() && g.charset_size == full_charset(
                config_of(params),
            ).len(),
    {
        self.client.authorize(ApiOperation::GenerateSecret)?;
        let config = generator_config(params);
        let password = core_generator::generate_password(&config);
        let length = password.as_str().unicode_len();
        if length == 0 {
            return Err(ApiError::stable(ErrorCode::InvalidInput));
        }
        let charset_size = core_generator::charset_size(&config);
        Ok(GeneratedPassword { password, length, charset_size })
    }
}

/// Both full mobile apps pass the capability policy for every session operation.
pub proof fn full_apps_may_run_every_session_operation(kind: ClientKind, op: ApiOperation)
    requires
        kind == ClientKind::IosApp || kind == ClientKind::AndroidApp,
        mobile_session_operations().contains(op),
    ensures
        permits(kind, op),
{
    let caps = mobile_app_capabilities();
    assert(caps[0] == Capability::Unlock);
    assert(caps[1] == Capability::ReadMeta);
    assert(caps[2] == Capability::RevealSecret);
    assert(caps[3] == Capability::CopySecret);
    assert(caps[4] == Capability::MutateEntry);
    assert(caps[5] == Capability::CreateVault);
    assert(caps[8] == Capability::ReadHistory);
}

/// Neither full mobile app may export plaintext.
pub proof fn mobile_apps_cannot_export_plaintext(kind: ClientKind)
    requires
        kind == ClientKind::IosApp || kind == ClientKind::AndroidApp,
    ensures
        !permits(kind, ApiOperation::ExportPlaintext),
{
}

/// Once capability and platform pass, a read-only document refuses every writing operation
/// with `document_read_only`, before any pending-write check and before any change.
pub proof fn read_only_documents_refuse_writes(m: SessionModel, op: ApiOperation, no_pending: bool)
    requires
        m.state is Unlocked,
        permits(m.kind, op),
        document_matches(m.kind, m.state->document.kind),
        m.state->document.access == MobileDocumentAccess::ReadOnly,
    ensures
        write_gate(m, op, no_pending) == Some(ErrorCode::DocumentReadOnly),
{
}

/// A denied capability is reported before anything about the session state.
pub proof fn capability_checks_come_first(m: SessionModel, op: ApiOperation, no_pending: bool)
    requires
        !permits(m.kind, op),
    ensures
        read_gate(m, op) == Some(ErrorCode::CapabilityDenied),
        write_gate(m, op, no_pending) == Some(ErrorCode::CapabilityDenied),
{
}

/// The password-changed flag of a revision compares it with its neighbour in time: the newest
/// revision is flagged when its password differs from the current one, and every older one
/// when its password differs from that of the revision just newer than it. In particular two
/// consecutive revisions with the same password leave the older one unflagged, whatever the
/// newest revision holds.
pub proof fn history_flags_compare_neighbours(e: EntryModel, i: int)
    requires
        0 <= i < e.revisions.len(),
    ensures
        i == 0 ==> (password_changed_at(e, i) <==> e.revisions[0].password != e.password),
        i > 0 ==> (password_changed_at(e, i) <==> e.revisions[i].password != e.revisions[i - 1].password),
{
}

/// The flags follow the entry's history through an update: after an update that records the
/// previous version, the new revision is flagged exactly when the update changed the
/// password, and every older revision keeps the flag it had before, one place further down.
pub proof fn update_keeps_history_flags(e: EntryModel, p: PatchModel, limit: nat, now: Seq<char>)
    requires
        patch_changes(e, p),
        effective_limit(limit) > 0,
    ensures
        ({
            let u = updated_entry(e, p, limit, now);
            &&& password_changed_at(u, 0) <==> u.password != e.password
            &&& forall|i: int| 1 <= i < u.revisions.len() ==> (#[trigger] password_changed_at(u, i)
                <==> password_changed_at(e, i - 1))
        }),
{
    changing_update_bounds_history(e, p, limit, now);
}

} // verus!
