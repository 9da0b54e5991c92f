use std::sync::OnceLock;
use std::time::{SystemTime, UNIX_EPOCH};

use arca::api::{
    ApiError, ApiOperation, Capability, ClientKind, CreateEntryRequest, EntryMutation, ErrorCode,
    GeneratorParams, SecretString,
};
use arca::mobile_session::{
    failure_action, mobile_vault_session_operations, CommitMobileVaultWriteRequest,
    CreateMobileVaultRequest, DocumentRevision, EncryptedVaultBytes, MobileDocument,
    MobileDocumentAccess, MobileDocumentHandle, MobileDocumentKind, MobileFailureAction,
    MobileSessionClient, MobileSessionPhase, MobileVaultSession, OpenMobileVaultRequest,
    PrepareMobileVaultSaveRequest, UnlockMobileVaultRequest,
};
use arca::vault as core_vault;

fn unique_test_secret() -> String {
    let nanos = SystemTime::now()
        .duration_since(UNIX_EPOCH)
        .expect("system clock should be after unix epoch")
        .as_nanos();

    format!("test-secret-{nanos}")
}

fn revision(value: &str) -> DocumentRevision {
    DocumentRevision::new(value.to_string()).expect("revision should be valid")
}

fn document(kind: MobileDocumentKind) -> MobileDocument {
    MobileDocument {
        handle: MobileDocumentHandle::new("document-7".to_string()).expect("handle should be valid"),
        kind,
        access: MobileDocumentAccess::ReadWrite,
        revision: revision("revision-3"),
    }
}

fn encrypted_fixture() -> (String, EncryptedVaultBytes) {
    static FIXTURE: OnceLock<(String, Vec<u8>)> = OnceLock::new();
    let (password, bytes) = FIXTURE.get_or_init(|| {
        let password = unique_test_secret();
        let (_, bytes) = core_vault::create_vault_bytes(&password, "Synthetic vault")
            .expect("fixture vault should be created");
        (password, bytes)
    });

    (password.clone(), EncryptedVaultBytes::new(bytes.clone()))
}

fn open_request(encrypted_vault: EncryptedVaultBytes) -> OpenMobileVaultRequest {
    OpenMobileVaultRequest {
        document: document(MobileDocumentKind::AndroidAppScoped),
        encrypted_vault,
    }
}

fn unlocked_session(password: String, encrypted_vault: EncryptedVaultBytes) -> MobileVaultSession {
    let mut session =
        MobileVaultSession::new(ClientKind::AndroidApp).expect("session should be created");
    session
        .open(open_request(encrypted_vault))
        .expect("vault should stage");
    session
        .unlock(UnlockMobileVaultRequest {
            password: SecretString::new(password),
        })
        .expect("vault should unlock");
    session
}

fn entry_request() -> CreateEntryRequest {
    CreateEntryRequest {
        title: "GitHub".to_string(),
        username: "arca".to_string(),
        password: SecretString::new(unique_test_secret()),
        collection: None,
        url: None,
        notes: None,
        tags: Vec::new(),
    }
}

fn phase(session: &MobileVaultSession) -> MobileSessionPhase {
    session.status().expect("status should be available").phase
}

#[test]
fn every_session_operation_is_authorized_for_each_full_mobile_app() {
    for client_kind in [ClientKind::IosApp, ClientKind::AndroidApp] {
        let client = MobileSessionClient::new(client_kind).expect("full app should be valid");

        for operation in mobile_vault_session_operations() {
            client
                .authorize(operation)
                .expect("full mobile app operation should pass capability policy");
        }
    }
}

#[test]
fn non_app_clients_cannot_own_a_full_mobile_session() {
    for client_kind in [
        ClientKind::DesktopApp,
        ClientKind::BrowserExtension,
        ClientKind::IosAutofillExtension,
        ClientKind::AndroidAutofillService,
        ClientKind::FutureSyncServer,
    ] {
        let error = MobileSessionClient::new(client_kind)
            .expect_err("non-app clients must fail closed");

        assert_eq!(error.code, ErrorCode::CapabilityDenied);
        assert_eq!(
            MobileVaultSession::new(client_kind)
                .err()
                .expect("non-app clients must not own a session")
                .code,
            ErrorCode::CapabilityDenied
        );
    }
}

#[test]
fn denied_mobile_operations_return_only_stable_error_text() {
    let client = MobileSessionClient::new(ClientKind::IosApp).expect("iOS should be valid");
    let error = client
        .authorize(ApiOperation::ExportPlaintext)
        .expect_err("mobile plaintext export must remain denied");

    assert_eq!(error.code, ErrorCode::CapabilityDenied);
    assert_eq!(error.message, ErrorCode::CapabilityDenied.safe_message());
    assert!(!error.message.contains(ClientKind::IosApp.as_str()));
    assert!(!error.message.contains(Capability::ExportPlaintext.as_str()));
}

#[test]
fn document_handles_reject_raw_paths_urls_and_uris() {
    for locator in [
        "/private/mobile/vault.kdbx",
        "Documents/vault.kdbx",
        r"C:\vault.kdbx",
        "../vault.kdbx",
        "file:///private/mobile/vault.kdbx",
        "content://provider/document/vault",
        "https://provider.example/vault.kdbx",
    ] {
        let error = MobileDocumentHandle::new(locator.to_string())
            .err()
            .expect("raw platform locators must stay native-owned");

        assert_eq!(error.code, ErrorCode::InvalidInput);
    }

    for handle in ["document-7", "DOCUMENT_8", "9"] {
        let accepted = MobileDocumentHandle::new(handle.to_string())
            .ok()
            .expect("opaque process-local handles should be accepted");
        assert_eq!(accepted.as_str(), handle);
    }

    assert!(MobileDocumentHandle::new(String::new()).is_err());
    assert!(MobileDocumentHandle::new("a".repeat(256)).is_ok());
    assert!(MobileDocumentHandle::new("a".repeat(257)).is_err());
}

#[test]
fn document_revisions_are_bounded_and_nonempty() {
    assert!(DocumentRevision::new(String::new()).is_err());
    assert!(DocumentRevision::new("r".repeat(512)).is_ok());
    assert!(DocumentRevision::new("r".repeat(513)).is_err());
    assert_eq!(revision("rev-1").as_str(), "rev-1");
}

#[test]
fn document_handles_are_bound_to_the_session_platform() {
    let ios = MobileSessionClient::new(ClientKind::IosApp).expect("iOS should be valid");
    let android = MobileSessionClient::new(ClientKind::AndroidApp).expect("Android should be valid");
    let ios_document = document(MobileDocumentKind::IosSecurityScoped);
    let android_document = document(MobileDocumentKind::AndroidStorageAccessFramework);

    ios.authorize_document(&ios_document)
        .expect("iOS session should accept iOS document handles");
    android
        .authorize_document(&android_document)
        .expect("Android session should accept Android document handles");
    assert_eq!(
        ios.authorize_document(&android_document)
            .expect_err("iOS must reject Android document handles")
            .code,
        ErrorCode::CapabilityDenied
    );
    assert_eq!(
        android
            .authorize_document(&ios_document)
            .expect_err("Android must reject iOS document handles")
            .code,
        ErrorCode::CapabilityDenied
    );
}

#[test]
fn mutations_require_a_writable_platform_grant() {
    let client = MobileSessionClient::new(ClientKind::IosApp).expect("iOS should be valid");
    let mut read_only = document(MobileDocumentKind::IosSecurityScoped);
    read_only.access = MobileDocumentAccess::ReadOnly;

    let error = client
        .authorize_write(ApiOperation::UpdateEntry, &read_only)
        .expect_err("read-only documents must reject mutation before state changes");

    assert_eq!(error.code, ErrorCode::DocumentReadOnly);
}

#[test]
fn mobile_error_messages_and_state_actions_are_stable() {
    let cases = [
        (
            ErrorCode::InvalidPassword,
            "invalid_password",
            MobileFailureAction::StayLocked,
        ),
        (
            ErrorCode::CorruptedVault,
            "corrupted_vault",
            MobileFailureAction::LockAndDiscard,
        ),
        (
            ErrorCode::FileNotFound,
            "file_not_found",
            MobileFailureAction::LockAndDiscard,
        ),
        (
            ErrorCode::DocumentPermissionLost,
            "document_permission_lost",
            MobileFailureAction::LockAndDiscard,
        ),
        (
            ErrorCode::DocumentReadOnly,
            "document_read_only",
            MobileFailureAction::KeepState,
        ),
        (
            ErrorCode::ExternalFileChanged,
            "external_file_changed",
            MobileFailureAction::LockAndDiscard,
        ),
        (
            ErrorCode::SaveFailed,
            "save_failed",
            MobileFailureAction::KeepUnlockedDirty,
        ),
    ];

    for (code, wire_code, action) in cases {
        let error = ApiError::stable(code);

        assert_eq!(code.as_str(), wire_code);
        assert_eq!(error.message, code.safe_message());
        assert_eq!(failure_action(code), action);
    }
}

#[test]
fn stable_errors_cannot_embed_secret_or_platform_locator_details() {
    let sentinel = unique_test_secret();

    for code in [
        ErrorCode::InvalidPassword,
        ErrorCode::CorruptedVault,
        ErrorCode::DocumentPermissionLost,
        ErrorCode::ExternalFileChanged,
        ErrorCode::SaveFailed,
    ] {
        let error = ApiError::stable(code);
        let outputs = [format!("{error:?}"), error.display_text()];

        for output in outputs {
            assert!(!output.contains(&sentinel));
            assert!(!output.contains("content://"));
            assert!(!output.contains("file://"));
        }
    }
}

#[test]
fn session_create_mutate_and_two_phase_save_round_trip() {
    let mut session = MobileVaultSession::new(ClientKind::IosApp).expect("session should be created");
    let password = unique_test_secret();
    let prepared_create = session
        .create(CreateMobileVaultRequest {
            document: document(MobileDocumentKind::IosAppScoped),
            name: "Synthetic vault".to_string(),
            password: SecretString::new(password.clone()),
        })
        .expect("vault creation should prepare a write");
    assert_eq!(prepared_create.document_handle.as_str(), "document-7");
    assert_eq!(prepared_create.expected_revision.as_str(), "revision-3");

    assert_eq!(phase(&session), MobileSessionPhase::UnlockedDirty);
    assert!(
        session
            .create_entry(entry_request())
            .expect_err("a pending write should serialize mutations")
            .code
            == ErrorCode::InvalidInput
    );

    session
        .commit_write(CommitMobileVaultWriteRequest {
            committed_revision: revision("revision-created"),
        })
        .expect("create write should commit");
    let modified_before_save = session
        .summary()
        .expect("summary should be available")
        .modified_at;

    let entry_secret = unique_test_secret();
    let created = session
        .create_entry(CreateEntryRequest {
            title: "GitHub".to_string(),
            username: "arca".to_string(),
            password: SecretString::new(entry_secret.clone()),
            collection: Some("work".to_string()),
            url: Some("https://github.com".to_string()),
            notes: None,
            tags: vec!["dev".to_string()],
        })
        .expect("entry should be created in memory");

    assert_eq!(session.list_entries().expect("entries should list").len(), 1);
    assert_eq!(
        session
            .search_entries("#dev")
            .expect("entries should search")
            .len(),
        1
    );
    assert!(
        session
            .reveal_secret(&created.id)
            .expect("secret should reveal")
            .expose_secret()
            == entry_secret,
        "revealed secret should match the entry"
    );
    assert!(
        session
            .copy_secret(&created.id)
            .expect("secret should copy")
            .expose_secret()
            == entry_secret,
        "copied secret should match the entry"
    );
    assert_eq!(
        session.get_entry(&created.id).expect("entry should be readable"),
        created
    );

    let generated = session
        .generate_secret(GeneratorParams::default())
        .expect("secret should generate");
    assert!(!generated.expose_secret().is_empty());
    assert_eq!(generated.length, 24);

    let deleted = session
        .create_entry(entry_request())
        .expect("second entry should be created");
    session
        .delete_entry(&deleted.id)
        .expect("second entry should be deleted");

    let updated = session
        .update_entry(
            &created.id,
            EntryMutation {
                title: Some("GitHub Enterprise".to_string()),
                ..EntryMutation::default()
            },
        )
        .expect("entry should update in memory");
    assert_eq!(updated.title, "GitHub Enterprise");
    assert_eq!(updated.revision_count, 1);

    let replacement_secret = unique_test_secret();
    let updated = session
        .update_entry(
            &created.id,
            EntryMutation {
                password: Some(SecretString::new(replacement_secret)),
                ..EntryMutation::default()
            },
        )
        .expect("entry password should update in memory");
    assert_eq!(updated.revision_count, 2);

    let history = session
        .entry_history(&created.id)
        .expect("history metadata should be readable");
    assert_eq!(history.len(), 2);
    assert_eq!(history[0].title, "GitHub Enterprise");
    assert!(history[0].password_changed);
    assert!(!history[1].password_changed);
    assert_eq!(history[1].title, "GitHub");
    assert!(
        session
            .reveal_revision_secret(&created.id, 0)
            .expect("one historical secret should reveal")
            .expose_secret()
            == entry_secret
    );
    assert!(
        session
            .copy_revision_secret(&created.id, 0)
            .expect("one historical secret should copy")
            .expose_secret()
            == entry_secret
    );
    assert_eq!(
        session
            .reveal_revision_secret(&created.id, 99)
            .err()
            .expect("an invalid revision index should fail")
            .code,
        ErrorCode::NotFound
    );

    let start = SystemTime::now();
    while SystemTime::now()
        .duration_since(start)
        .map(|elapsed| elapsed < std::time::Duration::from_millis(2))
        .unwrap_or(true)
    {}
    let prepared_save = session
        .prepare_save(PrepareMobileVaultSaveRequest {
            observed_revision: revision("revision-created"),
        })
        .expect("dirty vault should prepare a save");
    let saved_bytes = prepared_save.encrypted_vault.duplicate();
    assert_ne!(
        session
            .summary()
            .expect("summary should reflect save preparation")
            .modified_at,
        modified_before_save
    );

    session
        .commit_write(CommitMobileVaultWriteRequest {
            committed_revision: revision("revision-saved"),
        })
        .expect("save should commit");
    assert_eq!(phase(&session), MobileSessionPhase::UnlockedClean);

    let (saved_meta, saved_entries) = core_vault::open_vault_bytes(saved_bytes.as_bytes(), &password)
        .expect("prepared bytes should be a valid KDBX vault");
    assert_eq!(saved_meta.name, "Synthetic vault");
    assert_eq!(saved_entries.len(), 1);
    assert_eq!(saved_entries[0].title, "GitHub Enterprise");

    assert_eq!(
        session.lock().expect("lock should succeed").phase,
        MobileSessionPhase::Empty
    );
    assert_eq!(
        session
            .reveal_secret(&created.id)
            .err()
            .expect("lock should discard decrypted entries")
            .code,
        ErrorCode::VaultLocked
    );
    assert_eq!(
        session
            .entry_history(&created.id)
            .expect_err("lock should discard revision metadata")
            .code,
        ErrorCode::VaultLocked
    );
    assert_eq!(
        session
            .reveal_revision_secret(&created.id, 0)
            .err()
            .expect("lock should discard historical secrets")
            .code,
        ErrorCode::VaultLocked
    );
}

#[test]
fn invalid_password_keeps_locked_bytes_for_retry_and_corruption_clears_them() {
    let (password, encrypted_vault) = encrypted_fixture();
    let mut session =
        MobileVaultSession::new(ClientKind::AndroidApp).expect("session should be created");
    session
        .open(open_request(encrypted_vault.duplicate()))
        .expect("encrypted vault should stage");

    let error = session
        .unlock(UnlockMobileVaultRequest {
            password: SecretString::new(unique_test_secret()),
        })
        .expect_err("invalid password should fail");
    assert_eq!(error.code, ErrorCode::InvalidPassword);
    assert_eq!(phase(&session), MobileSessionPhase::Locked);

    session
        .unlock(UnlockMobileVaultRequest {
            password: SecretString::new(password),
        })
        .expect("correct password should retry the staged bytes");
    session.lock().expect("current vault should be locked first");

    session
        .open(open_request(EncryptedVaultBytes::new(vec![1, 2, 3, 4])))
        .expect("corrupted bytes can be staged before decrypting");
    let error = session
        .unlock(UnlockMobileVaultRequest {
            password: SecretString::new(unique_test_secret()),
        })
        .expect_err("corrupted bytes should fail closed");
    assert_eq!(error.code, ErrorCode::CorruptedVault);
    assert_eq!(phase(&session), MobileSessionPhase::Empty);
}

#[test]
fn document_failures_and_external_changes_lock_and_discard_state() {
    let (password, encrypted_vault) = encrypted_fixture();
    let mut session = unlocked_session(password.clone(), encrypted_vault.duplicate());
    let error = session
        .prepare_save(PrepareMobileVaultSaveRequest {
            observed_revision: revision("revision-external"),
        })
        .err()
        .expect("revision mismatch should fail closed");
    assert_eq!(error.code, ErrorCode::ExternalFileChanged);
    assert_eq!(phase(&session), MobileSessionPhase::Empty);

    let mut session = unlocked_session(password, encrypted_vault.duplicate());
    let error = session
        .report_document_permission_lost()
        .expect_err("permission loss should fail closed");
    assert_eq!(error.code, ErrorCode::DocumentPermissionLost);
    assert_eq!(phase(&session), MobileSessionPhase::Empty);

    let mut session =
        MobileVaultSession::new(ClientKind::AndroidApp).expect("session should be created");
    session
        .open(open_request(encrypted_vault))
        .expect("vault should stage");
    let error = session
        .report_document_not_found()
        .expect_err("missing document should fail closed");
    assert_eq!(error.code, ErrorCode::FileNotFound);
    assert_eq!(phase(&session), MobileSessionPhase::Empty);
}

#[test]
fn save_failure_keeps_dirty_state_for_retry() {
    let (password, encrypted_vault) = encrypted_fixture();
    let mut session = unlocked_session(password, encrypted_vault);
    session
        .create_entry(entry_request())
        .expect("entry should be created in memory");
    session
        .prepare_save(PrepareMobileVaultSaveRequest {
            observed_revision: revision("revision-3"),
        })
        .ok()
        .expect("dirty vault should prepare a save");

    let error = session
        .report_save_failure()
        .expect_err("native save failure should be stable");
    assert_eq!(error.code, ErrorCode::SaveFailed);
    assert_eq!(phase(&session), MobileSessionPhase::UnlockedDirty);

    session
        .prepare_save(PrepareMobileVaultSaveRequest {
            observed_revision: revision("revision-3"),
        })
        .ok()
        .expect("save should be retryable");
}

#[test]
fn active_sessions_cannot_be_replaced_without_an_explicit_lock() {
    let (password, encrypted_vault) = encrypted_fixture();
    let mut session =
        MobileVaultSession::new(ClientKind::AndroidApp).expect("session should be created");
    session
        .open(open_request(encrypted_vault.duplicate()))
        .expect("vault should stage");

    assert_eq!(
        session
            .open(open_request(encrypted_vault.duplicate()))
            .expect_err("a locked session should retain its staged vault")
            .code,
        ErrorCode::InvalidInput
    );
    assert_eq!(
        session
            .create(CreateMobileVaultRequest {
                document: document(MobileDocumentKind::AndroidAppScoped),
                name: "Replacement vault".to_string(),
                password: SecretString::new(unique_test_secret()),
            })
            .err()
            .expect("create should not replace a locked session")
            .code,
        ErrorCode::InvalidInput
    );

    session
        .unlock(UnlockMobileVaultRequest {
            password: SecretString::new(password),
        })
        .expect("original staged vault should still unlock");
    let entry = session
        .create_entry(entry_request())
        .expect("entry should be created in memory");

    assert_eq!(
        session
            .open(open_request(encrypted_vault.duplicate()))
            .expect_err("open should not discard unsaved changes")
            .code,
        ErrorCode::InvalidInput
    );
    assert_eq!(
        session
            .create(CreateMobileVaultRequest {
                document: document(MobileDocumentKind::AndroidAppScoped),
                name: "Replacement vault".to_string(),
                password: SecretString::new(unique_test_secret()),
            })
            .err()
            .expect("create should not discard unsaved changes")
            .code,
        ErrorCode::InvalidInput
    );
    assert_eq!(phase(&session), MobileSessionPhase::UnlockedDirty);
    session
        .get_entry(&entry.id)
        .expect("original entry should remain available");

    session
        .prepare_save(PrepareMobileVaultSaveRequest {
            observed_revision: revision("revision-3"),
        })
        .ok()
        .expect("dirty vault should prepare a save");
    assert_eq!(
        session
            .open(open_request(encrypted_vault))
            .expect_err("open should not orphan a pending write")
            .code,
        ErrorCode::InvalidInput
    );
    assert_eq!(
        session
            .create(CreateMobileVaultRequest {
                document: document(MobileDocumentKind::AndroidAppScoped),
                name: "Replacement vault".to_string(),
                password: SecretString::new(unique_test_secret()),
            })
            .err()
            .expect("create should not orphan a pending write")
            .code,
        ErrorCode::InvalidInput
    );
    assert_eq!(
        session
            .commit_write(CommitMobileVaultWriteRequest {
                committed_revision: revision("revision-committed"),
            })
            .expect("original pending write should still commit")
            .phase,
        MobileSessionPhase::UnlockedClean
    );
    assert_eq!(
        session
            .open(open_request(EncryptedVaultBytes::new(vec![1])))
            .expect_err("a clean session still requires explicit lock")
            .code,
        ErrorCode::InvalidInput
    );
    session
        .prepare_save(PrepareMobileVaultSaveRequest {
            observed_revision: revision("revision-committed"),
        })
        .ok()
        .expect("a clean session can prepare a write");
    assert_eq!(phase(&session), MobileSessionPhase::UnlockedDirty);
    session.lock().expect("explicit lock should clear the session");
    assert_eq!(
        session
            .open(open_request(EncryptedVaultBytes::new(vec![1])))
            .expect("a new document can open after locking")
            .phase,
        MobileSessionPhase::Locked
    );
}

#[test]
fn read_only_documents_reject_mutation_without_changing_state() {
    let (password, encrypted_vault) = encrypted_fixture();
    let mut request = open_request(encrypted_vault);
    request.document.access = MobileDocumentAccess::ReadOnly;
    let mut session =
        MobileVaultSession::new(ClientKind::AndroidApp).expect("session should be created");
    session.open(request).expect("vault should stage");
    assert_eq!(
        session
            .create_entry(entry_request())
            .expect_err("locked state should take precedence over document access")
            .code,
        ErrorCode::VaultLocked
    );
    assert_eq!(
        session
            .prepare_save(PrepareMobileVaultSaveRequest {
                observed_revision: revision("revision-3"),
            })
            .err()
            .expect("locked state should take precedence over document access")
            .code,
        ErrorCode::VaultLocked
    );
    session
        .unlock(UnlockMobileVaultRequest {
            password: SecretString::new(password),
        })
        .expect("vault should unlock");

    let error = session
        .create_entry(entry_request())
        .expect_err("read-only document should reject mutation");
    assert_eq!(error.code, ErrorCode::DocumentReadOnly);
    assert_eq!(phase(&session), MobileSessionPhase::UnlockedClean);
}

#[test]
fn generation_without_character_classes_is_invalid_input() {
    let session = MobileVaultSession::new(ClientKind::IosApp).expect("session should be created");
    let error = session
        .generate_secret(GeneratorParams {
            uppercase: Some(false),
            lowercase: Some(false),
            digits: Some(false),
            symbols: Some(false),
            ..GeneratorParams::default()
        })
        .err()
        .expect("no character class should be refused");

    assert_eq!(error.code, ErrorCode::InvalidInput);
}

#[test]
fn creating_with_a_blank_name_is_invalid_input() {
    let mut session =
        MobileVaultSession::new(ClientKind::AndroidApp).expect("session should be created");
    let error = session
        .create(CreateMobileVaultRequest {
            document: document(MobileDocumentKind::AndroidAppScoped),
            name: "   ".to_string(),
            password: SecretString::new(unique_test_secret()),
        })
        .err()
        .expect("a blank vault name should be refused");

    assert_eq!(error.code, ErrorCode::InvalidInput);
    assert_eq!(phase(&session), MobileSessionPhase::Empty);
}
