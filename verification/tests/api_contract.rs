use std::time::{SystemTime, UNIX_EPOCH};

use arca::api::{
    ApiError, ApiOperation, Capability, ClientKind, ContractVersions, ErrorCode, RevealedSecret,
    SecretString, VaultSummary, ARCA_SEMANTICS_VERSION,
};

fn unique_test_secret() -> String {
    let nanos = SystemTime::now()
        .duration_since(UNIX_EPOCH)
        .expect("system clock should be after unix epoch")
        .as_nanos();

    nanos.to_string()
}

#[test]
fn secret_string_redacts_debug_and_display() {
    let secret = unique_test_secret();
    let value = SecretString::new(secret.clone());

    assert_eq!(value.redacted_text(), "[secret]");
    assert_eq!(value.expose_secret(), secret);
    assert_eq!(value.into_inner(), secret);
}

#[test]
fn revealed_secret_holds_the_plaintext_explicitly() {
    let secret = unique_test_secret();
    let response = RevealedSecret::new(secret.clone());
    let from_wrapper = RevealedSecret::from_secret(SecretString::new(secret.clone()));

    assert_eq!(response.expose_secret(), secret);
    assert_eq!(from_wrapper.expose_secret(), secret);
}

#[test]
fn contract_versions_report_current_and_refuse_future_writers() {
    let current = ContractVersions::current();

    assert_eq!(current.kdbx_format_version, 4);
    assert_eq!(current.arca_semantics_version, 1);
    assert_eq!(current.client_protocol_version, 1);
    assert!(current.ensure_writer_supported().is_ok());

    let future = ContractVersions {
        arca_semantics_version: ARCA_SEMANTICS_VERSION + 1,
        ..current
    };
    let error = future
        .ensure_writer_supported()
        .expect_err("newer semantics must fail closed for writers");
    assert_eq!(error.code, ErrorCode::InvalidInput);
    assert_eq!(error.message, "unsupported future Arca semantics version");
}

#[test]
fn vault_summary_keeps_its_fields() {
    let summary = VaultSummary::new(
        "Vault".to_string(),
        "/tmp/vault.arca".to_string(),
        3,
        "2026-09-01T00:00:00+00:00".to_string(),
    );

    assert_eq!(summary.name, "Vault");
    assert_eq!(summary.path, "/tmp/vault.arca");
    assert_eq!(summary.entry_count, 3);
    assert_eq!(summary.modified_at, "2026-09-01T00:00:00+00:00");
}

#[test]
fn capability_matrix_grants_each_client_its_policy() {
    assert_eq!(ClientKind::DesktopApp.capabilities(), Capability::all());
    assert_eq!(Capability::all().len(), 11);
    assert!(!ClientKind::IosApp.allows(Capability::ExportPlaintext));
    assert!(ClientKind::IosApp.allows(Capability::DeletePermanent));
    assert_eq!(
        ClientKind::BrowserExtension.capabilities(),
        vec![Capability::Unlock, Capability::ReadMeta, Capability::CopySecret]
    );
    assert_eq!(
        ClientKind::AndroidAutofillService.capabilities(),
        vec![Capability::Unlock, Capability::ReadMeta, Capability::CopySecret]
    );
    assert!(ClientKind::FutureSyncServer.capabilities().is_empty());
    for capability in Capability::all() {
        assert!(!ClientKind::FutureSyncServer.allows(capability));
    }

    let granted = ClientKind::BrowserExtension.granted_capabilities();
    assert_eq!(granted.client_kind, ClientKind::BrowserExtension);
    assert_eq!(granted.capabilities.len(), 3);
}

#[test]
fn restricted_clients_are_denied_with_a_named_message() {
    let error = ClientKind::BrowserExtension
        .require_capability(Capability::RevealSecret)
        .expect_err("the extension must not reveal secrets");

    assert_eq!(error.code, ErrorCode::CapabilityDenied);
    assert_eq!(
        error.message,
        "browserExtension cannot use the revealSecret capability"
    );
    assert!(ClientKind::BrowserExtension
        .require_operation(ApiOperation::CopySecret)
        .is_ok());
    assert_eq!(
        ClientKind::IosAutofillExtension
            .require_operation(ApiOperation::UpdateEntry)
            .expect_err("autofill must not mutate")
            .code,
        ErrorCode::CapabilityDenied
    );
}

#[test]
fn operations_require_their_capabilities() {
    assert_eq!(ApiOperation::OpenVault.required_capability(), Capability::Unlock);
    assert_eq!(ApiOperation::SearchEntries.required_capability(), Capability::ReadMeta);
    assert_eq!(ApiOperation::GenerateSecret.required_capability(), Capability::RevealSecret);
    assert_eq!(ApiOperation::SaveVault.required_capability(), Capability::MutateEntry);
    assert_eq!(ApiOperation::ReadHistory.required_capability(), Capability::ReadHistory);
}

#[test]
fn plaintext_carrying_capabilities_are_flagged() {
    assert!(Capability::RevealSecret.carries_plaintext_secret());
    assert!(Capability::ExportPlaintext.carries_plaintext_secret());
    assert!(!Capability::ReadMeta.carries_plaintext_secret());
    assert!(!Capability::ExportKdbx.carries_plaintext_secret());
    assert_eq!(Capability::ExportPlaintext.as_str(), "exportPlaintext");
    assert_eq!(ClientKind::AndroidAutofillService.as_str(), "androidAutofillService");
}

#[test]
fn api_errors_render_code_and_message() {
    let error = ApiError::stable(ErrorCode::NotFound);

    assert_eq!(error.message, "Item not found");
    assert_eq!(error.display_text(), "not_found: Item not found");
    assert_eq!(
        ApiError::new(ErrorCode::IoError, "detail".to_string()).display_text(),
        "io_error: detail"
    );
}
