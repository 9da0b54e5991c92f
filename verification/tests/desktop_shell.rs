use std::io;
use std::time::{SystemTime, UNIX_EPOCH};

use arca::api::{CreateEntryRequest, EntryMutation, GeneratorParams, SecretString};
use arca::desktop::commands::{
    create_entry_in_state, delete_entry_in_state, ensure_unlocked, entry_metadata_dto,
    entry_patch_from_dto, generator_config_from_dto, get_entry_in_state,
    get_entry_revisions_in_state, list_entries_in_state, persist_session,
    reveal_entry_password_in_state, reveal_entry_revision_password_in_state,
    revision_dto_from_revision, search_entries_in_state, update_entry_in_state,
    update_settings_in_state, validate_entry_password, validate_optional_entry_password,
    vault_info,
};
use arca::desktop::error::{safe_vault_error_message, ArcaError};
use arca::desktop::paths::{
    expand_path, is_vault_candidate, order_suggestions, path_suggestion, suggestion_location,
    suggestion_rank, PathSuggestionDto, PathSuggestionKind,
};
use arca::desktop::preferences::load_remembered_vault;
use arca::desktop::state::{SessionState, Settings, Theme};
use arca::entry::{create_entry, update_entry, EntryPatch, DEFAULT_ENTRY_REVISION_LIMIT};
use arca::error::VaultError;
use arca::types::{VaultEntry, VaultMeta};
use arca::vault as core_vault;

fn test_credential(label: &str) -> String {
    let nanos = SystemTime::now()
        .duration_since(UNIX_EPOCH)
        .expect("system clock should be after unix epoch")
        .as_nanos();

    format!("test-credential-{label}-{nanos}")
}

fn create_entry_with_revisions(count: usize) -> VaultEntry {
    let mut entry = create_entry("GitHub", "arca", &test_credential("current"));

    for index in 0..count {
        update_entry(
            &mut entry,
            EntryPatch {
                title: Some(format!("GitHub {index}")),
                password: Some(test_credential(&format!("revision-{index}"))),
                ..EntryPatch::default()
            },
        );
    }

    entry
}

fn test_meta() -> VaultMeta {
    VaultMeta {
        name: "Test Vault".to_string(),
        created_at: "2026-08-19T00:00:00+00:00".to_string(),
        modified_at: "2026-08-19T00:00:00+00:00".to_string(),
    }
}

fn unlocked_with_entry(entry: VaultEntry) -> SessionState {
    let mut session = SessionState::default();
    session.unlock(
        "in-memory.arca".to_string(),
        test_credential("vault"),
        test_meta(),
        vec![entry],
    );
    session
}

fn expect_error<T>(result: Result<T, ArcaError>, message: &str) -> ArcaError {
    match result {
        Ok(_) => panic!("{message}"),
        Err(error) => error,
    }
}

#[test]
fn vault_error_messages_do_not_expose_core_payloads() {
    let path = "/Users/example/private/vault.arca";
    let errors = [
        VaultError::FileNotFound(path.to_string()),
        VaultError::EncryptionError("backend nonce detail".to_string()),
        VaultError::DecryptionError("backend decrypt detail".to_string()),
        VaultError::IoError(io::Error::new(io::ErrorKind::PermissionDenied, path)),
        VaultError::SerializationError("parser detail".to_string()),
    ];

    for error in errors {
        let arca_error = ArcaError::from_vault_error(error);

        assert!(!arca_error.message.contains(path));
        assert!(!arca_error.message.contains("backend"));
        assert!(!arca_error.message.contains("parser"));
    }
}

#[test]
fn vault_errors_map_to_stable_codes_and_messages() {
    let error = ArcaError::from_vault_error(VaultError::InvalidPassword);
    assert_eq!(error.code, "invalid_password");
    assert_eq!(error.message, "Invalid password");

    let error = ArcaError::from_vault_error(VaultError::IoError(io::Error::new(
        io::ErrorKind::Other,
        "disk",
    )));
    assert_eq!(error.code, "io_error");
    assert_eq!(error.message, "Unable to read or write vault data");
    assert_eq!(
        safe_vault_error_message(arca::api::ErrorCode::CorruptedVault),
        "Vault file is corrupted"
    );
}

#[test]
fn arca_error_constructors_use_stable_codes() {
    assert_eq!(ArcaError::locked(), ArcaError::new("vault_locked", "Vault is locked"));
    assert_eq!(ArcaError::not_found("Entry").message, "Entry not found");
    assert_eq!(ArcaError::state_lock().code, "state_lock");
    assert_eq!(ArcaError::invalid_input("bad").code, "invalid_input");
    assert_eq!(ArcaError::preferences("x").code, "preferences_unavailable");
}

#[test]
fn generator_config_dto_uses_secure_defaults() {
    let config = generator_config_from_dto(GeneratorParams::default());

    assert_eq!(config.length, 24);
    assert!(config.uppercase);
    assert!(config.lowercase);
    assert!(config.digits);
    assert!(config.symbols);
}

#[test]
fn entry_password_policy_rejects_empty_create_passwords() {
    let error = validate_entry_password("").expect_err("empty passwords should be rejected");

    assert_eq!(error.code, "invalid_input");
    assert!(validate_entry_password(&test_credential("valid")).is_ok());
}

#[test]
fn entry_password_policy_rejects_empty_update_passwords() {
    let dto = EntryMutation {
        password: Some(SecretString::new(String::new())),
        ..EntryMutation::default()
    };
    let error = validate_optional_entry_password(dto.password.as_ref().map(SecretString::expose_secret))
        .expect_err("empty update passwords should be rejected");

    assert_eq!(error.code, "invalid_input");
}

#[test]
fn update_entry_dto_omitted_password_means_unchanged() {
    let dto = EntryMutation {
        title: Some("GitHub".to_string()),
        ..EntryMutation::default()
    };
    let patch = entry_patch_from_dto(dto);

    assert!(patch.password.is_none());
    assert!(validate_optional_entry_password(patch.password.as_deref()).is_ok());
}

#[test]
fn entry_metadata_dto_never_carries_password() {
    let credential = test_credential("current");
    let entry = create_entry_with_revisions(1);

    let dto = entry_metadata_dto(&entry);
    let revision = revision_dto_from_revision(&entry.revisions[0], true);

    assert!(!format!("{dto:?}").contains(&credential));
    assert_eq!(dto.revision_count, 1);
    assert!(!format!("{revision:?}").contains(entry.revisions[0].password.as_str()));
    assert!(revision.password_changed);
}

#[test]
fn get_entry_returns_metadata_without_password() {
    let credential = test_credential("current");
    let entry = create_entry("GitHub", "arca", &credential);
    let entry_id = entry.id.clone();
    let mut session = unlocked_with_entry(entry);

    let dto = get_entry_in_state(&entry_id, &mut session)
        .expect("entry metadata should be returned for an unlocked entry");

    assert!(!format!("{dto:?}").contains(credential.as_str()));
    assert_eq!(dto.id, entry_id);
    assert_eq!(list_entries_in_state(&mut session).expect("entries should list").len(), 1);
}

#[test]
fn reveal_entry_password_returns_plaintext_for_unlocked_entry() {
    let credential = test_credential("current");
    let entry = create_entry("GitHub", "arca", &credential);
    let entry_id = entry.id.clone();
    let mut session = unlocked_with_entry(entry);

    let password = reveal_entry_password_in_state(&entry_id, &mut session)
        .expect("entry password should be revealed for an unlocked entry");

    assert_eq!(password.expose_secret(), credential);
}

#[test]
fn reveal_entry_password_rejects_missing_entry() {
    let mut session = unlocked_with_entry(create_entry("GitHub", "arca", &test_credential("current")));

    let error = expect_error(
        reveal_entry_password_in_state("missing", &mut session),
        "a missing entry should not reveal a password",
    );

    assert_eq!(error.code, "not_found");
    assert_eq!(error.message, "Entry not found");
}

#[test]
fn get_entry_revisions_returns_metadata_for_unlocked_entry() {
    let entry = create_entry_with_revisions(3);
    let entry_id = entry.id.clone();
    let expected_titles: Vec<String> = entry
        .revisions
        .iter()
        .map(|revision| revision.title.clone())
        .collect();
    let mut session = unlocked_with_entry(entry);

    let revisions = get_entry_revisions_in_state(&entry_id, &mut session)
        .expect("revisions should be returned for an unlocked entry");

    assert_eq!(revisions.len(), 3);
    let titles: Vec<String> = revisions
        .iter()
        .map(|revision| revision.title.clone())
        .collect();
    assert_eq!(titles, expected_titles);
}

#[test]
fn get_entry_revisions_flags_password_changes() {
    let mut entry = create_entry("GitHub", "arca", &test_credential("current"));
    update_entry(
        &mut entry,
        EntryPatch {
            password: Some(test_credential("rotated")),
            ..EntryPatch::default()
        },
    );
    update_entry(
        &mut entry,
        EntryPatch {
            title: Some("GitHub Enterprise".to_string()),
            ..EntryPatch::default()
        },
    );
    let entry_id = entry.id.clone();
    let mut session = unlocked_with_entry(entry);

    let revisions = get_entry_revisions_in_state(&entry_id, &mut session)
        .expect("revisions should be returned for an unlocked entry");

    assert_eq!(revisions.len(), 2);
    assert!(!revisions[0].password_changed);
    assert!(revisions[1].password_changed);
}

#[test]
fn reveal_entry_revision_password_returns_plaintext_for_unlocked_entry() {
    let entry = create_entry_with_revisions(3);
    let entry_id = entry.id.clone();
    let expected = entry.revisions[0].password.clone();
    let mut session = unlocked_with_entry(entry);

    let password = reveal_entry_revision_password_in_state(&entry_id, 0, &mut session)
        .expect("revision password should be revealed for an unlocked entry");

    assert_eq!(password.expose_secret(), expected);
}

#[test]
fn reveal_entry_revision_password_rejects_out_of_range_index() {
    let entry = create_entry_with_revisions(2);
    let entry_id = entry.id.clone();
    let mut session = unlocked_with_entry(entry);

    let error = expect_error(
        reveal_entry_revision_password_in_state(&entry_id, 99, &mut session),
        "an out-of-range revision index should error",
    );

    assert_eq!(error.code, "not_found");
    assert_eq!(error.message, "Revision not found");
}

#[test]
fn revision_commands_require_unlocked_vault() {
    let mut session = SessionState::default();

    let current_reveal_error = expect_error(
        reveal_entry_password_in_state("missing", &mut session),
        "a locked vault should not reveal an entry password",
    );
    let list_error = expect_error(
        get_entry_revisions_in_state("missing", &mut session),
        "a locked vault should not return revisions",
    );
    let reveal_error = expect_error(
        reveal_entry_revision_password_in_state("missing", 0, &mut session),
        "a locked vault should not reveal a revision password",
    );

    assert_eq!(current_reveal_error.code, "vault_locked");
    assert_eq!(list_error.code, "vault_locked");
    assert_eq!(reveal_error.code, "vault_locked");
    assert!(ensure_unlocked(&session).is_err());
}

#[test]
fn search_entries_in_state_returns_metadata_views() {
    let entry = create_entry("GitHub", "arca", &test_credential("current"));
    let mut session = unlocked_with_entry(entry);

    let found = search_entries_in_state("git", &mut session).expect("search should work");
    let missing = search_entries_in_state("zzz", &mut session).expect("search should work");

    assert_eq!(found.len(), 1);
    assert_eq!(found[0].title, "GitHub");
    assert!(missing.is_empty());
}

#[test]
fn locking_the_session_forgets_everything() {
    let mut session = unlocked_with_entry(create_entry("GitHub", "arca", &test_credential("c")));
    assert!(ensure_unlocked(&session).is_ok());

    session.lock();

    assert!(session.entries.is_empty());
    assert!(session.meta.is_none());
    assert!(session.vault_path.is_none());
    assert!(session.master_password.is_none());
    assert!(session.last_active.is_none());
}

#[test]
fn create_update_and_delete_entries_prepare_vault_writes() {
    let (meta, _) = core_vault::create_vault_bytes("vault-password", "Desktop").expect("vault");
    let mut session = SessionState::default();
    session.unlock(
        "/tmp/desktop.arca".to_string(),
        "vault-password".to_string(),
        meta,
        Vec::new(),
    );

    let empty = expect_error(
        create_entry_in_state(
            CreateEntryRequest {
                title: "GitHub".to_string(),
                username: "arca".to_string(),
                password: SecretString::new(String::new()),
                collection: None,
                url: None,
                notes: None,
                tags: Vec::new(),
            },
            &mut session,
        ),
        "empty passwords should be refused",
    );
    assert_eq!(empty.code, "invalid_input");
    assert!(session.entries.is_empty());

    let (view, write) = create_entry_in_state(
        CreateEntryRequest {
            title: "GitHub".to_string(),
            username: "arca".to_string(),
            password: SecretString::new("entry-secret".to_string()),
            collection: Some("work".to_string()),
            url: None,
            notes: None,
            tags: vec!["dev".to_string()],
        },
        &mut session,
    )
    .expect("entry should be created");
    assert_eq!(write.path, "/tmp/desktop.arca");
    assert_eq!(view.collection.as_deref(), Some("work"));
    let (_, written) = core_vault::open_vault_bytes(&write.bytes, "vault-password")
        .expect("written bytes should open");
    assert_eq!(written.len(), 1);
    assert_eq!(written[0].password, "entry-secret");

    let (updated, _) = update_entry_in_state(
        &view.id,
        EntryMutation {
            title: Some("GitHub Enterprise".to_string()),
            ..EntryMutation::default()
        },
        DEFAULT_ENTRY_REVISION_LIMIT,
        &mut session,
    )
    .expect("entry should update");
    assert_eq!(updated.title, "GitHub Enterprise");
    assert_eq!(updated.revision_count, 1);

    let missing = expect_error(
        update_entry_in_state("missing", EntryMutation::default(), 5, &mut session),
        "a missing entry should not update",
    );
    assert_eq!(missing.code, "not_found");

    let write = delete_entry_in_state(&view.id, &mut session).expect("entry should be deleted");
    assert!(session.entries.is_empty());
    let (_, written) = core_vault::open_vault_bytes(&write.bytes, "vault-password")
        .expect("written bytes should open");
    assert!(written.is_empty());

    let missing = expect_error(
        delete_entry_in_state(&view.id, &mut session),
        "deleting twice should be not found",
    );
    assert_eq!(missing.code, "not_found");
}

#[test]
fn persisting_an_invalid_entry_reports_a_serialization_error() {
    let mut entry = create_entry("GitHub", "arca", "entry-secret");
    entry.id = "not-a-uuid".to_string();
    let session = unlocked_with_entry(entry);

    let error = expect_error(persist_session(&session), "invalid ids cannot be stored");

    assert_eq!(error.code, "serialization_error");
    assert_eq!(error.message, "Unable to process vault data");
}

#[test]
fn update_settings_lowering_revision_limit_persists_trimmed_revisions() {
    let (meta, _) = core_vault::create_vault_bytes("vault-password", "Revision Retention")
        .expect("create vault");
    let entry = create_entry_with_revisions(4);
    let mut session = SessionState::default();
    session.unlock(
        "/tmp/revision-retention.arca".to_string(),
        "vault-password".to_string(),
        meta,
        vec![entry],
    );

    let change = update_settings_in_state(
        Settings {
            entry_revision_limit: 2,
            ..Settings::default()
        },
        &session,
    )
    .expect("settings update should stage trimmed revisions");

    assert_eq!(change.settings.entry_revision_limit, 2);
    let staged = change.staged.expect("revisions should be trimmed");
    assert_eq!(staged.entries[0].revisions.len(), 2);
    assert_eq!(session.entries[0].revisions.len(), 4);
    let (_meta, persisted_entries) =
        core_vault::open_vault_bytes(&staged.write.bytes, "vault-password").expect("open persisted vault");
    assert_eq!(persisted_entries[0].revisions.len(), 2);

    let unchanged = update_settings_in_state(Settings::default(), &session)
        .expect("a higher limit trims nothing");
    assert!(unchanged.staged.is_none());
    let clamped = update_settings_in_state(
        Settings {
            entry_revision_limit: 1000,
            ..Settings::default()
        },
        &SessionState::default(),
    )
    .expect("a locked session only stores settings");
    assert_eq!(clamped.settings.entry_revision_limit, 25);
    assert!(clamped.staged.is_none());
}

#[test]
fn settings_default_to_the_documented_values() {
    let settings = Settings::default();

    assert_eq!(settings.auto_lock_timeout_minutes, Some(15));
    assert_eq!(settings.clipboard_clear_seconds, Some(30));
    assert_eq!(settings.theme, Theme::Paper);
    assert_eq!(settings.font_size, 13);
    assert_eq!(settings.entry_revision_limit, DEFAULT_ENTRY_REVISION_LIMIT);
}

#[test]
fn vault_info_summarizes_path_and_metadata() {
    let info = vault_info("/tmp/v.arca", &test_meta(), 4);

    assert_eq!(info.name, "Test Vault");
    assert_eq!(info.path, "/tmp/v.arca");
    assert_eq!(info.entry_count, 4);
    assert_eq!(info.modified_at, "2026-08-19T00:00:00+00:00");
}

fn suggestion(name: &str, kind: PathSuggestionKind, vault_candidate: bool) -> PathSuggestionDto {
    PathSuggestionDto {
        name: name.to_string(),
        path: format!("/root/{name}"),
        kind,
        vault_candidate,
    }
}

#[test]
fn path_suggestions_prioritize_vault_files_then_directories() {
    let ordered = order_suggestions(vec![
        suggestion("alpha.txt", PathSuggestionKind::File, false),
        suggestion("apps/", PathSuggestionKind::Directory, false),
        suggestion("alpha.arca", PathSuggestionKind::File, true),
    ]);
    let names = ordered
        .iter()
        .map(|suggestion| suggestion.name.as_str())
        .collect::<Vec<_>>();

    assert_eq!(names, vec!["alpha.arca", "apps/", "alpha.txt"]);
    assert!(ordered[0].vault_candidate);
}

#[test]
fn path_suggestions_sort_by_lowercase_name_and_keep_eight() {
    let mut input = Vec::new();
    for name in ["d", "B", "a", "C", "h", "g", "F", "e", "j", "I"] {
        input.push(suggestion(name, PathSuggestionKind::File, false));
    }

    let ordered = order_suggestions(input);
    let names = ordered
        .iter()
        .map(|suggestion| suggestion.name.as_str())
        .collect::<Vec<_>>();

    assert_eq!(names, vec!["a", "B", "C", "d", "e", "F", "g", "h"]);
}

#[test]
fn path_suggestion_ranks_and_candidates() {
    assert_eq!(suggestion_rank(&suggestion("v.kdbx", PathSuggestionKind::File, true)), 0);
    assert_eq!(suggestion_rank(&suggestion("d/", PathSuggestionKind::Directory, false)), 1);
    assert_eq!(suggestion_rank(&suggestion("n.txt", PathSuggestionKind::File, false)), 2);
    assert!(is_vault_candidate("Primary.KDBX"));
    assert!(is_vault_candidate("x.arca"));
    assert!(!is_vault_candidate("x.arca.txt"));
}

#[test]
fn path_suggestion_filters_by_prefix_and_marks_directories() {
    let directory = path_suggestion("vaults", true, false, "va", "/home/u/vaults".to_string())
        .expect("directory should be offered");
    assert_eq!(directory.name, "vaults/");
    assert_eq!(directory.path, "/home/u/vaults/");
    assert_eq!(directory.kind, PathSuggestionKind::Directory);
    assert!(!directory.vault_candidate);

    let file = path_suggestion("Primary.kdbx", false, true, "pri", "/home/u/Primary.kdbx".to_string())
        .expect("file should be offered");
    assert_eq!(file.name, "Primary.kdbx");
    assert!(file.vault_candidate);

    assert!(path_suggestion("other", false, true, "pri", "/home/u/other".to_string()).is_none());
    assert!(path_suggestion("socket", false, false, "", "/home/u/socket".to_string()).is_none());
}

#[test]
fn expand_path_resolves_home_relative_input() {
    assert_eq!(expand_path("~", Some("/home/u")), "/home/u");
    assert_eq!(expand_path("~/vaults", Some("/home/u")), "/home/u/vaults");
    assert_eq!(expand_path("/abs/path", Some("/home/u")), "/abs/path");
    assert_eq!(expand_path("rel/path", Some("/home/u/")), "/home/u/rel/path");
    assert_eq!(expand_path("~/x", None), "~/x");
}

#[test]
fn remembered_vault_names_fall_back_to_last_vault() {
    let remembered = load_remembered_vault(
        Some("/vaults/primary.arca".to_string()),
        Some("primary.arca".to_string()),
        true,
    )
    .expect("a stored path should be remembered");
    assert_eq!(remembered.display_name, "primary.arca");
    assert!(remembered.available);

    let unnamed = load_remembered_vault(Some("/".to_string()), None, false)
        .expect("a stored path should be remembered");
    assert_eq!(unnamed.display_name, "Last vault");
    assert!(!unnamed.available);

    assert!(load_remembered_vault(None, None, false).is_none());
}

#[test]
fn path_suggestions_complete_inside_trailing_directory() {
    let typed = "/home/arca/vaults/";
    let expanded = expand_path(typed, Some("/home/arca"));
    let location = suggestion_location(
        typed,
        expanded,
        Some("/home/arca".to_string()),
        Some("/home/arca".to_string()),
        true,
        Some("vaults".to_string()),
    );
    assert_eq!(location.directory, "/home/arca/vaults/");
    assert_eq!(location.prefix, "");

    let offered = path_suggestion(
        "primary.kdbx",
        false,
        true,
        &location.prefix,
        "/home/arca/vaults/primary.kdbx".to_string(),
    )
    .expect("a vault file is offered");
    let suggestions = order_suggestions(vec![offered]);
    assert_eq!(suggestions[0].name, "primary.kdbx");
    assert!(suggestions[0].vault_candidate);
}

#[test]
fn suggestion_location_lists_the_parent_filtered_by_the_typed_name() {
    let location = suggestion_location(
        "/srv/Vaults/Pri",
        "/srv/Vaults/Pri".to_string(),
        None,
        Some("/srv/Vaults".to_string()),
        true,
        Some("Pri".to_string()),
    );
    assert_eq!(location.directory, "/srv/Vaults");
    assert_eq!(location.prefix, "pri");
}

#[test]
fn suggestion_location_falls_back_to_home_root_and_current_directory() {
    let empty = suggestion_location("", "/home/arca".to_string(), Some("/home/arca".to_string()), None, true, None);
    assert_eq!(empty.directory, "/home/arca");
    assert_eq!(empty.prefix, "");

    let no_home = suggestion_location("", "".to_string(), None, None, false, None);
    assert_eq!(no_home.directory, "/");

    let tilde = suggestion_location("~", "/home/arca".to_string(), Some("/home/arca".to_string()), Some("/home".to_string()), true, Some("arca".to_string()));
    assert_eq!(tilde.directory, "/home/arca");
    assert_eq!(tilde.prefix, "");

    let root = suggestion_location("/", "/".to_string(), None, None, true, None);
    assert_eq!(root.directory, "/");

    let bare = suggestion_location("notes", "notes".to_string(), None, Some("".to_string()), false, Some("notes".to_string()));
    assert_eq!(bare.directory, ".");
    assert_eq!(bare.prefix, "notes");

    let absolute_without_parent = suggestion_location("x", "/x".to_string(), None, None, true, Some("X".to_string()));
    assert_eq!(absolute_without_parent.directory, "/");
    assert_eq!(absolute_without_parent.prefix, "x");
}

#[test]
fn update_settings_refused_save_stages_nothing_and_leaves_the_session() {
    let entry = create_entry_with_revisions(3);
    let mut session = SessionState::default();
    session.unlock(
        "in-memory.arca".to_string(),
        test_credential("vault"),
        VaultMeta {
            name: "Broken".to_string(),
            created_at: "not a time".to_string(),
            modified_at: "2026-08-19T00:00:00+00:00".to_string(),
        },
        vec![entry],
    );

    let error = expect_error(
        update_settings_in_state(
            Settings {
                entry_revision_limit: 1,
                ..Settings::default()
            },
            &session,
        ),
        "a vault whose metadata cannot be stored should not save",
    );

    assert_eq!(error.code, "serialization_error");
    assert_eq!(session.entries[0].revisions.len(), 3);
}
