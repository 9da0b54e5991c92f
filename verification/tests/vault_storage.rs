use arca::entry::{create_entry, update_entry, EntryPatch};
use arca::error::VaultError;
use arca::types::VaultMeta;
use arca::vault::{
    create_vault_bytes, database_from_entries, entries_from_database, meta_from_database,
    open_vault_bytes, save_vault_bytes, ARGON2_ITERATIONS, ARGON2_MEMORY_BYTES,
    ARGON2_PARALLELISM, FIELD_REVISIONS,
};
use keepass::config::{InnerCipherConfig, KdfConfig, OuterCipherConfig};
use keepass::{Database, DatabaseKey};

const FIXTURE_PASSWORD: &str = "fixture-master-password";

fn test_vault_password() -> String {
    uuid::Uuid::new_v4().to_string()
}

fn fixed_meta(name: &str) -> VaultMeta {
    VaultMeta {
        name: name.to_string(),
        created_at: "2026-06-11T00:00:00+00:00".to_string(),
        modified_at: "2026-06-11T00:00:00+00:00".to_string(),
    }
}

fn overwrite_revision_field(bytes: &[u8], vault_password: &str, value: &str) -> Vec<u8> {
    let mut database = Database::parse(bytes, DatabaseKey::new().with_password(vault_password))
        .expect("vault should decrypt");
    database.foreach_entry_mut(|mut entry| {
        entry.set_protected(FIELD_REVISIONS, value);
    });
    let mut rewritten = Vec::new();
    database
        .save(&mut rewritten, DatabaseKey::new().with_password(vault_password))
        .expect("vault should save with malformed revisions");
    rewritten
}

fn read_revision_field(bytes: &[u8], vault_password: &str) -> Option<String> {
    let database = Database::parse(bytes, DatabaseKey::new().with_password(vault_password))
        .expect("vault should decrypt");
    let revisions = database
        .iter_all_entries()
        .next()
        .and_then(|entry| entry.get(FIELD_REVISIONS).map(str::to_string));
    revisions
}

#[test]
fn create_vault_returns_named_meta() {
    let vault_password = test_vault_password();

    let (meta, bytes) =
        create_vault_bytes(&vault_password, "TEST_VAULT").expect("vault should be created");

    assert_eq!(meta.name, "TEST_VAULT");
    assert!(!bytes.is_empty());
}

#[test]
fn open_vault_rejects_malformed_revision_history_without_rewriting_it() {
    let vault_password = test_vault_password();
    let malformed_revisions = format!("not-json-{}", uuid::Uuid::new_v4());
    let meta = fixed_meta("TEST_VAULT");
    let mut entry = create_entry("GitHub", "arca", &uuid::Uuid::new_v4().to_string());

    update_entry(
        &mut entry,
        EntryPatch {
            title: Some("GitHub Enterprise".to_string()),
            ..EntryPatch::default()
        },
    );
    let saved = save_vault_bytes(&vault_password, &meta, &[entry]).expect("vault should save");
    let rewritten = overwrite_revision_field(&saved, &vault_password, &malformed_revisions);

    let result = open_vault_bytes(&rewritten, &vault_password);
    assert!(matches!(result, Err(VaultError::SerializationError(_))));
    assert_eq!(
        read_revision_field(&rewritten, &vault_password).as_deref(),
        Some(malformed_revisions.as_str()),
    );
}

#[test]
fn save_vault_pins_argon2id_and_chacha20_config() {
    let vault_password = test_vault_password();

    let (_, bytes) =
        create_vault_bytes(&vault_password, "TEST_VAULT").expect("vault should be created");
    let database = Database::parse(&bytes, DatabaseKey::new().with_password(&vault_password))
        .expect("vault should decrypt");

    assert_eq!(
        database.config.outer_cipher_config,
        OuterCipherConfig::ChaCha20
    );
    assert_eq!(
        database.config.inner_cipher_config,
        InnerCipherConfig::ChaCha20
    );
    match database.config.kdf_config {
        KdfConfig::Argon2id {
            iterations,
            memory,
            parallelism,
            ..
        } => {
            assert_eq!(iterations, ARGON2_ITERATIONS);
            assert_eq!(memory, ARGON2_MEMORY_BYTES);
            assert_eq!(parallelism, ARGON2_PARALLELISM);
        }
        _ => panic!("expected an Argon2id KDF"),
    }
}

#[test]
fn test_update_and_delete_persist_after_reopen() {
    let (meta, _) =
        create_vault_bytes("master-password", "PERSIST").expect("vault should be created");
    let mut primary = create_entry("Primary", "primary_user", "primary-secret");
    let secondary = create_entry("Secondary", "secondary_user", "secondary-secret");
    let secondary_id = secondary.id.clone();

    let saved = save_vault_bytes(
        "master-password",
        &meta,
        &[primary.clone(), secondary],
    )
    .expect("initial vault should be saved");

    update_entry(
        &mut primary,
        EntryPatch {
            title: Some("Primary Updated".to_string()),
            username: Some("primary_updated".to_string()),
            password: Some("primary-updated-secret".to_string()),
            collection: Some(Some("work".to_string())),
            url: Some(Some("https://example.test/updated".to_string())),
            notes: Some(Some("updated metadata".to_string())),
            tags: Some(vec!["work".to_string(), "updated".to_string()]),
        },
    );

    let (_, opened_entries) =
        open_vault_bytes(&saved, "master-password").expect("vault should reopen before update");
    let retained = opened_entries
        .into_iter()
        .filter(|entry| entry.id == secondary_id)
        .collect::<Vec<_>>();
    let updated_entries = [vec![primary.clone()], retained].concat();
    let saved = save_vault_bytes("master-password", &meta, &updated_entries)
        .expect("updated vault should save");

    let (_, reopened_entries) =
        open_vault_bytes(&saved, "master-password").expect("updated vault should reopen");
    let reopened_primary = reopened_entries
        .iter()
        .find(|entry| entry.id == primary.id)
        .expect("updated entry should remain");

    assert_eq!(reopened_entries.len(), 2);
    assert_eq!(reopened_primary.title, "Primary Updated");
    assert_eq!(reopened_primary.username, "primary_updated");
    assert_eq!(reopened_primary.password, "primary-updated-secret");
    assert_eq!(reopened_primary.collection.as_deref(), Some("work"));
    assert_eq!(
        reopened_primary.url.as_deref(),
        Some("https://example.test/updated")
    );
    assert_eq!(reopened_primary.notes.as_deref(), Some("updated metadata"));
    assert_eq!(reopened_primary.tags, vec!["work", "updated"]);

    let after_delete = reopened_entries
        .into_iter()
        .filter(|entry| entry.id != secondary_id)
        .collect::<Vec<_>>();
    let saved = save_vault_bytes("master-password", &meta, &after_delete)
        .expect("deleted vault should save");

    let (_, final_entries) =
        open_vault_bytes(&saved, "master-password").expect("deleted vault should reopen");

    assert_eq!(final_entries.len(), 1);
    assert_eq!(final_entries[0].id, primary.id);
}

#[test]
fn test_current_save_opens_with_keepass_and_protects_password() {
    let meta = fixed_meta("CURRENT_KEEPASS");
    let entry_password = ["fixture", "password"].join("-");
    let mut entry = create_entry("Current KeePass", "fixture_user", &entry_password);

    entry.id = "aaaaaaaa-bbbb-4ccc-8ddd-eeeeeeeeeeee".to_string();
    entry.collection = Some("infrastructure".to_string());
    entry.url = Some("https://example.test/current".to_string());
    entry.notes = Some("Non-secret fixture saved by current vault-core".to_string());
    entry.tags = vec!["compat".to_string(), "keepass-current".to_string()];
    entry.created_at = "2026-06-11T00:00:00+00:00".to_string();
    entry.updated_at = "2026-06-11T00:00:00+00:00".to_string();

    let bytes =
        save_vault_bytes(FIXTURE_PASSWORD, &meta, &[entry]).expect("current vault should save");

    let key = DatabaseKey::new().with_password(FIXTURE_PASSWORD);
    let database = Database::parse(&bytes, key).expect("keepass crate should open saved vault");
    let keepass_entry = database
        .iter_all_entries()
        .next()
        .expect("saved vault should contain one entry");
    let password_value = keepass_entry
        .fields
        .get("Password")
        .expect("saved entry should contain password field");

    assert_eq!(database.root().name, "CURRENT_KEEPASS");
    assert_eq!(
        keepass_entry.id().to_string(),
        "aaaaaaaa-bbbb-4ccc-8ddd-eeeeeeeeeeee"
    );
    assert_eq!(keepass_entry.get_title(), Some("Current KeePass"));
    assert_eq!(keepass_entry.get_username(), Some("fixture_user"));
    assert_eq!(keepass_entry.get_password(), Some(entry_password.as_str()));
    assert!(password_value.is_protected());
}

#[test]
fn stored_entries_read_back_from_the_database() {
    let meta = fixed_meta("READ_BACK");
    let mut first = create_entry("First", "first_user", "first-secret");
    first.id = "11111111-2222-4333-8444-555555555555".to_string();
    first.created_at = "2026-06-11T08:30:00Z".to_string();
    first.updated_at = "2026-06-12T10:00:00+02:00".to_string();
    first.tags = vec!["a".to_string(), "b".to_string()];
    let mut second = create_entry("Second", "second_user", "second-secret");
    second.collection = Some("work".to_string());
    update_entry(
        &mut second,
        EntryPatch {
            password: Some("second-rotated".to_string()),
            ..EntryPatch::default()
        },
    );

    let database =
        database_from_entries(&meta, &[first.clone(), second.clone()]).expect("entries store");
    let read = entries_from_database(&database).expect("entries read back");
    let read_meta = meta_from_database(&database);

    assert_eq!(read_meta, meta);
    assert_eq!(read.len(), 2);
    let read_first = read.iter().find(|e| e.id == first.id).expect("first entry");
    assert_eq!(read_first.title, "First");
    assert_eq!(read_first.tags, vec!["a", "b"]);
    assert_eq!(read_first.created_at, "2026-06-11T08:30:00+00:00");
    assert_eq!(read_first.updated_at, "2026-06-12T08:00:00+00:00");
    assert!(read_first.revisions.is_empty());
    let read_second = read.iter().find(|e| e.id == second.id).expect("second entry");
    assert_eq!(read_second.password, "second-rotated");
    assert_eq!(read_second.collection.as_deref(), Some("work"));
    assert!(read_second.revisions == second.revisions);
}

#[test]
fn duplicate_entry_ids_do_not_store() {
    let meta = fixed_meta("DUPLICATES");
    let first = create_entry("First", "user", "secret");
    let mut second = create_entry("Second", "user", "secret");
    second.id = first.id.to_uppercase();

    let result = database_from_entries(&meta, &[first, second]);

    assert!(matches!(result, Err(VaultError::SerializationError(_))));
}

#[test]
fn entries_with_an_unreadable_history_fail_to_read() {
    let meta = fixed_meta("UNREADABLE");
    let mut entry = create_entry("GitHub", "arca", "secret");
    update_entry(
        &mut entry,
        EntryPatch {
            title: Some("GitHub Enterprise".to_string()),
            ..EntryPatch::default()
        },
    );
    let mut database = database_from_entries(&meta, &[entry]).expect("entries store");
    database.foreach_entry_mut(|mut stored| {
        stored.set_protected(FIELD_REVISIONS, "[{\"title\": 3}]");
    });

    let result = entries_from_database(&database);

    assert!(matches!(result, Err(VaultError::SerializationError(_))));
}

#[test]
fn bytes_without_the_keepass_header_are_a_corrupted_vault() {
    assert!(matches!(open_vault_bytes(&[], "pw"), Err(VaultError::CorruptedVault)));
    assert!(matches!(
        open_vault_bytes(&[0x03, 0xd9, 0xa2], "pw"),
        Err(VaultError::CorruptedVault)
    ));
}

#[test]
fn saved_bytes_carry_the_kdbx4_header_and_open_only_under_their_password() {
    let meta = fixed_meta("HEADER");
    let bytes = save_vault_bytes("right", &meta, &[]).expect("vault should save");

    assert_eq!(&bytes[0..4], &[0x03, 0xd9, 0xa2, 0x9a]);
    assert_eq!(&bytes[4..8], &[0x67, 0xfb, 0x4b, 0xb5]);
    assert_eq!(&bytes[10..12], &[0x04, 0x00]);
    assert!(matches!(open_vault_bytes(&bytes, "wrong"), Err(VaultError::InvalidPassword)));
    let (opened, entries) = open_vault_bytes(&bytes, "right").expect("vault should open");
    assert_eq!(opened, meta);
    assert!(entries.is_empty());
}

#[test]
fn a_revision_stored_as_a_field_list_reads_back() {
    let meta = fixed_meta("LIST_FORM");
    let entry = create_entry("GitHub", "arca", "secret");
    let mut database = database_from_entries(&meta, &[entry]).expect("entries store");
    database.foreach_entry_mut(|mut stored| {
        stored.set_protected(
            FIELD_REVISIONS,
            r#"[["2026-06-11T00:00:00+00:00","Old","arca","old-secret",null,"https://x.test",null,["t"],"2026-06-10T00:00:00+00:00"]]"#,
        );
    });

    let read = entries_from_database(&database).expect("list form reads");

    assert_eq!(read[0].revisions.len(), 1);
    assert_eq!(read[0].revisions[0].title, "Old");
    assert_eq!(read[0].revisions[0].password, "old-secret");
    assert_eq!(read[0].revisions[0].collection, None);
    assert_eq!(read[0].revisions[0].url.as_deref(), Some("https://x.test"));
    assert_eq!(read[0].revisions[0].tags, vec!["t"]);

    let mut short = database_from_entries(&meta, &[create_entry("A", "b", "c")]).expect("entries store");
    short.foreach_entry_mut(|mut stored| {
        stored.set_protected(FIELD_REVISIONS, r#"[["2026-06-11T00:00:00+00:00","Old"]]"#);
    });
    assert!(matches!(entries_from_database(&short), Err(VaultError::SerializationError(_))));
}
