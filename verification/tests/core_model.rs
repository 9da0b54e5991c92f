use std::collections::HashSet;
use std::time::{Duration, SystemTime, UNIX_EPOCH};

fn wait_a_moment() {
    let start = SystemTime::now();
    while SystemTime::now()
        .duration_since(start)
        .map(|elapsed| elapsed < Duration::from_millis(2))
        .unwrap_or(true)
    {}
}

use arca::entry::{
    create_entry, search_entries, trim_entry_revisions, update_entry,
    update_entry_with_revision_limit, EntryPatch, DEFAULT_ENTRY_REVISION_LIMIT,
    MAX_ENTRY_REVISION_LIMIT,
};
use arca::error::VaultError;
use arca::generator::{charset_size, generate_password, GeneratorConfig, GeneratorMode};
use arca::types::{EntryRevision, KdfConfig, VaultEntry, VaultMeta};
use arca::vault::tmp_path_for;

fn test_credential(label: &str) -> String {
    let nanos = SystemTime::now()
        .duration_since(UNIX_EPOCH)
        .expect("system clock should be after unix epoch")
        .as_nanos();

    format!("test-credential-{label}-{nanos}")
}

fn entry_with_revision(password: &str, revision_password: &str) -> VaultEntry {
    VaultEntry {
        id: "11111111-2222-4333-8444-555555555555".to_string(),
        title: "sentinel-title".to_string(),
        username: "sentinel-username".to_string(),
        password: password.to_string(),
        collection: Some("sentinel-collection".to_string()),
        url: Some("sentinel-url".to_string()),
        notes: Some("sentinel-notes".to_string()),
        tags: vec!["sentinel-tag".to_string()],
        created_at: "2026-08-19T00:00:00+00:00".to_string(),
        updated_at: "2026-08-19T00:00:00+00:00".to_string(),
        revisions: vec![EntryRevision {
            captured_at: "2026-08-18T00:00:00+00:00".to_string(),
            title: "sentinel-revision-title".to_string(),
            username: "sentinel-revision-username".to_string(),
            password: revision_password.to_string(),
            collection: Some("sentinel-revision-collection".to_string()),
            url: Some("sentinel-revision-url".to_string()),
            notes: Some("sentinel-revision-notes".to_string()),
            tags: vec!["sentinel-revision-tag".to_string()],
            updated_at: "2026-08-18T00:00:00+00:00".to_string(),
        }],
    }
}

#[test]
fn debug_output_excludes_decrypted_vault_contents() {
    let current = test_credential("current");
    let historical = test_credential("historical");
    let entry = entry_with_revision(&current, &historical);

    let sensitive = [
        current.as_str(),
        historical.as_str(),
        "sentinel-title",
        "sentinel-username",
        "sentinel-collection",
        "sentinel-url",
        "sentinel-notes",
        "sentinel-tag",
        "sentinel-revision-title",
        "sentinel-revision-username",
        "sentinel-revision-collection",
        "sentinel-revision-url",
        "sentinel-revision-notes",
        "sentinel-revision-tag",
    ];

    for output in [entry.debug_text(), entry.revisions[0].debug_text()] {
        for value in sensitive {
            assert!(!output.contains(value), "Debug output leaked {value}");
        }
    }
    assert!(entry.debug_text().contains("revision_count"));
}

#[test]
fn entry_debug_text_shows_id_and_revision_count() {
    let entry = entry_with_revision("secret-a", "secret-b");

    assert_eq!(
        entry.debug_text(),
        "VaultEntry { id: \"11111111-2222-4333-8444-555555555555\", revision_count: 1, .. }"
    );
    assert_eq!(entry.revisions[0].debug_text(), "EntryRevision { .. }");
}

#[test]
fn default_kdf_config_matches_spec() {
    let config = KdfConfig::default();

    assert_eq!(config.memory_kib, 131_072);
    assert_eq!(config.iterations, 3);
    assert_eq!(config.parallelism, 4);
    assert_eq!(config.salt, [0u8; 32]);
}

#[test]
fn invalid_password_message_is_stable() {
    assert_eq!(VaultError::InvalidPassword.display_text(), "Invalid master password");
}

#[test]
fn vault_error_display_texts_carry_their_payloads() {
    assert_eq!(
        VaultError::FileNotFound("/v.arca".to_string()).display_text(),
        "Vault file not found: /v.arca"
    );
    assert_eq!(VaultError::CorruptedVault.display_text(), "Vault file is corrupted");
    assert_eq!(
        VaultError::EncryptionError("e".to_string()).display_text(),
        "Encryption error: e"
    );
    assert_eq!(
        VaultError::DecryptionError("d".to_string()).display_text(),
        "Decryption error: d"
    );
    assert_eq!(
        VaultError::SerializationError("s".to_string()).display_text(),
        "Serialization error: s"
    );
    assert!(VaultError::IoError(std::io::Error::new(std::io::ErrorKind::Other, "x"))
        .display_text()
        .starts_with("IO error: "));
}

#[test]
fn tmp_path_appends_tmp_suffix() {
    assert_eq!(tmp_path_for("/tmp/example.kdbx"), "/tmp/example.kdbx.tmp");
}

#[test]
fn test_generated_password_length() {
    let config = GeneratorConfig {
        length: 32,
        ..GeneratorConfig::default()
    };

    let password = generate_password(&config);

    assert_eq!(password.chars().count(), 32);
}

#[test]
fn test_generated_password_contains_required_chars() {
    let config = GeneratorConfig {
        length: 32,
        uppercase: true,
        lowercase: true,
        digits: true,
        symbols: true,
        ..GeneratorConfig::default()
    };

    let password = generate_password(&config);

    assert!(password
        .chars()
        .any(|character| character.is_ascii_uppercase()));
    assert!(password
        .chars()
        .any(|character| character.is_ascii_lowercase()));
    assert!(password.chars().any(|character| character.is_ascii_digit()));
    assert!(password
        .chars()
        .any(|character| !character.is_ascii_alphanumeric()));
}

#[test]
fn test_unique_passwords() {
    let config = GeneratorConfig::default();
    let mut passwords = HashSet::new();

    for _ in 0..100 {
        passwords.insert(generate_password(&config));
    }

    assert_eq!(passwords.len(), 100);
}

#[test]
fn excludes_ambiguous_characters() {
    let config = GeneratorConfig {
        length: 128,
        exclude_ambiguous: true,
        ..GeneratorConfig::default()
    };

    let password = generate_password(&config);

    assert!(!password
        .chars()
        .any(|character| "0O1lI".contains(character)));
}

#[test]
fn generator_clamps_length_and_handles_no_classes() {
    let short = GeneratorConfig {
        length: 3,
        ..GeneratorConfig::default()
    };
    let long = GeneratorConfig {
        length: 1000,
        ..GeneratorConfig::default()
    };
    let none = GeneratorConfig {
        uppercase: false,
        lowercase: false,
        digits: false,
        symbols: false,
        ..GeneratorConfig::default()
    };

    assert_eq!(generate_password(&short).chars().count(), 8);
    assert_eq!(generate_password(&long).chars().count(), 128);
    assert_eq!(generate_password(&none), "");
}

#[test]
fn charset_size_counts_enabled_classes() {
    let digits_only = GeneratorConfig {
        uppercase: false,
        lowercase: false,
        digits: true,
        symbols: false,
        ..GeneratorConfig::default()
    };
    let digits_unambiguous = GeneratorConfig {
        exclude_ambiguous: true,
        ..digits_only.clone()
    };
    let passphrase = GeneratorConfig {
        mode: GeneratorMode::Passphrase,
        ..digits_only.clone()
    };

    assert_eq!(charset_size(&digits_only), 10);
    assert_eq!(charset_size(&digits_unambiguous), 8);
    assert_eq!(charset_size(&passphrase), 10);
    let digits = generate_password(&digits_only);
    assert!(digits.chars().all(|c| c.is_ascii_digit()));
}

#[test]
fn create_entry_sets_defaults() {
    let credential = test_credential("current");
    let entry = create_entry("GitHub", "arca", &credential);

    assert_eq!(entry.title, "GitHub");
    assert_eq!(entry.username, "arca");
    assert_eq!(entry.password, credential);
    assert!(entry.url.is_none());
    assert!(entry.notes.is_none());
    assert!(entry.collection.is_none());
    assert!(entry.tags.is_empty());
    assert!(entry.revisions.is_empty());
    assert_eq!(entry.created_at, entry.updated_at);
    assert!(uuid::Uuid::parse_str(&entry.id).is_ok());
}

#[test]
fn update_entry_applies_patch_and_updates_timestamp() {
    let credential = test_credential("current");
    let updated_credential = test_credential("updated");
    let mut entry = create_entry("GitHub", "arca", &credential);
    let original_created_at = entry.created_at.clone();
    let original_updated_at = entry.updated_at.clone();
    wait_a_moment();

    update_entry(
        &mut entry,
        EntryPatch {
            title: Some("GitLab".to_string()),
            username: Some("akei9".to_string()),
            password: Some(updated_credential.clone()),
            collection: Some(Some("work".to_string())),
            url: Some(Some("https://gitlab.com".to_string())),
            notes: Some(None),
            tags: Some(vec!["work".to_string(), "ssh".to_string()]),
        },
    );

    assert_eq!(entry.title, "GitLab");
    assert_eq!(entry.username, "akei9");
    assert_eq!(entry.password, updated_credential);
    assert_eq!(entry.collection.as_deref(), Some("work"));
    assert_eq!(entry.url.as_deref(), Some("https://gitlab.com"));
    assert!(entry.notes.is_none());
    assert_eq!(entry.tags, vec!["work", "ssh"]);
    assert_eq!(entry.revisions.len(), 1);
    assert_eq!(entry.revisions[0].title, "GitHub");
    assert_eq!(entry.revisions[0].username, "arca");
    assert_eq!(entry.revisions[0].password, credential);
    assert_eq!(entry.created_at, original_created_at);
    assert_ne!(entry.updated_at, original_updated_at);
}

#[test]
fn update_entry_keeps_password_when_patch_omits_password() {
    let credential = test_credential("current");
    let mut entry = create_entry("GitHub", "arca", &credential);
    let original_updated_at = entry.updated_at.clone();
    wait_a_moment();

    update_entry(
        &mut entry,
        EntryPatch {
            title: Some("GitHub Enterprise".to_string()),
            password: None,
            ..EntryPatch::default()
        },
    );

    assert_eq!(entry.title, "GitHub Enterprise");
    assert_eq!(entry.password, credential);
    assert_eq!(entry.revisions.len(), 1);
    assert_eq!(entry.revisions[0].title, "GitHub");
    assert_eq!(entry.revisions[0].password, credential);
    assert_ne!(entry.updated_at, original_updated_at);
}

#[test]
fn update_entry_does_not_capture_revision_for_noop_patch() {
    let credential = test_credential("current");
    let mut entry = create_entry("GitHub", "arca", &credential);

    update_entry(
        &mut entry,
        EntryPatch {
            title: Some("GitHub".to_string()),
            username: Some("arca".to_string()),
            password: Some(credential),
            collection: Some(None),
            url: Some(None),
            notes: Some(None),
            tags: Some(Vec::new()),
        },
    );

    assert!(entry.revisions.is_empty());
}

#[test]
fn update_entry_limits_revisions() {
    let credential = test_credential("current");
    let mut entry = create_entry("GitHub", "arca", &credential);

    for index in 0..DEFAULT_ENTRY_REVISION_LIMIT + 2 {
        update_entry(
            &mut entry,
            EntryPatch {
                title: Some(format!("GitHub {index}")),
                ..EntryPatch::default()
            },
        );
    }

    assert_eq!(entry.revisions.len(), DEFAULT_ENTRY_REVISION_LIMIT);
    assert_eq!(entry.revisions[0].title, "GitHub 5");
    assert_eq!(
        entry.revisions[DEFAULT_ENTRY_REVISION_LIMIT - 1].title,
        "GitHub 1"
    );
}

#[test]
fn update_entry_uses_configured_revision_limit() {
    let credential = test_credential("current");
    let mut entry = create_entry("GitHub", "arca", &credential);

    for index in 0..4 {
        update_entry_with_revision_limit(
            &mut entry,
            EntryPatch {
                title: Some(format!("GitHub {index}")),
                ..EntryPatch::default()
            },
            2,
        );
    }

    assert_eq!(entry.revisions.len(), 2);
    assert_eq!(entry.revisions[0].title, "GitHub 2");
    assert_eq!(entry.revisions[1].title, "GitHub 1");
}

#[test]
fn update_entry_can_disable_revisions() {
    let credential = test_credential("current");
    let mut entry = create_entry("GitHub", "arca", &credential);

    update_entry_with_revision_limit(
        &mut entry,
        EntryPatch {
            title: Some("GitHub Enterprise".to_string()),
            ..EntryPatch::default()
        },
        0,
    );

    assert!(entry.revisions.is_empty());
}

#[test]
fn update_entry_caps_revision_limit() {
    let credential = test_credential("current");
    let mut entry = create_entry("GitHub", "arca", &credential);

    for index in 0..MAX_ENTRY_REVISION_LIMIT + 2 {
        update_entry_with_revision_limit(
            &mut entry,
            EntryPatch {
                title: Some(format!("GitHub {index}")),
                ..EntryPatch::default()
            },
            MAX_ENTRY_REVISION_LIMIT + 100,
        );
    }

    assert_eq!(entry.revisions.len(), MAX_ENTRY_REVISION_LIMIT);
}

#[test]
fn trim_entry_revisions_applies_configured_limit() {
    let credential = test_credential("current");
    let mut entry = create_entry("GitHub", "arca", &credential);

    for index in 0..4 {
        update_entry(
            &mut entry,
            EntryPatch {
                title: Some(format!("GitHub {index}")),
                ..EntryPatch::default()
            },
        );
    }

    assert!(trim_entry_revisions(&mut entry, 2));
    assert_eq!(entry.revisions.len(), 2);
    assert_eq!(entry.revisions[0].title, "GitHub 2");
    assert_eq!(entry.revisions[1].title, "GitHub 1");
    assert!(!trim_entry_revisions(&mut entry, 2));
}

#[test]
fn search_entries_matches_title_username_url_and_tags_by_relevance() {
    let title_match = create_entry("GitHub", "admin", &test_credential("title"));
    let mut username_match =
        create_entry("Admin Console", "github_user", &test_credential("username"));
    let mut collection_match = create_entry("Ops Console", "ops", &test_credential("collection"));
    let mut url_match = create_entry("Code", "dev", &test_credential("url"));
    let mut tag_match = create_entry("Deploy", "ops", &test_credential("tag"));
    collection_match.collection = Some("github".to_string());
    url_match.url = Some("https://github.com".to_string());
    tag_match.tags = vec!["github".to_string()];
    username_match.tags = vec!["other".to_string()];

    let entries = vec![
        tag_match,
        url_match,
        collection_match,
        username_match,
        title_match,
    ];
    let results = search_entries(&entries, "github");

    assert_eq!(results[0].title, "GitHub");
    assert_eq!(results[1].title, "Admin Console");
    assert_eq!(results[2].title, "Ops Console");
    assert_eq!(results[3].title, "Code");
    assert_eq!(results[4].title, "Deploy");
}

#[test]
fn search_entries_filters_exact_tag() {
    let mut work = create_entry("Work", "user", &test_credential("work"));
    let mut personal = create_entry("Personal", "user", &test_credential("personal"));
    work.tags = vec!["ssh".to_string(), "work".to_string()];
    personal.tags = vec!["personal".to_string()];
    let entries = vec![work, personal];

    let results = search_entries(&entries, "#SSH");

    assert_eq!(results.len(), 1);
    assert_eq!(results[0].title, "Work");
}

#[test]
fn search_entries_blank_query_matches_every_entry_and_bare_hash_none() {
    let first = create_entry("Alpha", "a", &test_credential("a"));
    let second = create_entry("Beta", "b", &test_credential("b"));
    let entries = vec![first, second];

    let results = search_entries(&entries, "   ");
    assert_eq!(results.len(), 2);
    assert_eq!(results[0].title, "Alpha");
    assert_eq!(results[1].title, "Beta");

    assert!(search_entries(&entries, " # ").is_empty());
}

#[test]
fn vault_meta_duplicate_keeps_values() {
    let meta = VaultMeta {
        name: "N".to_string(),
        created_at: "c".to_string(),
        modified_at: "m".to_string(),
    };

    assert_eq!(meta.duplicate(), meta);
}

#[test]
fn noop_patch_with_zero_limit_clears_history() {
    let mut entry = arca::entry::create_entry("GitHub", "arca", "first");
    arca::entry::update_entry(
        &mut entry,
        arca::entry::EntryPatch {
            password: Some("second".to_string()),
            ..arca::entry::EntryPatch::default()
        },
    );
    assert_eq!(entry.revisions.len(), 1);

    arca::entry::update_entry_with_revision_limit(&mut entry, arca::entry::EntryPatch::default(), 0);

    assert!(entry.revisions.is_empty());
    assert_eq!(entry.password, "second");
}

#[test]
fn noop_patch_trims_history_to_the_limit() {
    let mut entry = arca::entry::create_entry("GitHub", "arca", "p0");
    for index in 1..4 {
        arca::entry::update_entry(
            &mut entry,
            arca::entry::EntryPatch {
                password: Some(format!("p{index}")),
                ..arca::entry::EntryPatch::default()
            },
        );
    }
    assert_eq!(entry.revisions.len(), 3);

    arca::entry::update_entry_with_revision_limit(&mut entry, arca::entry::EntryPatch::default(), 2);

    assert_eq!(entry.revisions.len(), 2);
    assert_eq!(entry.revisions[0].password, "p2");
    assert_eq!(entry.revisions[1].password, "p1");
}

#[test]
fn created_entry_ids_are_lowercase_hyphenated_uuids() {
    let entry = arca::entry::create_entry("GitHub", "arca", "secret");
    assert_eq!(entry.id.len(), 36);
    assert!(uuid::Uuid::parse_str(&entry.id).is_ok());
    assert_eq!(entry.id, entry.id.to_lowercase());
    assert!(chrono::DateTime::parse_from_rfc3339(&entry.created_at).is_ok());
}

#[test]
fn search_selects_the_same_positions_whatever_the_secrets() {
    let mut first = vec![
        arca::entry::create_entry("GitHub", "arca", "one"),
        arca::entry::create_entry("Mail", "github-bot", "two"),
        arca::entry::create_entry("Bank", "me", "three"),
    ];
    let mut second = vec![
        arca::entry::create_entry("GitHub", "arca", "other"),
        arca::entry::create_entry("Mail", "github-bot", "github"),
        arca::entry::create_entry("Bank", "me", "github"),
    ];
    first[2].notes = Some("nothing".to_string());
    second[2].notes = Some("github everywhere".to_string());

    let positions = |entries: &Vec<VaultEntry>, found: Vec<&VaultEntry>| {
        found
            .iter()
            .map(|hit| entries.iter().position(|e| e.id == hit.id).expect("hit comes from the list"))
            .collect::<Vec<_>>()
    };
    let a = positions(&first, arca::entry::search_entries(&first, "github"));
    let b = positions(&second, arca::entry::search_entries(&second, "github"));

    assert_eq!(a, vec![0, 1]);
    assert_eq!(a, b);
}
