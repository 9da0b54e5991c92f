use arca::crypto::{decrypt, derive_key, encrypt, generate_salt, zeroize_key};
use arca::wipe::{zeroize_entries, zeroize_entry};
use arca::entry::{create_entry, update_entry, EntryPatch};
use arca::error::VaultError;
use arca::fuzz::fuzz_credential;
use arca::types::{KdfConfig, VaultMeta};
use arca::vault::{create_vault_bytes, open_vault_bytes, save_vault_bytes};

fn test_kdf_config(salt: [u8; 32]) -> KdfConfig {
    KdfConfig {
        memory_kib: 32,
        iterations: 1,
        parallelism: 1,
        salt,
    }
}

#[test]
fn generate_salt_produces_random_values() {
    let first = generate_salt();
    let second = generate_salt();

    assert_ne!(first, second);
}

#[test]
fn zeroize_key_clears_key_material() {
    let mut key = derive_key("password", &[7u8; 32], &test_kdf_config([7u8; 32]))
        .expect("key derivation should succeed");

    zeroize_key(&mut key);

    assert_eq!(key.0, [0u8; 32]);
}

#[test]
fn decrypt_rejects_too_short_ciphertext() {
    let key = derive_key("password", &[9u8; 32], &test_kdf_config([9u8; 32]))
        .expect("key derivation should succeed");

    let result = decrypt(&key, b"short");

    assert!(result.is_err());
    match result {
        Err(VaultError::DecryptionError(message)) => {
            assert_eq!(message, "ciphertext shorter than nonce")
        }
        _ => panic!("expected a decryption error"),
    }
}

#[test]
fn encrypt_rejects_tampered_payload() {
    let key = derive_key("password", &[11u8; 32], &test_kdf_config([11u8; 32]))
        .expect("key derivation should succeed");
    let mut ciphertext = encrypt(&key, b"sealed message").expect("encryption should succeed");
    let last_index = ciphertext.len() - 1;
    ciphertext[last_index] ^= 0x01;

    let result = decrypt(&key, &ciphertext);

    assert!(result.is_err());
}

#[test]
fn test_derive_key_deterministic() {
    let salt = [42u8; 32];
    let config = test_kdf_config(salt);

    let first = derive_key("correct horse battery staple", &salt, &config)
        .expect("first key derivation should succeed");
    let second = derive_key("correct horse battery staple", &salt, &config)
        .expect("second key derivation should succeed");

    assert_eq!(first.0, second.0);
}

#[test]
fn derive_key_refuses_costs_argon2_rejects() {
    let salt = [1u8; 32];
    let too_little_memory = KdfConfig {
        memory_kib: 4,
        iterations: 1,
        parallelism: 1,
        salt,
    };
    let no_iterations = KdfConfig {
        memory_kib: 32,
        iterations: 0,
        parallelism: 1,
        salt,
    };

    assert!(matches!(
        derive_key("pw", &salt, &too_little_memory),
        Err(VaultError::InvalidPassword)
    ));
    assert!(matches!(
        derive_key("pw", &salt, &no_iterations),
        Err(VaultError::InvalidPassword)
    ));
}

#[test]
fn test_encrypt_decrypt_roundtrip() {
    let salt = [13u8; 32];
    let config = test_kdf_config(salt);
    let key = derive_key("master password", &salt, &config).expect("key derivation should succeed");
    let plaintext = b"vault entry payload";

    let ciphertext = encrypt(&key, plaintext).expect("encryption should succeed");
    let decrypted = decrypt(&key, &ciphertext).expect("decryption should succeed");

    assert_eq!(decrypted, plaintext);
    assert_eq!(ciphertext.len(), 24 + plaintext.len() + 16);
}

#[test]
fn test_wrong_password_fails() {
    let salt = [99u8; 32];
    let config = test_kdf_config(salt);
    let correct_key = derive_key("right password", &salt, &config)
        .expect("correct key derivation should succeed");
    let wrong_key =
        derive_key("wrong password", &salt, &config).expect("wrong key derivation should succeed");
    let ciphertext = encrypt(&correct_key, b"top secret").expect("encryption should succeed");

    let result = decrypt(&wrong_key, &ciphertext);

    assert!(result.is_err());
    match result {
        Err(VaultError::DecryptionError(message)) => assert_eq!(message, "aead::Error"),
        _ => panic!("expected a decryption error"),
    }
}

#[test]
fn test_nonce_is_random() {
    let salt = [5u8; 32];
    let config = test_kdf_config(salt);
    let key = derive_key("master password", &salt, &config).expect("key derivation should succeed");
    let plaintext = b"same plaintext";

    let first = encrypt(&key, plaintext).expect("first encryption should succeed");
    let second = encrypt(&key, plaintext).expect("second encryption should succeed");

    assert_ne!(first, second);
}

#[test]
fn fuzz_credential_encodes_the_first_eight_bytes() {
    assert_eq!(fuzz_credential(&[]), "arca-fuzz-credential");
    assert_eq!(fuzz_credential(&[0x00, 0xab, 0x7f]), "arca-fuzz-credential00ab7f");
    assert_eq!(
        fuzz_credential(&[1, 2, 3, 4, 5, 6, 7, 8, 9, 10]),
        "arca-fuzz-credential0102030405060708"
    );
}

#[test]
fn test_create_open_roundtrip() {
    let (meta, bytes) =
        create_vault_bytes("master-password", "ROUNDTRIP").expect("vault should be created");
    let (created_meta, no_entries) =
        open_vault_bytes(&bytes, "master-password").expect("new vault should open");
    assert_eq!(created_meta.name, "ROUNDTRIP");
    assert!(no_entries.is_empty());

    let mut entry = create_entry("GitHub", "arca_admin", "correct horse");
    entry.collection = Some("work".to_string());
    entry.url = Some("https://github.com".to_string());
    entry.notes = Some("primary repository account".to_string());
    entry.tags = vec!["work".to_string(), "ssh".to_string()];

    let saved = save_vault_bytes("master-password", &meta, &[entry.clone()])
        .expect("vault should be saved");
    let (opened_meta, entries) =
        open_vault_bytes(&saved, "master-password").expect("vault should open with the correct password");

    assert_eq!(opened_meta.name, "ROUNDTRIP");
    assert_eq!(entries.len(), 1);
    assert_eq!(entries[0].id, entry.id);
    assert_eq!(entries[0].title, "GitHub");
    assert_eq!(entries[0].username, "arca_admin");
    assert_eq!(entries[0].password, "correct horse");
    assert_eq!(entries[0].collection.as_deref(), Some("work"));
    assert_eq!(entries[0].url.as_deref(), Some("https://github.com"));
    assert_eq!(
        entries[0].notes.as_deref(),
        Some("primary repository account")
    );
    assert_eq!(entries[0].tags, vec!["work", "ssh"]);
}

#[test]
fn revision_history_survives_a_save_and_reopen() {
    let meta = VaultMeta {
        name: "HISTORY".to_string(),
        created_at: "2026-06-11T00:00:00+00:00".to_string(),
        modified_at: "2026-06-11T00:00:00+00:00".to_string(),
    };
    let mut entry = create_entry("GitHub", "arca", "first-secret");
    update_entry(
        &mut entry,
        EntryPatch {
            title: Some("GitHub Enterprise".to_string()),
            password: Some("second-secret".to_string()),
            ..EntryPatch::default()
        },
    );

    let bytes = save_vault_bytes("pw", &meta, &[entry.clone()]).expect("vault should save");
    let (opened_meta, entries) = open_vault_bytes(&bytes, "pw").expect("vault should open");

    assert_eq!(opened_meta, meta);
    assert_eq!(entries.len(), 1);
    assert_eq!(entries[0].revisions.len(), 1);
    assert_eq!(entries[0].revisions[0].title, "GitHub");
    assert_eq!(entries[0].revisions[0].password, "first-secret");
    assert!(entries[0].revisions == entry.revisions);
}

#[test]
fn test_open_invalid_password_returns_error() {
    let (_, bytes) = create_vault_bytes("right-password", "LOCKED").expect("vault should be created");

    let result = open_vault_bytes(&bytes, "wrong-password");

    assert!(matches!(result, Err(VaultError::InvalidPassword)));
}

#[test]
fn test_open_corrupt_file_returns_error() {
    let result = open_vault_bytes(b"not a kdbx file", "master-password");

    assert!(matches!(result, Err(VaultError::CorruptedVault)));
}

#[test]
fn test_save_invalid_entry_id_returns_serialization_error() {
    let meta = VaultMeta {
        name: "INVALID_ENTRY_ID".to_string(),
        created_at: "2026-06-11T00:00:00+00:00".to_string(),
        modified_at: "2026-06-11T00:00:00+00:00".to_string(),
    };
    let mut entry = create_entry("Invalid", "fixture_user", "fixture-password");

    entry.id = "not-a-uuid".to_string();

    let result = save_vault_bytes("master-password", &meta, &[entry]);

    assert!(matches!(result, Err(VaultError::SerializationError(_))));
}

#[test]
fn save_rejects_metadata_time_that_is_not_rfc3339() {
    let meta = VaultMeta {
        name: "BAD_TIME".to_string(),
        created_at: "yesterday".to_string(),
        modified_at: "2026-06-11T00:00:00+00:00".to_string(),
    };

    let result = save_vault_bytes("master-password", &meta, &[]);

    assert!(matches!(result, Err(VaultError::SerializationError(_))));
}

#[test]
fn altering_the_first_tag_byte_is_refused() {
    let key = derive_key("password", &[13u8; 32], &test_kdf_config([13u8; 32]))
        .expect("key derivation should succeed");
    let plaintext = b"tag check";
    let mut ciphertext = encrypt(&key, plaintext).expect("encryption should succeed");
    let first_tag_byte = ciphertext.len() - 16;
    ciphertext[first_tag_byte] ^= 0x80;

    match decrypt(&key, &ciphertext) {
        Err(VaultError::DecryptionError(message)) => assert_eq!(message, "aead::Error"),
        _ => panic!("an altered tag must not decrypt"),
    }
}

#[test]
fn zeroize_entry_clears_every_field() {
    let mut entry = create_entry("GitHub", "arca", "first-secret");
    entry.collection = Some("work".to_string());
    entry.url = Some("https://github.com".to_string());
    entry.notes = Some("note".to_string());
    entry.tags = vec!["ssh".to_string()];
    update_entry(
        &mut entry,
        EntryPatch {
            password: Some("second-secret".to_string()),
            ..EntryPatch::default()
        },
    );
    assert_eq!(entry.revisions.len(), 1);

    zeroize_entry(&mut entry);

    assert!(entry.id.is_empty());
    assert!(entry.title.is_empty());
    assert!(entry.username.is_empty());
    assert!(entry.password.is_empty());
    assert_eq!(entry.collection, None);
    assert_eq!(entry.url, None);
    assert_eq!(entry.notes, None);
    assert!(entry.tags.is_empty());
    assert!(entry.created_at.is_empty());
    assert!(entry.updated_at.is_empty());
    assert!(entry.revisions.is_empty());
}

#[test]
fn zeroize_entries_empties_the_list() {
    let mut entries = vec![
        create_entry("one", "a", "secret-one"),
        create_entry("two", "b", "secret-two"),
    ];

    zeroize_entries(&mut entries);

    assert!(entries.is_empty());
}

#[test]
fn saved_vault_reopens_only_as_saved_and_refuses_another_password() {
    let meta = VaultMeta {
        name: "Family vault".to_string(),
        created_at: "2026-01-02T03:04:05+00:00".to_string(),
        modified_at: "2026-01-02T03:04:05+00:00".to_string(),
    };
    let entry = create_entry("Bank", "me", "s3cret");
    let bytes = save_vault_bytes("right", &meta, &[entry.clone()]).expect("vault should save");

    let (opened_meta, entries) = open_vault_bytes(&bytes, "right").expect("vault should open");
    assert_eq!(opened_meta, meta);
    assert_eq!(entries.len(), 1);
    assert_eq!(entries[0].id, entry.id);
    assert_eq!(entries[0].password, "s3cret");

    assert!(matches!(
        open_vault_bytes(&bytes, "wrong"),
        Err(VaultError::InvalidPassword)
    ));
}
