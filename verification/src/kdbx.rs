//! Trusted bridge to the `keepass` crate and `chrono` time stamps.
//!
//! Every item here makes one outside call and converts its arguments and result. The
//! outside values (databases, entry ids, time stamps) are opaque to the verified
//! code, which only carries them from one call to the next.
use vstd::prelude::*;

use keepass::config::{DatabaseConfig, InnerCipherConfig, KdfConfig, OuterCipherConfig};
use keepass::db::{DatabaseOpenError, DatabaseSaveError};
use keepass::error::DatabaseKeyError;

use crate::text::unicode_white_space;

verus! {

/// Trusted: the outside type `keepass::Database`, an opened or newly built KDBX database.
#[verifier::external_type_specification]
#[verifier::external_body]
pub struct ExDatabase(keepass::Database);

/// Trusted: the outside type `keepass::db::EntryId`, the UUID of an entry.
#[verifier::external_type_specification]
#[verifier::external_body]
pub struct ExEntryId(keepass::db::EntryId);

/// Trusted: the outside type `keepass::config::DatabaseConfig`.
#[verifier::external_type_specification]
#[verifier::external_body]
pub struct ExDatabaseConfig(keepass::config::DatabaseConfig);

/// Trusted: the outside type `keepass::db::DatabaseOpenError`.
#[verifier::external_type_specification]
#[verifier::external_body]
pub struct ExDatabaseOpenError(keepass::db::DatabaseOpenError);

/// Trusted: the outside type `keepass::db::DatabaseSaveError`.
#[verifier::external_type_specification]
#[verifier::external_body]
pub struct ExDatabaseSaveError(keepass::db::DatabaseSaveError);

/// Trusted: the outside type `chrono::NaiveDateTime`, a time stamp without a zone (UTC here).
#[verifier::external_type_specification]
#[verifier::external_body]
pub struct ExNaiveDateTime(chrono::NaiveDateTime);

/// How opening a database failed, as far as the vault logic distinguishes it.
pub enum OpenFailure {
    /// The key did not decrypt the database.
    IncorrectKey,
    /// Reading the source failed.
    Io(std::io::Error),
    /// Decryption failed, with the library's description.
    Cryptography(String),
    /// The data is not a supported database.
    Malformed,
    /// Any other key problem, with the library's description.
    OtherKey(String),
}

/// How saving a database failed, with the library's description where there is one.
pub enum SaveFailure {
    Io(std::io::Error),
    Cryptography(String),
    Key(String),
    Random(String),
    Other(String),
}

/// What one entry of a database holds, as far as the vault reads and writes it: its string
/// fields, which of them are protected, its tags, and its creation and last-modification
/// times.
pub struct KdbxEntryModel {
    pub fields: Map<Seq<char>, Seq<char>>,
    pub protected: Set<Seq<char>>,
    pub tags: Seq<Seq<char>>,
    pub created: Option<chrono::NaiveDateTime>,
    pub modified: Option<chrono::NaiveDateTime>,
}

/// The database-wide values the vault reads and writes: the database name, and the root
/// group's name and times.
pub struct KdbxHeaderModel {
    pub database_name: Option<Seq<char>>,
    pub root_name: Seq<char>,
    pub root_created: Option<chrono::NaiveDateTime>,
    pub root_modified: Option<chrono::NaiveDateTime>,
}

/// The entries of a database, by id.
pub uninterp spec fn kdbx_entries(db: keepass::Database) -> Map<keepass::db::EntryId, KdbxEntryModel>;

/// The database name and the root group of a database.
pub uninterp spec fn kdbx_header(db: keepass::Database) -> KdbxHeaderModel;

/// The text form of an entry id (the hyphenated lowercase UUID).
pub uninterp spec fn entry_id_text(id: keepass::db::EntryId) -> Seq<char>;

/// The entry id the uuid crate parses from a text.
pub uninterp spec fn parsed_entry_id(text: Seq<char>) -> keepass::db::EntryId;

/// The UTC time stamp chrono parses from an RFC 3339 text.
pub uninterp spec fn rfc3339_parsed(text: Seq<char>) -> chrono::NaiveDateTime;

/// The RFC 3339 text chrono prints for a UTC time stamp.
pub uninterp spec fn rfc3339_of(t: chrono::NaiveDateTime) -> Seq<char>;

/// Whether a text is a UUID in hyphenated lowercase form, the form ids are printed in.
pub open spec fn hyphenated_lowercase_uuid(text: Seq<char>) -> bool {
    &&& text.len() == 36
    &&& forall|i: int|
        0 <= i < 36 ==> if i == 8 || i == 13 || i == 18 || i == 23 {
            #[trigger] text[i] == '-'
        } else {
            ('0' <= text[i] <= '9') || ('a' <= text[i] <= 'f')
        }
}

/// The value of a field of entry `id`, if the entry and the field exist.
pub open spec fn entry_field(es: Map<keepass::db::EntryId, KdbxEntryModel>, id: keepass::db::EntryId, key: Seq<char>) -> Option<Seq<char>> {
    if es.dom().contains(id) && es[id].fields.dom().contains(key) {
        Some(es[id].fields[key])
    } else {
        None
    }
}

/// The entries after setting field `key` of entry `id` to `value`, protected or not; no
/// change when the entry does not exist.
pub open spec fn with_field(
    es: Map<keepass::db::EntryId, KdbxEntryModel>,
    id: keepass::db::EntryId,
    key: Seq<char>,
    value: Seq<char>,
    protect: bool,
) -> Map<keepass::db::EntryId, KdbxEntryModel> {
    if es.dom().contains(id) {
        es.insert(
            id,
            KdbxEntryModel {
                fields: es[id].fields.insert(key, value),
                protected: if protect {
                    es[id].protected.insert(key)
                } else {
                    es[id].protected.remove(key)
                },
                ..es[id]
            },
        )
    } else {
        es
    }
}

/// The entries after setting the tags of entry `id`.
pub open spec fn with_tags(es: Map<keepass::db::EntryId, KdbxEntryModel>, id: keepass::db::EntryId, tags: Seq<Seq<char>>) -> Map<keepass::db::EntryId, KdbxEntryModel> {
    if es.dom().contains(id) {
        es.insert(id, KdbxEntryModel { tags, ..es[id] })
    } else {
        es
    }
}

/// The entries after setting the creation and last-modification times of entry `id`.
pub open spec fn with_times(
    es: Map<keepass::db::EntryId, KdbxEntryModel>,
    id: keepass::db::EntryId,
    created: chrono::NaiveDateTime,
    modified: chrono::NaiveDateTime,
) -> Map<keepass::db::EntryId, KdbxEntryModel> {
    if es.dom().contains(id) {
        es.insert(id, KdbxEntryModel { created: Some(created), modified: Some(modified), ..es[id] })
    } else {
        es
    }
}

/// Whether `after` is `before` with a new, empty entry `id` (no fields, no tags).
pub open spec fn with_new_entry(before: Map<keepass::db::EntryId, KdbxEntryModel>, after: Map<keepass::db::EntryId, KdbxEntryModel>, id: keepass::db::EntryId) -> bool {
    &&& after.dom() == before.dom().insert(id)
    &&& forall|other: keepass::db::EntryId| #[trigger] before.dom().contains(other) && other != id ==> after[other] == before[other]
    &&& after[id].fields == Map::<Seq<char>, Seq<char>>::empty()
    &&& after[id].protected == Set::<Seq<char>>::empty()
    &&& after[id].tags == Seq::<Seq<char>>::empty()
}

/// Whether bytes start with the 12-byte header every KeePass file starts with: the
/// identifier `03 d9 a2 9a` and eight more bytes of signature and version.
pub open spec fn kdbx_identified(bytes: Seq<u8>) -> bool {
    &&& bytes.len() >= 12
    &&& bytes[0] == 0x03u8
    &&& bytes[1] == 0xd9u8
    &&& bytes[2] == 0xa2u8
    &&& bytes[3] == 0x9au8
}

/// Whether identified bytes carry the KeePass 1 (KDB) signature `0xb54bfb65`.
pub open spec fn kdb1_signature(bytes: Seq<u8>) -> bool {
    &&& kdbx_identified(bytes)
    &&& bytes[4] == 0x65u8
    &&& bytes[5] == 0xfbu8
    &&& bytes[6] == 0x4bu8
    &&& bytes[7] == 0xb5u8
}

/// Whether identified bytes carry the KDBX signature `0xb54bfb67` and major version 4.
pub open spec fn kdbx4_signature(bytes: Seq<u8>) -> bool {
    &&& kdbx_identified(bytes)
    &&& bytes[4] == 0x67u8
    &&& bytes[5] == 0xfbu8
    &&& bytes[6] == 0x4bu8
    &&& bytes[7] == 0xb5u8
    &&& bytes[10] == 0x04u8
    &&& bytes[11] == 0x00u8
}

/// What KeePass 2 (KDBX) bytes hold when opened with a password: the entries and header of
/// the database, or `None` when the bytes do not open.
pub uninterp spec fn kdbx_opened(bytes: Seq<u8>, password: Seq<char>) -> Option<(Map<keepass::db::EntryId, KdbxEntryModel>, KdbxHeaderModel)>;

/// Whether KDBX bytes open under some password.
pub open spec fn opens_under_some_password(bytes: Seq<u8>) -> bool {
    exists|q: Seq<char>| #[trigger] kdbx_opened(bytes, q) is Some
}

/// Trusted: `Database::parse` with a password-only `DatabaseKey`, with its error told apart
/// by variant, one arm each. For KDBX input decryption and parsing depend on the bytes and
/// the password alone (every entry keeps the id stored in the file), so what comes out is
/// named `kdbx_opened`; KeePass 1 (KDB) input is not named, since its parser gives every
/// entry a fresh random id. Bytes without the KeePass header fail to parse their version
/// (`VersionParse`, a malformed file). KDBX 4 bytes that open under some password fail
/// under another with `IncorrectKey`: the header's HMAC, checked before the payload, does
/// not match (an HMAC-SHA256 collision is not considered). The other errors are not stated.
#[verifier::external_body]
pub(crate) fn kdbx_parse(bytes: &[u8], password: &str) -> (r: Result<keepass::Database, OpenFailure>)
    ensures
        !kdb1_signature(bytes@) ==> (r is Ok <==> kdbx_opened(bytes@, password@) is Some),
        !kdb1_signature(bytes@) ==> (r matches Ok(db) ==> kdbx_opened(bytes@, password@) == Some((kdbx_entries(db), kdbx_header(db)))),
        !kdbx_identified(bytes@) ==> r matches Err(OpenFailure::Malformed),
        r is Err && kdbx4_signature(bytes@) && opens_under_some_password(bytes@) ==> r matches Err(OpenFailure::IncorrectKey),
{
    match keepass::Database::parse(bytes, keepass::DatabaseKey::new().with_password(password)) {
        Ok(db) => Ok(db),
        Err(DatabaseOpenError::Key(DatabaseKeyError::IncorrectKey)) => Err(OpenFailure::IncorrectKey),
        Err(DatabaseOpenError::Io(e)) => Err(OpenFailure::Io(e)),
        Err(DatabaseOpenError::Cryptography(e)) => Err(OpenFailure::Cryptography(e.to_string())),
        Err(DatabaseOpenError::Key(e)) => Err(OpenFailure::OtherKey(e.to_string())),
        Err(_) => Err(OpenFailure::Malformed),
    }
}

/// Trusted: tells the variants of `DatabaseSaveError` apart, one arm each, keeping the
/// library's description.
#[verifier::external_body]
pub(crate) fn classify_save_error(error: keepass::db::DatabaseSaveError) -> (r: SaveFailure) {
    match error {
        DatabaseSaveError::Io(e) => SaveFailure::Io(e),
        DatabaseSaveError::Cryptography(e) => SaveFailure::Cryptography(e.to_string()),
        DatabaseSaveError::Key(e) => SaveFailure::Key(e.to_string()),
        DatabaseSaveError::Random(e) => SaveFailure::Random(e.to_string()),
        other => SaveFailure::Other(other.to_string()),
    }
}

/// Trusted: `db.meta.database_name`, cloned.
#[verifier::external_body]
pub(crate) fn kdbx_database_name(db: &keepass::Database) -> (r: Option<String>)
    ensures
        crate::text::opt_view(r) == kdbx_header(*db).database_name,
{
    db.meta.database_name.clone()
}

/// Trusted: the root group's `name`, cloned.
#[verifier::external_body]
pub(crate) fn kdbx_root_name(db: &keepass::Database) -> (r: String)
    ensures
        r@ == kdbx_header(*db).root_name,
{
    db.root().name.clone()
}

/// Trusted: the root group's creation and last-modification times.
#[verifier::external_body]
pub(crate) fn kdbx_root_times(db: &keepass::Database) -> (r: (Option<chrono::NaiveDateTime>, Option<chrono::NaiveDateTime>))
    ensures
        r.0 == kdbx_header(*db).root_created,
        r.1 == kdbx_header(*db).root_modified,
{
    let root = db.root();
    (root.times.creation, root.times.last_modification)
}

/// Trusted: the ids of all entries, from `Database::iter_all_entries`: each entry once. The
/// database keeps its entries in a hash map, so their order is not stated.
#[verifier::external_body]
pub(crate) fn kdbx_entry_ids(db: &keepass::Database) -> (r: Vec<keepass::db::EntryId>)
    ensures
        r@.no_duplicates(),
        forall|id: keepass::db::EntryId| kdbx_entries(*db).dom().contains(id) <==> #[trigger] r@.contains(id),
{
    db.iter_all_entries().map(|entry| entry.id()).collect()
}

/// Trusted: `<EntryId as Display>::to_string`, the entry's UUID in hyphenated text form.
#[verifier::external_body]
pub(crate) fn kdbx_entry_id_text(id: &keepass::db::EntryId) -> (r: String)
    ensures
        r@ == entry_id_text(*id),
{
    id.to_string()
}

/// Trusted: `Entry::get(key)` on the entry with id `id`, cloned; `None` when the entry or
/// the field is absent.
#[verifier::external_body]
pub(crate) fn kdbx_entry_field(db: &keepass::Database, id: &keepass::db::EntryId, key: &str) -> (r: Option<String>)
    ensures
        crate::text::opt_view(r) == entry_field(kdbx_entries(*db), *id, key@),
{
    db.entry(*id).and_then(|entry| entry.get(key).map(str::to_string))
}

/// Trusted: the entry's `tags`, cloned; empty when the entry is absent.
#[verifier::external_body]
pub(crate) fn kdbx_entry_tags(db: &keepass::Database, id: &keepass::db::EntryId) -> (r: Vec<String>)
    ensures
        kdbx_entries(*db).dom().contains(*id) ==> crate::text::strings_view(r@) == kdbx_entries(*db)[*id].tags,
        !kdbx_entries(*db).dom().contains(*id) ==> r@.len() == 0,
{
    db.entry(*id).map(|entry| entry.tags.clone()).unwrap_or_default()
}

/// Trusted: the entry's creation and last-modification times; `None` when absent.
#[verifier::external_body]
pub(crate) fn kdbx_entry_times(db: &keepass::Database, id: &keepass::db::EntryId) -> (r: (Option<chrono::NaiveDateTime>, Option<chrono::NaiveDateTime>))
    ensures
        kdbx_entries(*db).dom().contains(*id) ==> r.0 == kdbx_entries(*db)[*id].created && r.1 == kdbx_entries(*db)[*id].modified,
        !kdbx_entries(*db).dom().contains(*id) ==> r.0 is None && r.1 is None,
{
    db.entry(*id).map(|entry| (entry.times.creation, entry.times.last_modification)).unwrap_or((None, None))
}

/// Trusted: `DateTime::<Utc>::from_naive_utc_and_offset(t, Utc).to_rfc3339()`, the time
/// stamp as RFC 3339 text in UTC.
#[verifier::external_body]
pub(crate) fn naive_to_rfc3339(t: &chrono::NaiveDateTime) -> (r: String)
    ensures
        r@ == rfc3339_of(*t),
{
    chrono::DateTime::<chrono::Utc>::from_naive_utc_and_offset(*t, chrono::Utc).to_rfc3339()
}

/// Whether chrono accepts a text as an RFC 3339 date and time.
pub uninterp spec fn spec_rfc3339_parses(text: Seq<char>) -> bool;

/// Whether the uuid crate accepts a text as a UUID.
pub uninterp spec fn spec_uuid_parses(text: Seq<char>) -> bool;

/// Trusted: `DateTime::parse_from_rfc3339(text)` converted to a UTC naive time stamp; the
/// error is chrono's description. Success depends on the text alone, named
/// `spec_rfc3339_parses`.
#[verifier::external_body]
pub(crate) fn parse_rfc3339_utc(text: &str) -> (r: Result<chrono::NaiveDateTime, String>)
    ensures
        r is Ok <==> spec_rfc3339_parses(text@),
        r matches Ok(t) ==> t == rfc3339_parsed(text@),
{
    chrono::DateTime::parse_from_rfc3339(text).map(|t| t.naive_utc()).map_err(|e| e.to_string())
}

/// The outer ciphers a KDBX 4 database can be encrypted with.
#[derive(Clone, Copy, PartialEq, Eq, Structural)]
pub enum OuterCipher {
    Aes256,
    Twofish,
    ChaCha20,
}

/// The ciphers protected fields inside a KDBX 4 database can be encrypted with.
#[derive(Clone, Copy, PartialEq, Eq, Structural)]
pub enum InnerCipher {
    Plain,
    Salsa20,
    ChaCha20,
}

/// The `DatabaseConfig` that [`kdbx_config`] builds from its arguments.
pub uninterp spec fn kdbx_configured(outer: OuterCipher, inner: InnerCipher, iterations: u64, memory: u64, parallelism: u32) -> keepass::config::DatabaseConfig;

/// Trusted: a default `DatabaseConfig` with the given outer and inner ciphers and Argon2id
/// key derivation with the given iterations, memory (bytes) and parallelism, keeping the
/// default Argon2 version. `DatabaseConfig::default` is a fixed value, so the configuration
/// depends on the arguments alone and is named `kdbx_configured`; its fields are not restated.
#[verifier::external_body]
pub(crate) fn kdbx_config(outer: OuterCipher, inner: InnerCipher, iterations: u64, memory: u64, parallelism: u32) -> (r: keepass::config::DatabaseConfig)
    ensures
        r == kdbx_configured(outer, inner, iterations, memory, parallelism),
{
    let mut config = DatabaseConfig::default();
    config.outer_cipher_config = match outer {
        OuterCipher::Aes256 => OuterCipherConfig::AES256,
        OuterCipher::Twofish => OuterCipherConfig::Twofish,
        OuterCipher::ChaCha20 => OuterCipherConfig::ChaCha20,
    };
    config.inner_cipher_config = match inner {
        InnerCipher::Plain => InnerCipherConfig::Plain,
        InnerCipher::Salsa20 => InnerCipherConfig::Salsa20,
        InnerCipher::ChaCha20 => InnerCipherConfig::ChaCha20,
    };
    if let KdfConfig::Argon2 { version, .. } | KdfConfig::Argon2id { version, .. } = &config.kdf_config {
        config.kdf_config = KdfConfig::Argon2id { iterations, memory, parallelism, version: *version };
    }
    config
}

/// Trusted: `Database::with_config`, an empty database with a fresh root group.
#[verifier::external_body]
pub(crate) fn kdbx_new(config: keepass::config::DatabaseConfig) -> (r: keepass::Database)
    ensures
        kdbx_entries(r).dom().is_empty(),
        kdbx_header(r).database_name is None,
        kdbx_header(r).root_name == Seq::<char>::empty(),
{
    keepass::Database::with_config(config)
}

/// Trusted: sets `meta.generator`, `meta.database_name`, and both `database_name_changed` and
/// `settings_changed` to `changed`.
#[verifier::external_body]
pub(crate) fn kdbx_set_meta(db: &mut keepass::Database, generator: String, name: String, changed: chrono::NaiveDateTime)
    ensures
        kdbx_entries(*final(db)) == kdbx_entries(*old(db)),
        kdbx_header(*final(db)) == (KdbxHeaderModel { database_name: Some(name@), ..kdbx_header(*old(db)) }),
{
    db.meta.generator = Some(generator);
    db.meta.database_name = Some(name);
    db.meta.database_name_changed = Some(changed);
    db.meta.settings_changed = Some(changed);
}

/// Trusted: sets the root group's name, creation and last-modification times.
#[verifier::external_body]
pub(crate) fn kdbx_set_root(db: &mut keepass::Database, name: String, created: chrono::NaiveDateTime, modified: chrono::NaiveDateTime)
    ensures
        kdbx_entries(*final(db)) == kdbx_entries(*old(db)),
        kdbx_header(*final(db)) == (KdbxHeaderModel { root_name: name@, root_created: Some(created), root_modified: Some(modified), ..kdbx_header(*old(db)) }),
{
    let mut root = db.root_mut();
    root.name = name;
    root.times.creation = Some(created);
    root.times.last_modification = Some(modified);
}

/// Trusted: `Uuid::parse_str` turned into an `EntryId`; the error is uuid's description.
/// Success depends on the text alone, named `spec_uuid_parses`; the id is named
/// `parsed_entry_id`. An id parsed from its own hyphenated lowercase form prints as that
/// text again. The parser accepts every hyphenated UUID, and only ASCII texts of 32
/// (simple), 36 (hyphenated), 38 (braced) or 45 (URN) characters.
#[verifier::external_body]
pub(crate) fn parse_entry_id(text: &str) -> (r: Result<keepass::db::EntryId, String>)
    ensures
        r is Ok <==> spec_uuid_parses(text@),
        r matches Ok(id) ==> id == parsed_entry_id(text@),
        r matches Ok(id) ==> (hyphenated_lowercase_uuid(text@) ==> entry_id_text(id) == text@),
        hyphenated_lowercase_uuid(text@) ==> r is Ok,
        r is Ok ==> (text@.len() == 32 || text@.len() == 36 || text@.len() == 38 || text@.len() == 45),
{
    uuid::Uuid::parse_str(text).map(keepass::db::EntryId::from).map_err(|e| e.to_string())
}

/// Trusted: `root_mut().add_entry_with_id(id)`: refused exactly when an entry with that id
/// exists (the error is its description); otherwise a new entry with no fields and no tags.
/// Its times are the current time, which is not stated.
#[verifier::external_body]
pub(crate) fn kdbx_add_entry(db: &mut keepass::Database, id: keepass::db::EntryId) -> (r: Result<(), String>)
    ensures
        r is Ok <==> !kdbx_entries(*old(db)).dom().contains(id),
        r is Ok ==> with_new_entry(kdbx_entries(*old(db)), kdbx_entries(*final(db)), id),
        r is Err ==> kdbx_entries(*final(db)) == kdbx_entries(*old(db)),
        kdbx_header(*final(db)) == kdbx_header(*old(db)),
{
    db.root_mut().add_entry_with_id(id).map(|_| ()).map_err(|e| e.to_string())
}

/// Trusted: `Entry::set_unprotected(key, value)` on the entry with id `id`.
#[verifier::external_body]
pub(crate) fn kdbx_set_unprotected(db: &mut keepass::Database, id: keepass::db::EntryId, key: &str, value: String)
    ensures
        kdbx_entries(*final(db)) == with_field(kdbx_entries(*old(db)), id, key@, value@, false),
        kdbx_header(*final(db)) == kdbx_header(*old(db)),
{
    if let Some(mut entry) = db.entry_mut(id) {
        entry.set_unprotected(key, value);
    }
}

/// Trusted: `Entry::set_protected(key, value)` on the entry with id `id`.
#[verifier::external_body]
pub(crate) fn kdbx_set_protected(db: &mut keepass::Database, id: keepass::db::EntryId, key: &str, value: String)
    ensures
        kdbx_entries(*final(db)) == with_field(kdbx_entries(*old(db)), id, key@, value@, true),
        kdbx_header(*final(db)) == kdbx_header(*old(db)),
{
    if let Some(mut entry) = db.entry_mut(id) {
        entry.set_protected(key, value);
    }
}

/// Trusted: sets the `tags` of the entry with id `id`.
#[verifier::external_body]
pub(crate) fn kdbx_set_tags(db: &mut keepass::Database, id: keepass::db::EntryId, tags: Vec<String>)
    ensures
        kdbx_entries(*final(db)) == with_tags(kdbx_entries(*old(db)), id, crate::text::strings_view(tags@)),
        kdbx_header(*final(db)) == kdbx_header(*old(db)),
{
    if let Some(mut entry) = db.entry_mut(id) {
        entry.tags = tags;
    }
}

/// Trusted: sets the creation, last-modification, last-access and location-changed times of
/// the entry with id `id`.
#[verifier::external_body]
pub(crate) fn kdbx_set_times(db: &mut keepass::Database, id: keepass::db::EntryId, created: chrono::NaiveDateTime, modified: chrono::NaiveDateTime)
    ensures
        kdbx_entries(*final(db)) == with_times(kdbx_entries(*old(db)), id, created, modified),
        kdbx_header(*final(db)) == kdbx_header(*old(db)),
{
    if let Some(mut entry) = db.entry_mut(id) {
        entry.times.creation = Some(created);
        entry.times.last_modification = Some(modified);
        entry.times.last_access = Some(modified);
        entry.times.location_changed = Some(created);
    }
}

/// Whether a text holds no control character but tab and line feed (the XML reader turns
/// a carriage return into a line feed).
pub open spec fn xml_plain_text(s: Seq<char>) -> bool {
    forall|i: int| 0 <= i < s.len() ==> #[trigger] s[i] == '\t' || s[i] == '\n' || (s[i] as int) >= 0x20
}

/// Whether a text holds only white space (the empty text does).
pub open spec fn blank_text(s: Seq<char>) -> bool {
    forall|i: int| 0 <= i < s.len() ==> unicode_white_space(#[trigger] s[i])
}

/// Whether an unprotected field value reads back from a KDBX file as written: plain, and
/// empty or not blank (a blank value reads back empty).
pub open spec fn kdbx_text_survives(s: Seq<char>) -> bool {
    xml_plain_text(s) && (s.len() == 0 || !blank_text(s))
}

/// Whether a name (a field key, a database or group name) reads back as written: plain and
/// not blank.
pub open spec fn kdbx_name_survives(s: Seq<char>) -> bool {
    xml_plain_text(s) && !blank_text(s)
}

/// Whether a tag reads back as written: tags are stored joined by `;` and read back split on
/// `;`, `,` and tab with white space trimmed, so a tag survives when it is plain, not empty,
/// holds no separator and neither starts nor ends with white space.
pub open spec fn kdbx_tag_survives(t: Seq<char>) -> bool {
    &&& xml_plain_text(t)
    &&& t.len() > 0
    &&& !unicode_white_space(t[0])
    &&& !unicode_white_space(t.last())
    &&& forall|i: int| 0 <= i < t.len() ==> #[trigger] t[i] != ';' && t[i] != ',' && t[i] != '\t'
}

/// Whether what the model holds of an entry reads back from a KDBX file as written: every
/// field key, every unprotected value and every tag survives.
pub open spec fn kdbx_entry_survives(m: KdbxEntryModel) -> bool {
    &&& forall|k: Seq<char>| #[trigger] m.fields.dom().contains(k) ==> kdbx_name_survives(k) && (
        m.protected.contains(k) || kdbx_text_survives(m.fields[k]))
    &&& forall|i: int| 0 <= i < m.tags.len() ==> kdbx_tag_survives(#[trigger] m.tags[i])
}

/// Whether what the model holds of a database reads back from a KDBX file as written.
pub open spec fn kdbx_database_survives(es: Map<keepass::db::EntryId, KdbxEntryModel>, h: KdbxHeaderModel) -> bool {
    &&& forall|id: keepass::db::EntryId| #[trigger] es.dom().contains(id) ==> kdbx_entry_survives(es[id])
    &&& h.database_name matches Some(n) ==> kdbx_name_survives(n)
    &&& kdbx_name_survives(h.root_name)
}

/// The time a KDBX 4 file keeps of `t`: whole seconds counted from 0001-01-01.
pub uninterp spec fn kdbx_whole_seconds(t: chrono::NaiveDateTime) -> chrono::NaiveDateTime;

/// An optional time as a KDBX 4 file keeps it.
pub open spec fn kdbx_stored_time(t: Option<chrono::NaiveDateTime>) -> Option<chrono::NaiveDateTime> {
    match t {
        Some(t) => Some(kdbx_whole_seconds(t)),
        None => None,
    }
}

/// Whether entry `m2` is what reading back entry `m` gives: the same fields, with the same
/// ones protected, the same tags, and the times kept to the second.
pub open spec fn kdbx_entry_reloads_as(m: KdbxEntryModel, m2: KdbxEntryModel) -> bool {
    &&& m2.fields == m.fields
    &&& forall|k: Seq<char>| #[trigger] m.fields.dom().contains(k) ==> (m2.protected.contains(k) <==> m.protected.contains(k))
    &&& m2.tags == m.tags
    &&& m2.created == kdbx_stored_time(m.created)
    &&& m2.modified == kdbx_stored_time(m.modified)
}

/// Whether `bytes` open under `password` to the database with entries `es` and header `h`,
/// as far as a KDBX 4 file keeps them.
pub open spec fn kdbx_reopens_as(
    bytes: Seq<u8>,
    password: Seq<char>,
    es: Map<keepass::db::EntryId, KdbxEntryModel>,
    h: KdbxHeaderModel,
) -> bool {
    &&& kdbx_opened(bytes, password) matches Some((es2, h2))
    &&& es2.dom() == es.dom()
    &&& forall|id: keepass::db::EntryId| #[trigger] es.dom().contains(id) ==> kdbx_entry_reloads_as(es[id], es2[id])
    &&& h2.database_name == h.database_name
    &&& h2.root_name == h.root_name
    &&& h2.root_created == kdbx_stored_time(h.root_created)
    &&& h2.root_modified == kdbx_stored_time(h.root_modified)
}

/// Whether `bytes` are a KDBX 4 file that keepass writes for a database with the given
/// entries and header under a password-only key made from `password`, for some choice of
/// the random seeds, salts and nonces the writer draws.
pub uninterp spec fn kdbx_saved_as(
    bytes: Seq<u8>,
    entries: Map<keepass::db::EntryId, KdbxEntryModel>,
    header: KdbxHeaderModel,
    password: Seq<char>,
) -> bool;

/// Trusted: `Database::save` into a byte buffer with a password-only key. Encryption draws
/// fresh random seeds, so which bytes come out is not stated; what holds of every success:
/// the bytes are a file written for this database under this password (named
/// `kdbx_saved_as`), and they start with the KDBX 4 header (the writer refuses every other
/// version and writes the identifier, signature and major version 4 first). Parsing them
/// under the same password decrypts what was encrypted and reads the XML back: entry ids
/// and field keys are stored as written, protected values as encrypted UTF-8; an
/// unprotected value, a name or a tag comes back as written when it survives the XML
/// reader (`kdbx_text_survives`, `kdbx_name_survives`, `kdbx_tag_survives`: the reader turns
/// carriage returns into line feeds, reads blank values as empty, and splits and trims
/// tags); times are stored as whole seconds (`timestamp.rs`). For a database whose texts
/// survive, the bytes therefore reopen to it (`kdbx_reopens_as`); other parts of the
/// database (icons, history, custom data) are not stated.
#[verifier::external_body]
pub(crate) fn kdbx_save(db: &keepass::Database, password: &str) -> (r: Result<Vec<u8>, keepass::db::DatabaseSaveError>)
    ensures
        r matches Ok(bytes) ==> kdbx_saved_as(bytes@, kdbx_entries(*db), kdbx_header(*db), password@),
        r matches Ok(bytes) ==> kdbx4_signature(bytes@),
        r matches Ok(bytes) ==> (kdbx_database_survives(kdbx_entries(*db), kdbx_header(*db)) ==> kdbx_reopens_as(
            bytes@,
            password@,
            kdbx_entries(*db),
            kdbx_header(*db),
        )),
        r matches Ok(bytes) ==> (kdbx_database_survives(kdbx_entries(*db), kdbx_header(*db)) ==> (kdbx_header(*db).root_created matches Some(t) ==> (kdbx_opened(bytes@, password@) matches Some((es2, h2)) && h2.root_created == Some(kdbx_whole_seconds(t))))),
{
    let mut bytes = Vec::new();
    db.save(&mut bytes, keepass::DatabaseKey::new().with_password(password)).map(|()| bytes)
}

} // verus!
