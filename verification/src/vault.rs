//! KDBX 4 persistence of a vault: entries and metadata to and from encrypted bytes.
//!
//! Arca pins the KDBX parameters: Argon2id key derivation (128 MiB, 3 iterations,
//! parallelism 4) and ChaCha20 as both outer and inner cipher. The revision history of an
//! entry is kept as JSON in the protected `ArcaRevisions` field.
use vstd::prelude::*;

use crate::clock::now_rfc3339;
use crate::error::VaultError;
use crate::history::{decode_revisions, encode_revisions, is_malformed_revisions_error, stored_history_reads_back};
use crate::json::json_decoded;
use crate::history::{history_json, revisions_from_text};
use crate::kdbx::{
    entry_id_text, hyphenated_lowercase_uuid, kdbx_entries, kdbx_opened, kdbx_saved_as, kdbx_database_survives, kdbx_reopens_as, kdbx_entry_survives, kdbx_text_survives, kdbx_name_survives, kdbx_tag_survives, kdbx_whole_seconds, kdbx_entry_reloads_as, kdbx_stored_time, kdb1_signature, kdbx4_signature, kdbx_identified, opens_under_some_password, kdbx_header, parsed_entry_id,
    rfc3339_of, rfc3339_parsed, KdbxEntryModel, KdbxHeaderModel,
    classify_save_error, kdbx_add_entry, kdbx_config, kdbx_configured, kdbx_database_name,
    kdbx_entry_field, kdbx_entry_id_text, kdbx_entry_ids, kdbx_entry_tags, kdbx_entry_times,
    kdbx_new, kdbx_parse, kdbx_root_name, kdbx_root_times, kdbx_save, kdbx_set_meta,
    kdbx_set_protected, kdbx_set_root, kdbx_set_tags, kdbx_set_times, kdbx_set_unprotected,
    naive_to_rfc3339, parse_entry_id, parse_rfc3339_utc, spec_rfc3339_parses, spec_uuid_parses,
    InnerCipher, OpenFailure, OuterCipher, SaveFailure,
};
use crate::text::{copy_string, copy_strings, opt_view, strings_view, unicode_white_space};
use crate::types::{entries_view, revisions_view, EntryModel, EntryRevision, MetaModel, RevisionModel, VaultEntry, VaultMeta};

verus! {

pub const FIELD_TITLE: &'static str = "Title";

pub const FIELD_USERNAME: &'static str = "UserName";

pub const FIELD_PASSWORD: &'static str = "Password";

pub const FIELD_COLLECTION: &'static str = "ArcaCollection";

pub const FIELD_URL: &'static str = "URL";

pub const FIELD_NOTES: &'static str = "Notes";

pub const FIELD_REVISIONS: &'static str = "ArcaRevisions";

pub const ARGON2_ITERATIONS: u64 = 3;

pub const ARGON2_MEMORY_BYTES: u64 = 134_217_728;

pub const ARGON2_PARALLELISM: u32 = 4;

pub const GENERATOR_NAME: &'static str = "Arca vault-core";

/// The fields of one stored entry as read from the database, before interpretation.
pub struct KdbxEntryRecord {
    pub id: String,
    pub title: Option<String>,
    pub username: Option<String>,
    pub password: Option<String>,
    pub collection: Option<String>,
    pub url: Option<String>,
    pub notes: Option<String>,
    pub tags: Vec<String>,
    pub created_at: Option<String>,
    pub updated_at: Option<String>,
}

/// A stored optional field: absent or empty text reads as no value.
pub open spec fn nonempty_opt(o: Option<Seq<char>>) -> Option<Seq<char>> {
    match o {
        Some(s) => if s.len() > 0 {
            Some(s)
        } else {
            None
        },
        None => None,
    }
}

/// The text of an optional field, or the empty text.
pub open spec fn or_empty(o: Option<Seq<char>>) -> Seq<char> {
    match o {
        Some(s) => s,
        None => Seq::empty(),
    }
}

/// The text of an optional field, or `fallback`.
pub open spec fn or_else(o: Option<Seq<char>>, fallback: Seq<char>) -> Seq<char> {
    match o {
        Some(s) => s,
        None => fallback,
    }
}

/// Keeps a stored optional field only when it holds text.
pub fn optional_string(value: Option<String>) -> (r: Option<String>)
    ensures
        opt_view(r) == nonempty_opt(opt_view(value)),
{
    match value {
        Some(text) => if text.as_str().unicode_len() > 0 {
            Some(text)
        } else {
            None
        },
        None => None,
    }
}

fn text_or_empty(value: Option<String>) -> (r: String)
    ensures
        r@ == or_empty(opt_view(value)),
{
    match value {
        Some(text) => text,
        None => String::new(),
    }
}

fn text_or(value: Option<String>, fallback: &String) -> (r: String)
    ensures
        r@ == or_else(opt_view(value), fallback@),
{
    match value {
        Some(text) => text,
        None => copy_string(fallback),
    }
}

/// Vault metadata from the database's name, the root group's name and its time stamps
/// (already as RFC 3339 text): the database name when set, else the root group's name; a
/// missing time stamp reads as `now`.
pub fn meta_from_parts(
    database_name: Option<String>,
    root_name: String,
    created_at: Option<String>,
    modified_at: Option<String>,
    now: String,
) -> (r: VaultMeta)
    ensures
        r@ == (MetaModel {
            name: or_else(opt_view(database_name), root_name@),
            created_at: or_else(opt_view(created_at), now@),
            modified_at: or_else(opt_view(modified_at), now@),
        }),
{
    VaultMeta {
        name: text_or(database_name, &root_name),
        created_at: text_or(created_at, &now),
        modified_at: text_or(modified_at, &now),
    }
}

/// The entry stored in `record`: missing title, username or password read as empty text,
/// empty optional fields as no value, and missing time stamps as `now`.
pub open spec fn entry_of_record(
    record: KdbxEntryRecord,
    revisions: Seq<crate::types::RevisionModel>,
    now: Seq<char>,
) -> crate::types::EntryModel {
    crate::types::EntryModel {
        id: record.id@,
        title: or_empty(opt_view(record.title)),
        username: or_empty(opt_view(record.username)),
        password: or_empty(opt_view(record.password)),
        collection: nonempty_opt(opt_view(record.collection)),
        url: nonempty_opt(opt_view(record.url)),
        notes: nonempty_opt(opt_view(record.notes)),
        tags: strings_view(record.tags@),
        created_at: or_else(opt_view(record.created_at), now),
        updated_at: or_else(opt_view(record.updated_at), now),
        revisions,
    }
}

/// Builds the entry stored in `record` with its decoded revision history.
pub fn entry_from_record(record: KdbxEntryRecord, revisions: Vec<EntryRevision>, now: &String) -> (r:
    VaultEntry)
    ensures
        r@ == entry_of_record(record, crate::types::revisions_view(revisions@), now@),
{
    VaultEntry {
        id: record.id,
        title: text_or_empty(record.title),
        username: text_or_empty(record.username),
        password: text_or_empty(record.password),
        collection: optional_string(record.collection),
        url: optional_string(record.url),
        notes: optional_string(record.notes),
        tags: record.tags,
        created_at: text_or(record.created_at, now),
        updated_at: text_or(record.updated_at, now),
        revisions,
    }
}

/// The error for a database that did not open, by failure kind.
pub fn map_open_error(failure: OpenFailure) -> (e: VaultError)
    ensures
        failure is IncorrectKey ==> e is InvalidPassword,
        failure is Io ==> e is IoError,
        failure matches OpenFailure::Cryptography(m) ==> e matches VaultError::DecryptionError(d)
            && d@ == m@,
        failure is Malformed ==> e is CorruptedVault,
        failure matches OpenFailure::OtherKey(m) ==> e matches VaultError::DecryptionError(d)
            && d@ == m@,
{
    match failure {
        OpenFailure::IncorrectKey => VaultError::InvalidPassword,
        OpenFailure::Io(error) => VaultError::IoError(error),
        OpenFailure::Cryptography(message) => VaultError::DecryptionError(message),
        OpenFailure::Malformed => VaultError::CorruptedVault,
        OpenFailure::OtherKey(message) => VaultError::DecryptionError(message),
    }
}

/// The error for a database that did not save, by failure kind.
pub fn map_save_error(failure: SaveFailure) -> (e: VaultError)
    ensures
        failure is Io ==> e is IoError,
        failure matches SaveFailure::Cryptography(m) ==> e matches VaultError::EncryptionError(d)
            && d@ == m@,
        failure matches SaveFailure::Key(m) ==> e matches VaultError::EncryptionError(d) && d@
            == m@,
        failure matches SaveFailure::Random(m) ==> e matches VaultError::EncryptionError(d) && d@
            == m@,
        failure matches SaveFailure::Other(m) ==> e matches VaultError::SerializationError(d)
            && d@ == m@,
{
    match failure {
        SaveFailure::Io(error) => VaultError::IoError(error),
        SaveFailure::Cryptography(message) => VaultError::EncryptionError(message),
        SaveFailure::Key(message) => VaultError::EncryptionError(message),
        SaveFailure::Random(message) => VaultError::EncryptionError(message),
        SaveFailure::Other(message) => VaultError::SerializationError(message),
    }
}

/// Whether an entry's optional fields hold text whenever they are set, as every entry read
/// from a vault does.
pub open spec fn optional_fields_nonempty(e: crate::types::EntryModel) -> bool {
    &&& e.collection matches Some(c) ==> c.len() > 0
    &&& e.url matches Some(u) ==> u.len() > 0
    &&& e.notes matches Some(n) ==> n.len() > 0
}

/// The errors the KDBX library reports for bytes that do not open.
pub open spec fn is_kdbx_open_error(e: VaultError) -> bool {
    ||| e is InvalidPassword
    ||| e is IoError
    ||| e is DecryptionError
    ||| e is CorruptedVault
}

/// The kinds of error that opening vault bytes can report.
pub open spec fn is_open_error(e: VaultError) -> bool {
    is_kdbx_open_error(e) || is_malformed_revisions_error(e)
}

/// The value of field `key` of a stored entry.
pub open spec fn stored_field(m: KdbxEntryModel, key: Seq<char>) -> Option<Seq<char>> {
    if m.fields.dom().contains(key) {
        Some(m.fields[key])
    } else {
        None
    }
}

/// The RFC 3339 text of an optional time stamp.
pub open spec fn time_text(t: Option<chrono::NaiveDateTime>) -> Option<Seq<char>> {
    match t {
        Some(t) => Some(rfc3339_of(t)),
        None => None,
    }
}

/// Whether `record` holds the raw fields of stored entry `m` with id `id`.
pub open spec fn is_record_of(record: KdbxEntryRecord, m: KdbxEntryModel, id: keepass::db::EntryId) -> bool {
    &&& record.id@ == entry_id_text(id)
    &&& opt_view(record.title) == stored_field(m, FIELD_TITLE@)
    &&& opt_view(record.username) == stored_field(m, FIELD_USERNAME@)
    &&& opt_view(record.password) == stored_field(m, FIELD_PASSWORD@)
    &&& opt_view(record.collection) == stored_field(m, FIELD_COLLECTION@)
    &&& opt_view(record.url) == stored_field(m, FIELD_URL@)
    &&& opt_view(record.notes) == stored_field(m, FIELD_NOTES@)
    &&& strings_view(record.tags@) == m.tags
    &&& opt_view(record.created_at) == time_text(m.created)
    &&& opt_view(record.updated_at) == time_text(m.modified)
}

/// Whether the revision history stored in an entry can be read: it has none, or its
/// `ArcaRevisions` field decodes.
pub open spec fn history_readable(m: KdbxEntryModel) -> bool {
    stored_field(m, FIELD_REVISIONS@) matches Some(t) ==> revisions_from_text(t) is Some
}

/// The revision history stored in an entry: none without an `ArcaRevisions` field.
pub open spec fn stored_history(m: KdbxEntryModel) -> Seq<RevisionModel> {
    match stored_field(m, FIELD_REVISIONS@) {
        Some(t) => match revisions_from_text(t) {
            Some(revisions) => revisions,
            None => Seq::empty(),
        },
        None => Seq::empty(),
    }
}

/// Whether `e` is how stored entry `m` with id `id` reads: the id's text; title, username
/// and password, or empty text; the optional fields when they hold text; the tags; the
/// stored times as RFC 3339 text (a missing one reads as the time of reading, the same for
/// both; either way a text chrono printed for a UTC time stamp); and the decoded revision
/// history.
pub open spec fn is_read_as(m: KdbxEntryModel, id: keepass::db::EntryId, e: EntryModel) -> bool {
    &&& e.id == entry_id_text(id)
    &&& e.title == or_empty(stored_field(m, FIELD_TITLE@))
    &&& e.username == or_empty(stored_field(m, FIELD_USERNAME@))
    &&& e.password == or_empty(stored_field(m, FIELD_PASSWORD@))
    &&& e.collection == nonempty_opt(stored_field(m, FIELD_COLLECTION@))
    &&& e.url == nonempty_opt(stored_field(m, FIELD_URL@))
    &&& e.notes == nonempty_opt(stored_field(m, FIELD_NOTES@))
    &&& e.tags == m.tags
    &&& m.created matches Some(t) ==> e.created_at == rfc3339_of(t)
    &&& m.modified matches Some(t) ==> e.updated_at == rfc3339_of(t)
    &&& m.created is None && m.modified is None ==> e.created_at == e.updated_at
    &&& exists|t: chrono::NaiveDateTime| e.created_at == rfc3339_of(t)
    &&& exists|t: chrono::NaiveDateTime| e.updated_at == rfc3339_of(t)
    &&& e.revisions == stored_history(m)
}

/// Whether every stored entry's revision history can be read.
pub open spec fn histories_readable(es: Map<keepass::db::EntryId, KdbxEntryModel>) -> bool {
    forall|id: keepass::db::EntryId| #[trigger] es.dom().contains(id) ==> history_readable(es[id])
}

/// Whether `read` holds every stored entry once, in the order `ids`, each read as
/// [`is_read_as`] describes.
pub open spec fn reads_entries(
    es: Map<keepass::db::EntryId, KdbxEntryModel>,
    ids: Seq<keepass::db::EntryId>,
    read: Seq<EntryModel>,
) -> bool {
    &&& ids.no_duplicates()
    &&& ids.len() == read.len()
    &&& forall|id: keepass::db::EntryId| es.dom().contains(id) <==> #[trigger] ids.contains(id)
    &&& forall|i: int| 0 <= i < ids.len() ==> is_read_as(es[ids[i]], ids[i], #[trigger] read[i])
}

/// Whether `read` holds every stored entry once, in some order, each read as
/// [`is_read_as`] describes.
pub open spec fn entries_read_from(es: Map<keepass::db::EntryId, KdbxEntryModel>, read: Seq<EntryModel>) -> bool {
    exists|ids: Seq<keepass::db::EntryId>| #[trigger] reads_entries(es, ids, read)
}

/// Whether `meta` is how a database header reads: the database name, else the root group's
/// name; the root group's times as RFC 3339 text (a missing one reads as the time of
/// reading, the same for both).
pub open spec fn reads_meta(h: KdbxHeaderModel, meta: MetaModel) -> bool {
    &&& meta.name == or_else(h.database_name, h.root_name)
    &&& h.root_created matches Some(t) ==> meta.created_at == rfc3339_of(t)
    &&& h.root_modified matches Some(t) ==> meta.modified_at == rfc3339_of(t)
    &&& h.root_created is None && h.root_modified is None ==> meta.created_at == meta.modified_at
    &&& exists|t: chrono::NaiveDateTime| meta.created_at == rfc3339_of(t)
    &&& exists|t: chrono::NaiveDateTime| meta.modified_at == rfc3339_of(t)
}

fn time_text_of(t: Option<chrono::NaiveDateTime>) -> (r: Option<String>)
    ensures
        opt_view(r) == time_text(t),
{
    match t {
        Some(t) => Some(naive_to_rfc3339(&t)),
        None => None,
    }
}

/// Reads the raw fields of the entry with id `id`, and its `ArcaRevisions` field.
fn read_entry_record(db: &keepass::Database, id: &keepass::db::EntryId) -> (r: (KdbxEntryRecord, Option<String>))
    requires
        kdbx_entries(*db).dom().contains(*id),
    ensures
        is_record_of(r.0, kdbx_entries(*db)[*id], *id),
        opt_view(r.1) == stored_field(kdbx_entries(*db)[*id], FIELD_REVISIONS@),
{
    let (created, modified) = kdbx_entry_times(db, id);
    let record = KdbxEntryRecord {
        id: kdbx_entry_id_text(id),
        title: kdbx_entry_field(db, id, FIELD_TITLE),
        username: kdbx_entry_field(db, id, FIELD_USERNAME),
        password: kdbx_entry_field(db, id, FIELD_PASSWORD),
        collection: kdbx_entry_field(db, id, FIELD_COLLECTION),
        url: kdbx_entry_field(db, id, FIELD_URL),
        notes: kdbx_entry_field(db, id, FIELD_NOTES),
        tags: kdbx_entry_tags(db, id),
        created_at: time_text_of(created),
        updated_at: time_text_of(modified),
    };
    (record, kdbx_entry_field(db, id, FIELD_REVISIONS))
}

/// Maps every entry of the database to a [`VaultEntry`], as [`reads_entries`] describes;
/// a revision field that does not decode fails the whole read.
pub fn entries_from_database(db: &keepass::Database) -> (r: Result<Vec<VaultEntry>, VaultError>)
    ensures
        r is Ok <==> histories_readable(kdbx_entries(*db)),
        r matches Ok(entries) ==> entries_read_from(kdbx_entries(*db), entries_view(entries@)),
        r matches Err(e) ==> is_malformed_revisions_error(e),
{
    let ghost es = kdbx_entries(*db);
    let ids = kdbx_entry_ids(db);
    let mut entries: Vec<VaultEntry> = Vec::new();
    let mut i: usize = 0;
    while i < ids.len()
        invariant
            i <= ids.len(),
            es == kdbx_entries(*db),
            ids@.no_duplicates(),
            forall|id: keepass::db::EntryId| es.dom().contains(id) <==> #[trigger] ids@.contains(id),
            entries@.len() == i,
            forall|k: int| 0 <= k < i ==> history_readable(es[#[trigger] ids@[k]]),
            forall|k: int| 0 <= k < i ==> is_read_as(es[ids@[k]], ids@[k], #[trigger] entries@[k]@),
        decreases ids.len() - i,
    {
        proof {
            assert(ids@.contains(ids@[i as int]));
        }
        let now = now_rfc3339();
        let (record, revisions_text) = read_entry_record(db, &ids[i]);
        let revisions = match revisions_text {
            Some(text) => match decode_revisions(text.as_str()) {
                Ok(revisions) => revisions,
                Err(error) => {
                    proof {
                        assert(!history_readable(es[ids@[i as int]]));
                        assert(es.dom().contains(ids@[i as int]));
                    }
                    return Err(error);
                },
            },
            None => Vec::new(),
        };
        let ghost m = es[ids@[i as int]];
        proof {
            assert(revisions@.len() == 0 ==> revisions_view(revisions@) =~= Seq::<RevisionModel>::empty());
            assert(revisions_view(revisions@) == stored_history(m));
        }
        let entry = entry_from_record(record, revisions, &now);
        proof {
            assert(is_read_as(m, ids@[i as int], entry@));
        }
        entries.push(entry);
        i = i + 1;
    }
    proof {
        assert forall|id: keepass::db::EntryId| #[trigger] es.dom().contains(id) implies history_readable(es[id]) by {
            assert(ids@.contains(id));
            let k = choose|k: int| 0 <= k < ids@.len() && ids@[k] == id;
            assert(history_readable(es[ids@[k]]));
        }
        assert(reads_entries(es, ids@, entries_view(entries@)));
        assert(entries_read_from(es, entries_view(entries@)));
    }
    Ok(entries)
}

/// Vault metadata from the database: its name (or the root group's) and the root group's
/// time stamps, as [`reads_meta`] describes.
pub fn meta_from_database(db: &keepass::Database) -> (r: VaultMeta)
    ensures
        reads_meta(kdbx_header(*db), r@),
{
    let now = now_rfc3339();
    let (created, modified) = kdbx_root_times(db);
    meta_from_parts(kdbx_database_name(db), kdbx_root_name(db), time_text_of(created), time_text_of(modified), now)
}

/// Decrypts KDBX bytes with `password` and maps them to vault metadata and entries. Bytes
/// without the KeePass header are a corrupted vault; KDBX 4 bytes that open under another
/// password report an invalid password; other failures to open report the library's
/// error; a revision history that does not decode is a serialization error.
pub fn open_vault_bytes(bytes: &[u8], password: &str) -> (r: Result<(VaultMeta, Vec<VaultEntry>), VaultError>)
    ensures
        !kdb1_signature(bytes@) ==> (r is Ok <==> (kdbx_opened(bytes@, password@) matches Some((es, h))
            && histories_readable(es))),
        !kdb1_signature(bytes@) ==> (r matches Ok((meta, entries)) ==> (kdbx_opened(bytes@, password@) matches Some((es, h))
            && reads_meta(h, meta@) && entries_read_from(es, entries_view(entries@)))),
        !kdb1_signature(bytes@) && kdbx_opened(bytes@, password@) is None ==> (r matches Err(e) && is_kdbx_open_error(e)),
        !kdbx_identified(bytes@) ==> r matches Err(VaultError::CorruptedVault),
        kdbx4_signature(bytes@) && opens_under_some_password(bytes@) && kdbx_opened(bytes@, password@) is None
            ==> r matches Err(VaultError::InvalidPassword),
        r matches Err(e) ==> is_open_error(e),
        !kdb1_signature(bytes@) && kdbx_opened(bytes@, password@) is Some && r is Err ==> (r matches Err(e)
            && is_malformed_revisions_error(e)),
{
    let database = match kdbx_parse(bytes, password) {
        Ok(database) => database,
        Err(failure) => return Err(map_open_error(failure)),
    };
    let meta = meta_from_database(&database);
    let entries = entries_from_database(&database)?;
    Ok((meta, entries))
}

/// A time stamp for the database, or the serialization error for text that is not RFC 3339.
fn parse_rfc3339(value: &String) -> (r: Result<chrono::NaiveDateTime, VaultError>)
    ensures
        r is Ok <==> spec_rfc3339_parses(value@),
        r matches Ok(t) ==> t == rfc3339_parsed(value@),
        r matches Err(e) ==> e is SerializationError,
{
    match parse_rfc3339_utc(value.as_str()) {
        Ok(t) => Ok(t),
        Err(message) => Err(VaultError::SerializationError(message)),
    }
}

/// Whether every time stamp and id of an entry can be stored.
pub open spec fn entry_storable(e: crate::types::EntryModel) -> bool {
    &&& spec_uuid_parses(e.id)
    &&& spec_rfc3339_parses(e.created_at)
    &&& spec_rfc3339_parses(e.updated_at)
}


/// Whether `m` is how entry `e` is stored: title, username and password always, the
/// optional fields when set, the revision history as JSON when there is one; the password
/// and the history protected; the tags; and the times as chrono parses them.
/// Whether a field key is one the vault writes.
pub open spec fn is_vault_field(k: Seq<char>) -> bool {
    ||| k == FIELD_TITLE@
    ||| k == FIELD_USERNAME@
    ||| k == FIELD_PASSWORD@
    ||| k == FIELD_COLLECTION@
    ||| k == FIELD_URL@
    ||| k == FIELD_NOTES@
    ||| k == FIELD_REVISIONS@
}

pub open spec fn is_stored_as(m: KdbxEntryModel, e: EntryModel) -> bool {
    &&& forall|k: Seq<char>| #[trigger] m.fields.dom().contains(k) ==> is_vault_field(k)
    &&& stored_field(m, FIELD_TITLE@) == Some(e.title)
    &&& stored_field(m, FIELD_USERNAME@) == Some(e.username)
    &&& stored_field(m, FIELD_PASSWORD@) == Some(e.password)
    &&& stored_field(m, FIELD_COLLECTION@) == e.collection
    &&& stored_field(m, FIELD_URL@) == e.url
    &&& stored_field(m, FIELD_NOTES@) == e.notes
    &&& e.revisions.len() == 0 ==> stored_field(m, FIELD_REVISIONS@) is None
    &&& e.revisions.len() > 0 ==> (stored_field(m, FIELD_REVISIONS@) matches Some(t) && json_decoded(t)
        == Some(history_json(e.revisions)))
    &&& m.protected.contains(FIELD_PASSWORD@)
    &&& e.revisions.len() > 0 ==> m.protected.contains(FIELD_REVISIONS@)
    &&& m.tags == e.tags
    &&& m.created == Some(rfc3339_parsed(e.created_at))
    &&& m.modified == Some(rfc3339_parsed(e.updated_at))
}

proof fn lemma_field_names_distinct()
    ensures
        FIELD_TITLE@ != FIELD_USERNAME@,
        FIELD_TITLE@ != FIELD_PASSWORD@,
        FIELD_TITLE@ != FIELD_COLLECTION@,
        FIELD_TITLE@ != FIELD_URL@,
        FIELD_TITLE@ != FIELD_NOTES@,
        FIELD_TITLE@ != FIELD_REVISIONS@,
        FIELD_USERNAME@ != FIELD_PASSWORD@,
        FIELD_USERNAME@ != FIELD_COLLECTION@,
        FIELD_USERNAME@ != FIELD_URL@,
        FIELD_USERNAME@ != FIELD_NOTES@,
        FIELD_USERNAME@ != FIELD_REVISIONS@,
        FIELD_PASSWORD@ != FIELD_COLLECTION@,
        FIELD_PASSWORD@ != FIELD_URL@,
        FIELD_PASSWORD@ != FIELD_NOTES@,
        FIELD_PASSWORD@ != FIELD_REVISIONS@,
        FIELD_COLLECTION@ != FIELD_URL@,
        FIELD_COLLECTION@ != FIELD_NOTES@,
        FIELD_COLLECTION@ != FIELD_REVISIONS@,
        FIELD_URL@ != FIELD_NOTES@,
        FIELD_URL@ != FIELD_REVISIONS@,
        FIELD_NOTES@ != FIELD_REVISIONS@,
{
    reveal_strlit("Title");
    reveal_strlit("UserName");
    reveal_strlit("Password");
    reveal_strlit("ArcaCollection");
    reveal_strlit("URL");
    reveal_strlit("Notes");
    reveal_strlit("ArcaRevisions");
    assert(FIELD_TITLE@.len() != FIELD_USERNAME@.len());
    assert(FIELD_TITLE@.len() != FIELD_PASSWORD@.len());
    assert(FIELD_TITLE@.len() != FIELD_COLLECTION@.len());
    assert(FIELD_TITLE@.len() != FIELD_URL@.len());
    assert(FIELD_TITLE@[0] != FIELD_NOTES@[0]);
    assert(FIELD_TITLE@.len() != FIELD_REVISIONS@.len());
    assert(FIELD_USERNAME@[0] != FIELD_PASSWORD@[0]);
    assert(FIELD_USERNAME@.len() != FIELD_COLLECTION@.len());
    assert(FIELD_USERNAME@.len() != FIELD_URL@.len());
    assert(FIELD_USERNAME@.len() != FIELD_NOTES@.len());
    assert(FIELD_USERNAME@.len() != FIELD_REVISIONS@.len());
    assert(FIELD_PASSWORD@.len() != FIELD_COLLECTION@.len());
    assert(FIELD_PASSWORD@.len() != FIELD_URL@.len());
    assert(FIELD_PASSWORD@.len() != FIELD_NOTES@.len());
    assert(FIELD_PASSWORD@.len() != FIELD_REVISIONS@.len());
    assert(FIELD_COLLECTION@.len() != FIELD_URL@.len());
    assert(FIELD_COLLECTION@.len() != FIELD_NOTES@.len());
    assert(FIELD_COLLECTION@[4] != FIELD_REVISIONS@[4]);
    assert(FIELD_URL@.len() != FIELD_NOTES@.len());
    assert(FIELD_URL@.len() != FIELD_REVISIONS@.len());
    assert(FIELD_NOTES@.len() != FIELD_REVISIONS@.len());
}

/// Writes the fields, tags and times of `entry` to the new, empty database entry with id
/// `id`. A time stamp that is not RFC 3339 is a serialization error.
fn populate_keepass_entry(db: &mut keepass::Database, id: &keepass::db::EntryId, entry: &VaultEntry) -> (r: Result<(), VaultError>)
    requires
        kdbx_entries(*old(db)).dom().contains(*id),
        kdbx_entries(*old(db))[*id].fields == Map::<Seq<char>, Seq<char>>::empty(),
    ensures
        r is Ok <==> spec_rfc3339_parses(entry.created_at@) && spec_rfc3339_parses(entry.updated_at@),
        r matches Err(e) ==> e is SerializationError,
        kdbx_entries(*final(db)).dom() == kdbx_entries(*old(db)).dom(),
        forall|other: keepass::db::EntryId|
            #[trigger] kdbx_entries(*old(db)).dom().contains(other) && other != *id ==> kdbx_entries(
                *final(db),
            )[other] == kdbx_entries(*old(db))[other],
        kdbx_header(*final(db)) == kdbx_header(*old(db)),
        r is Ok ==> is_stored_as(kdbx_entries(*final(db))[*id], entry@),
{
    proof {
        lemma_field_names_distinct();
    }
    let ghost e = entry@;
    kdbx_set_unprotected(db, *id, FIELD_TITLE, copy_string(&entry.title));
    kdbx_set_unprotected(db, *id, FIELD_USERNAME, copy_string(&entry.username));
    kdbx_set_protected(db, *id, FIELD_PASSWORD, copy_string(&entry.password));
    proof {
        let m = kdbx_entries(*db)[*id];
        assert(kdbx_entries(*db).dom().contains(*id));
        assert(m.fields =~= Map::<Seq<char>, Seq<char>>::empty().insert(FIELD_TITLE@, e.title).insert(
            FIELD_USERNAME@,
            e.username,
        ).insert(FIELD_PASSWORD@, e.password));
        assert(m.protected.contains(FIELD_PASSWORD@));
        assert forall|k: Seq<char>| #[trigger] m.fields.dom().contains(k) implies is_vault_field(k) by {}
    }
    if let Some(collection) = &entry.collection {
        kdbx_set_unprotected(db, *id, FIELD_COLLECTION, copy_string(collection));
    }
    proof {
        let m = kdbx_entries(*db)[*id];
        assert(kdbx_entries(*db).dom().contains(*id));
        assert(stored_field(m, FIELD_TITLE@) == Some(e.title));
        assert(stored_field(m, FIELD_USERNAME@) == Some(e.username));
        assert(stored_field(m, FIELD_PASSWORD@) == Some(e.password));
        assert(stored_field(m, FIELD_COLLECTION@) == e.collection);
        assert(!m.fields.dom().contains(FIELD_URL@));
        assert(!m.fields.dom().contains(FIELD_NOTES@));
        assert(!m.fields.dom().contains(FIELD_REVISIONS@));
        assert(m.protected.contains(FIELD_PASSWORD@));
        assert forall|k: Seq<char>| #[trigger] m.fields.dom().contains(k) implies is_vault_field(k) by {}
    }
    if let Some(url) = &entry.url {
        kdbx_set_unprotected(db, *id, FIELD_URL, copy_string(url));
    }
    proof {
        let m = kdbx_entries(*db)[*id];
        assert(kdbx_entries(*db).dom().contains(*id));
        assert(stored_field(m, FIELD_TITLE@) == Some(e.title));
        assert(stored_field(m, FIELD_USERNAME@) == Some(e.username));
        assert(stored_field(m, FIELD_PASSWORD@) == Some(e.password));
        assert(stored_field(m, FIELD_COLLECTION@) == e.collection);
        assert(stored_field(m, FIELD_URL@) == e.url);
        assert(!m.fields.dom().contains(FIELD_NOTES@));
        assert(!m.fields.dom().contains(FIELD_REVISIONS@));
        assert(m.protected.contains(FIELD_PASSWORD@));
        assert forall|k: Seq<char>| #[trigger] m.fields.dom().contains(k) implies is_vault_field(k) by {}
    }
    if let Some(notes) = &entry.notes {
        kdbx_set_unprotected(db, *id, FIELD_NOTES, copy_string(notes));
    }
    proof {
        let m = kdbx_entries(*db)[*id];
        assert(kdbx_entries(*db).dom().contains(*id));
        assert(stored_field(m, FIELD_TITLE@) == Some(e.title));
        assert(stored_field(m, FIELD_USERNAME@) == Some(e.username));
        assert(stored_field(m, FIELD_PASSWORD@) == Some(e.password));
        assert(stored_field(m, FIELD_COLLECTION@) == e.collection);
        assert(stored_field(m, FIELD_URL@) == e.url);
        assert(stored_field(m, FIELD_NOTES@) == e.notes);
        assert(!m.fields.dom().contains(FIELD_REVISIONS@));
        assert(m.protected.contains(FIELD_PASSWORD@));
        assert forall|k: Seq<char>| #[trigger] m.fields.dom().contains(k) implies is_vault_field(k) by {}
    }
    if entry.revisions.len() > 0 {
        kdbx_set_protected(db, *id, FIELD_REVISIONS, encode_revisions(&entry.revisions));
    }
    proof {
        let m = kdbx_entries(*db)[*id];
        assert(kdbx_entries(*db).dom().contains(*id));
        assert(stored_field(m, FIELD_TITLE@) == Some(e.title));
        assert(stored_field(m, FIELD_USERNAME@) == Some(e.username));
        assert(stored_field(m, FIELD_PASSWORD@) == Some(e.password));
        assert(stored_field(m, FIELD_COLLECTION@) == e.collection);
        assert(stored_field(m, FIELD_URL@) == e.url);
        assert(stored_field(m, FIELD_NOTES@) == e.notes);
        assert(m.protected.contains(FIELD_PASSWORD@));
        assert forall|k: Seq<char>| #[trigger] m.fields.dom().contains(k) implies is_vault_field(k) by {}
    }
    kdbx_set_tags(db, *id, copy_strings(&entry.tags));
    let created = parse_rfc3339(&entry.created_at)?;
    let modified = parse_rfc3339(&entry.updated_at)?;
    kdbx_set_times(db, *id, created, modified);
    Ok(())
}

/// Whether `es` holds exactly the given entries, each under the id parsed from its text and
/// stored as [`is_stored_as`] describes; the ids are distinct, and a hyphenated lowercase
/// id prints as its own text.
pub open spec fn stores_entries(es: Map<keepass::db::EntryId, KdbxEntryModel>, entries: Seq<EntryModel>) -> bool {
    &&& forall|id: keepass::db::EntryId|
        es.dom().contains(id) <==> exists|j: int|
            0 <= j < entries.len() && parsed_entry_id(#[trigger] entries[j].id) == id
    &&& forall|j: int|
        0 <= j < entries.len() ==> is_stored_as(es[parsed_entry_id(#[trigger] entries[j].id)], entries[j])
    &&& forall|j: int, k: int|
        0 <= j < k < entries.len() ==> parsed_entry_id(#[trigger] entries[j].id) != parsed_entry_id(
            #[trigger] entries[k].id,
        )
    &&& forall|j: int|
        0 <= j < entries.len() && hyphenated_lowercase_uuid(#[trigger] entries[j].id) ==> entry_id_text(
            parsed_entry_id(entries[j].id),
        ) == entries[j].id
}

/// Whether a list of entries can be stored: every time stamp is RFC 3339, every id a UUID,
/// and no two ids are the same UUID.
pub open spec fn entries_storable(entries: Seq<EntryModel>) -> bool {
    &&& forall|j: int| 0 <= j < entries.len() ==> entry_storable(#[trigger] entries[j])
    &&& forall|j: int, k: int|
        0 <= j < k < entries.len() ==> parsed_entry_id(#[trigger] entries[j].id) != parsed_entry_id(
            #[trigger] entries[k].id,
        )
}

/// The KDBX configuration Arca pins: ChaCha20 as outer and inner cipher, and Argon2id with
/// [`ARGON2_ITERATIONS`] iterations, [`ARGON2_MEMORY_BYTES`] of memory and
/// [`ARGON2_PARALLELISM`] lanes.
fn arca_database_config() -> (r: keepass::config::DatabaseConfig)
    ensures
        r == kdbx_configured(OuterCipher::ChaCha20, InnerCipher::ChaCha20, ARGON2_ITERATIONS, ARGON2_MEMORY_BYTES, ARGON2_PARALLELISM),
{
    kdbx_config(OuterCipher::ChaCha20, InnerCipher::ChaCha20, ARGON2_ITERATIONS, ARGON2_MEMORY_BYTES, ARGON2_PARALLELISM)
}

/// Builds a database holding `meta` and `entries` with Arca's pinned KDBX parameters: the
/// vault name as database name and root group name, the vault times on the root group, and
/// every entry stored under its id. Anything that cannot be stored is a serialization error.
pub fn database_from_entries(meta: &VaultMeta, entries: &[VaultEntry]) -> (r: Result<keepass::Database, VaultError>)
    ensures
        r is Ok <==> spec_rfc3339_parses(meta.modified_at@) && spec_rfc3339_parses(meta.created_at@)
            && entries_storable(entries_view(entries@)),
        r matches Err(e) ==> e is SerializationError,
        r matches Ok(db) ==> stores_entries(kdbx_entries(db), entries_view(entries@)),
        r matches Ok(db) ==> kdbx_header(db) == (KdbxHeaderModel {
            database_name: Some(meta.name@),
            root_name: meta.name@,
            root_created: Some(rfc3339_parsed(meta.created_at@)),
            root_modified: Some(rfc3339_parsed(meta.modified_at@)),
        }),
{
    let mut database = kdbx_new(arca_database_config());
    let changed = parse_rfc3339(&meta.modified_at)?;
    kdbx_set_meta(&mut database, String::from_str(GENERATOR_NAME), copy_string(&meta.name), changed);
    let created = parse_rfc3339(&meta.created_at)?;
    let modified = parse_rfc3339(&meta.modified_at)?;
    kdbx_set_root(&mut database, copy_string(&meta.name), created, modified);
    assert(kdbx_header(database) == (KdbxHeaderModel {
        database_name: Some(meta.name@),
        root_name: meta.name@,
        root_created: Some(rfc3339_parsed(meta.created_at@)),
        root_modified: Some(rfc3339_parsed(meta.modified_at@)),
    }));
    let ghost es_view = entries_view(entries@);
    let ghost header = kdbx_header(database);
    let mut i: usize = 0;
    while i < entries.len()
        invariant
            i <= entries.len(),
            es_view == entries_view(entries@),
            kdbx_header(database) == header,
            forall|k: int| 0 <= k < i ==> entry_storable(#[trigger] es_view[k]),
            forall|j: int, k: int|
                0 <= j < k < i ==> parsed_entry_id(#[trigger] es_view[j].id) != parsed_entry_id(
                    #[trigger] es_view[k].id,
                ),
            stores_entries(kdbx_entries(database), es_view.take(i as int)),
        decreases entries.len() - i,
    {
        let entry = &entries[i];
        let ghost before = kdbx_entries(database);
        proof {
            assert(es_view[i as int] == entry@);
        }
        let id = match parse_entry_id(entry.id.as_str()) {
            Ok(id) => id,
            Err(message) => return Err(VaultError::SerializationError(message)),
        };
        match kdbx_add_entry(&mut database, id) {
            Ok(()) => {},
            Err(message) => {
                proof {
                    let j = choose|j: int| 0 <= j < i && parsed_entry_id(#[trigger] es_view.take(i as int)[j].id) == id;
                    assert(es_view.take(i as int)[j] == es_view[j]);
                    assert(!entries_storable(es_view));
                }
                return Err(VaultError::SerializationError(message));
            },
        }
        let ghost added = kdbx_entries(database);
        populate_keepass_entry(&mut database, &id, entry)?;
        proof {
            let after = kdbx_entries(database);
            let prefix = es_view.take(i as int);
            let next = es_view.take(i + 1);
            assert(next.drop_last() =~= prefix);
            assert(next[i as int] == entry@);
            assert(parsed_entry_id(next[i as int].id) == id);
            assert(after.dom() == before.dom().insert(id));
            assert forall|j: int| 0 <= j < i implies parsed_entry_id(#[trigger] es_view[j].id) != id by {
                assert(prefix[j] == es_view[j]);
                assert(before.dom().contains(parsed_entry_id(prefix[j].id)));
            }
            assert forall|x: keepass::db::EntryId| after.dom().contains(x) implies exists|j: int|
                0 <= j < next.len() && parsed_entry_id(#[trigger] next[j].id) == x by {
                if x == id {
                    assert(next[i as int] == es_view[i as int]);
                } else {
                    assert(before.dom().contains(x));
                    let j = choose|j: int| 0 <= j < prefix.len() && parsed_entry_id(#[trigger] prefix[j].id) == x;
                    assert(next[j] == prefix[j]);
                }
            }
            assert forall|x: keepass::db::EntryId| (exists|j: int|
                0 <= j < next.len() && parsed_entry_id(#[trigger] next[j].id) == x) implies after.dom().contains(x) by {
                let j = choose|j: int| 0 <= j < next.len() && parsed_entry_id(#[trigger] next[j].id) == x;
                if j < i {
                    assert(next[j] == prefix[j]);
                    assert(before.dom().contains(x));
                } else {
                    assert(next[j] == es_view[i as int]);
                }
            }
            assert forall|j: int| 0 <= j < next.len() implies is_stored_as(after[parsed_entry_id(#[trigger] next[j].id)], next[j]) by {
                if j < i {
                    let p = parsed_entry_id(prefix[j].id);
                    assert(next[j] == prefix[j]);
                    assert(before.dom().contains(p));
                    assert(p != id);
                    assert(is_stored_as(before[p], prefix[j]));
                    assert(added[p] == before[p]);
                    assert(added.dom().contains(p));
                    assert(after[p] == added[p]);
                } else {
                    assert(next[j] == entry@);
                }
            }
            assert forall|j: int, k: int| 0 <= j < k < next.len() implies parsed_entry_id(#[trigger] next[j].id) != parsed_entry_id(#[trigger] next[k].id) by {
                assert(next[j] == es_view[j]);
                assert(next[k] == es_view[k]);
            }
            assert forall|j: int| 0 <= j < next.len() && hyphenated_lowercase_uuid(#[trigger] next[j].id) implies entry_id_text(parsed_entry_id(next[j].id)) == next[j].id by {
                if j < i {
                    assert(next[j] == prefix[j]);
                }
            }
            assert(stores_entries(after, next));
        }
        i = i + 1;
    }
    proof {
        assert(es_view.take(entries.len() as int) =~= es_view);
    }
    Ok(database)
}

/// The entry that reads back from storing `e`: the same, with its time stamps as chrono
/// prints the instants it parsed from them.
pub open spec fn read_back(e: EntryModel) -> EntryModel {
    EntryModel {
        created_at: rfc3339_of(rfc3339_parsed(e.created_at)),
        updated_at: rfc3339_of(rfc3339_parsed(e.updated_at)),
        ..e
    }
}

proof fn lemma_stored_entry_reads_back(m: KdbxEntryModel, id: keepass::db::EntryId, e: EntryModel, r: EntryModel)
    requires
        is_stored_as(m, e),
        entry_id_text(id) == e.id,
        optional_fields_nonempty(e),
        is_read_as(m, id, r),
    ensures
        r == read_back(e),
{
    if e.revisions.len() > 0 {
        let t = stored_field(m, FIELD_REVISIONS@)->0;
        stored_history_reads_back(e.revisions, t);
    } else {
        assert(e.revisions =~= Seq::<RevisionModel>::empty());
    }
    assert(r.revisions == e.revisions);
}

/// What [`database_from_entries`] stores, [`entries_from_database`] reads back: every entry
/// once, with its id, fields, tags and revision history, and its time stamps as chrono
/// prints the instants it parsed from them. This holds of entries whose ids are in the
/// hyphenated lowercase form ids print in and whose optional fields hold text when set.
pub proof fn stored_entries_read_back(
    es: Map<keepass::db::EntryId, KdbxEntryModel>,
    entries: Seq<EntryModel>,
    read: Seq<EntryModel>,
)
    requires
        stores_entries(es, entries),
        entries_read_from(es, read),
        forall|j: int|
            0 <= j < entries.len() ==> hyphenated_lowercase_uuid(#[trigger] entries[j].id)
                && optional_fields_nonempty(entries[j]),
    ensures
        read.len() == entries.len(),
        forall|i: int|
            0 <= i < read.len() ==> exists|j: int|
                0 <= j < entries.len() && #[trigger] read[i] == read_back(#[trigger] entries[j]),
        forall|j: int|
            0 <= j < entries.len() ==> exists|i: int|
                0 <= i < read.len() && #[trigger] read[i] == read_back(#[trigger] entries[j]),
{
    let ids = choose|ids: Seq<keepass::db::EntryId>| reads_entries(es, ids, read);
    let eids = Seq::new(entries.len(), |j: int| parsed_entry_id(entries[j].id));
    assert(eids.no_duplicates()) by {
        assert forall|a: int, b: int| 0 <= a < eids.len() && 0 <= b < eids.len() && a != b implies eids[a] != eids[b] by {
            if a < b {
                assert(parsed_entry_id(entries[a].id) != parsed_entry_id(entries[b].id));
            } else {
                assert(parsed_entry_id(entries[b].id) != parsed_entry_id(entries[a].id));
            }
        }
    }
    assert(eids.to_set() =~= ids.to_set()) by {
        assert forall|x: keepass::db::EntryId| eids.to_set().contains(x) <==> ids.to_set().contains(x) by {
            if eids.contains(x) {
                let j = choose|j: int| 0 <= j < eids.len() && eids[j] == x;
                assert(parsed_entry_id(entries[j].id) == x);
                assert(es.dom().contains(x));
                assert(ids.contains(x));
            }
            if ids.contains(x) {
                assert(es.dom().contains(x));
                let j = choose|j: int| 0 <= j < entries.len() && parsed_entry_id(#[trigger] entries[j].id) == x;
                assert(eids[j] == x);
                assert(eids.contains(x));
            }
        }
    }
    eids.unique_seq_to_set();
    ids.unique_seq_to_set();
    assert forall|i: int| 0 <= i < read.len() implies exists|j: int|
        0 <= j < entries.len() && #[trigger] read[i] == read_back(#[trigger] entries[j]) by {
        let id = ids[i];
        assert(ids.contains(id));
        assert(es.dom().contains(id));
        let j = choose|j: int| 0 <= j < entries.len() && parsed_entry_id(#[trigger] entries[j].id) == id;
        assert(is_stored_as(es[parsed_entry_id(entries[j].id)], entries[j]));
        assert(is_read_as(es[ids[i]], ids[i], read[i]));
        lemma_stored_entry_reads_back(es[id], id, entries[j], read[i]);
    }
    assert forall|j: int| 0 <= j < entries.len() implies exists|i: int|
        0 <= i < read.len() && #[trigger] read[i] == read_back(#[trigger] entries[j]) by {
        let id = parsed_entry_id(entries[j].id);
        assert(es.dom().contains(id));
        assert(ids.contains(id));
        let i = choose|i: int| 0 <= i < ids.len() && ids[i] == id;
        assert(is_stored_as(es[id], entries[j]));
        assert(is_read_as(es[ids[i]], ids[i], read[i]));
        lemma_stored_entry_reads_back(es[id], id, entries[j], read[i]);
    }
}

/// The header of the database a vault with `meta` is stored in: the vault name as database
/// name and root group name, and the vault times on the root group.
pub open spec fn meta_header(meta: MetaModel) -> KdbxHeaderModel {
    KdbxHeaderModel {
        database_name: Some(meta.name),
        root_name: meta.name,
        root_created: Some(rfc3339_parsed(meta.created_at)),
        root_modified: Some(rfc3339_parsed(meta.modified_at)),
    }
}

/// Whether a vault with `meta` and `entries` can be stored: its times are RFC 3339 and its
/// entries storable.
pub open spec fn vault_storable(meta: MetaModel, entries: Seq<EntryModel>) -> bool {
    &&& spec_rfc3339_parses(meta.modified_at)
    &&& spec_rfc3339_parses(meta.created_at)
    &&& entries_storable(entries)
}

/// Whether `bytes` are a KDBX 4 file of the vault with `meta` and `entries` under
/// `password`: keepass wrote them for a database that stores the entries as
/// [`stores_entries`] describes, under the header [`meta_header`] gives, and when the texts
/// of that database survive the format, the bytes reopen to it.
pub open spec fn is_saved_vault(bytes: Seq<u8>, password: Seq<char>, meta: MetaModel, entries: Seq<EntryModel>) -> bool {
    &&& kdbx4_signature(bytes)
    &&& exists|es: Map<keepass::db::EntryId, KdbxEntryModel>|
        #[trigger] kdbx_saved_as(bytes, es, meta_header(meta), password) && saved_database(bytes, password, es, meta, entries)
}

/// Whether `es` stores `entries` and, when the database's texts survive the format, the
/// bytes reopen under `password` to it.
pub open spec fn saved_database(
    bytes: Seq<u8>,
    password: Seq<char>,
    es: Map<keepass::db::EntryId, KdbxEntryModel>,
    meta: MetaModel,
    entries: Seq<EntryModel>,
) -> bool {
    &&& stores_entries(es, entries)
    &&& kdbx_database_survives(es, meta_header(meta)) ==> kdbx_reopens_as(bytes, password, es, meta_header(meta))
}

/// The entry that reads back from a vault file saved with `e`: the same, with its time
/// stamps as chrono prints the whole seconds the file keeps of them.
pub open spec fn saved_read_back(e: EntryModel) -> EntryModel {
    EntryModel {
        created_at: rfc3339_of(kdbx_whole_seconds(rfc3339_parsed(e.created_at))),
        updated_at: rfc3339_of(kdbx_whole_seconds(rfc3339_parsed(e.updated_at))),
        ..e
    }
}

/// The metadata that reads back from a vault file saved with `meta`: the same name, with
/// its times as chrono prints the whole seconds the file keeps of them.
pub open spec fn saved_meta_read_back(meta: MetaModel) -> MetaModel {
    MetaModel {
        name: meta.name,
        created_at: rfc3339_of(kdbx_whole_seconds(rfc3339_parsed(meta.created_at))),
        modified_at: rfc3339_of(kdbx_whole_seconds(rfc3339_parsed(meta.modified_at))),
    }
}

/// Whether the texts of an entry that a vault file keeps unprotected survive it: title,
/// username, collection, url, notes and tags.
pub open spec fn entry_texts_survive(e: EntryModel) -> bool {
    &&& kdbx_text_survives(e.title)
    &&& kdbx_text_survives(e.username)
    &&& e.collection matches Some(c) ==> kdbx_text_survives(c)
    &&& e.url matches Some(u) ==> kdbx_text_survives(u)
    &&& e.notes matches Some(n) ==> kdbx_text_survives(n)
    &&& forall|i: int| 0 <= i < e.tags.len() ==> kdbx_tag_survives(#[trigger] e.tags[i])
}

/// Whether a vault reads back from its file as it was saved: its name survives, and every
/// entry has an id in the form ids print in, optional fields that hold text when set, and
/// texts that survive the file.
pub open spec fn vault_reopenable(meta: MetaModel, entries: Seq<EntryModel>) -> bool {
    &&& kdbx_name_survives(meta.name)
    &&& forall|j: int|
        0 <= j < entries.len() ==> hyphenated_lowercase_uuid(#[trigger] entries[j].id)
            && optional_fields_nonempty(entries[j]) && entry_texts_survive(entries[j])
}

/// Whether `bytes` open under `password` to the vault with `meta` and `entries`: the file
/// opens, every revision history in it decodes, its metadata reads as the saved one and its
/// entries as the saved ones, each once, with times kept to the second.
pub open spec fn reopens_to(bytes: Seq<u8>, password: Seq<char>, meta: MetaModel, entries: Seq<EntryModel>) -> bool {
    match kdbx_opened(bytes, password) {
        Some((es2, h2)) => {
            &&& histories_readable(es2)
            &&& forall|m: MetaModel| #[trigger] reads_meta(h2, m) ==> m == saved_meta_read_back(meta)
            &&& forall|read: Seq<EntryModel>| #[trigger] entries_read_from(es2, read) ==> {
                &&& read.len() == entries.len()
                &&& forall|i: int| 0 <= i < read.len() ==> exists|j: int|
                    0 <= j < entries.len() && #[trigger] read[i] == saved_read_back(#[trigger] entries[j])
                &&& forall|j: int| 0 <= j < entries.len() ==> exists|i: int|
                    0 <= i < read.len() && #[trigger] read[i] == saved_read_back(#[trigger] entries[j])
            }
        },
        None => false,
    }
}

proof fn lemma_field_names_survive()
    ensures
        kdbx_name_survives(FIELD_TITLE@),
        kdbx_name_survives(FIELD_USERNAME@),
        kdbx_name_survives(FIELD_PASSWORD@),
        kdbx_name_survives(FIELD_COLLECTION@),
        kdbx_name_survives(FIELD_URL@),
        kdbx_name_survives(FIELD_NOTES@),
        kdbx_name_survives(FIELD_REVISIONS@),
{
    reveal_strlit("Title");
    reveal_strlit("UserName");
    reveal_strlit("Password");
    reveal_strlit("ArcaCollection");
    reveal_strlit("URL");
    reveal_strlit("Notes");
    reveal_strlit("ArcaRevisions");
    assert(!unicode_white_space(FIELD_TITLE@[0]));
    assert(!unicode_white_space(FIELD_USERNAME@[0]));
    assert(!unicode_white_space(FIELD_PASSWORD@[0]));
    assert(!unicode_white_space(FIELD_COLLECTION@[0]));
    assert(!unicode_white_space(FIELD_URL@[0]));
    assert(!unicode_white_space(FIELD_NOTES@[0]));
    assert(!unicode_white_space(FIELD_REVISIONS@[0]));
}

proof fn lemma_stored_entry_survives(m: KdbxEntryModel, e: EntryModel)
    requires
        is_stored_as(m, e),
        entry_texts_survive(e),
    ensures
        kdbx_entry_survives(m),
{
    lemma_field_names_survive();
    assert forall|k: Seq<char>| #[trigger] m.fields.dom().contains(k) implies kdbx_name_survives(k) && (
        m.protected.contains(k) || kdbx_text_survives(m.fields[k])) by {
        assert(is_vault_field(k));
        if k == FIELD_TITLE@ {
            assert(stored_field(m, k) == Some(e.title));
        } else if k == FIELD_USERNAME@ {
            assert(stored_field(m, k) == Some(e.username));
        } else if k == FIELD_COLLECTION@ {
            assert(stored_field(m, k) == e.collection);
        } else if k == FIELD_URL@ {
            assert(stored_field(m, k) == e.url);
        } else if k == FIELD_NOTES@ {
            assert(stored_field(m, k) == e.notes);
        } else if k == FIELD_REVISIONS@ {
            assert(stored_field(m, k) is Some);
        }
    }
}

proof fn lemma_saved_entry_reads_back(
    m: KdbxEntryModel,
    m2: KdbxEntryModel,
    id: keepass::db::EntryId,
    e: EntryModel,
    r: EntryModel,
)
    requires
        is_stored_as(m, e),
        kdbx_entry_reloads_as(m, m2),
        entry_id_text(id) == e.id,
        optional_fields_nonempty(e),
        is_read_as(m2, id, r),
    ensures
        r == saved_read_back(e),
        history_readable(m2),
{
    assert(m2.fields == m.fields);
    assert(stored_field(m2, FIELD_TITLE@) == stored_field(m, FIELD_TITLE@));
    assert(stored_field(m2, FIELD_USERNAME@) == stored_field(m, FIELD_USERNAME@));
    assert(stored_field(m2, FIELD_PASSWORD@) == stored_field(m, FIELD_PASSWORD@));
    assert(stored_field(m2, FIELD_COLLECTION@) == stored_field(m, FIELD_COLLECTION@));
    assert(stored_field(m2, FIELD_URL@) == stored_field(m, FIELD_URL@));
    assert(stored_field(m2, FIELD_NOTES@) == stored_field(m, FIELD_NOTES@));
    assert(stored_field(m2, FIELD_REVISIONS@) == stored_field(m, FIELD_REVISIONS@));
    if e.revisions.len() > 0 {
        let t = stored_field(m, FIELD_REVISIONS@)->0;
        stored_history_reads_back(e.revisions, t);
    } else {
        assert(e.revisions =~= Seq::<RevisionModel>::empty());
    }
    assert(r.revisions == e.revisions);
}

/// A vault file that was saved reopens to what was saved: bytes that `save_vault_bytes`
/// (or any other save of a vault) wrote under `password` are a KDBX 4 file that opens under
/// that password, every revision history in it decodes, its name reads back, and its times
/// and its entries' times read back kept to the second, and its entries each once with their
/// ids, fields, tags and revision histories. This holds of vaults whose texts survive the file format (a
/// blank text reads back empty, a carriage return as a line feed, and tags are split on `;`,
/// `,` and tab and trimmed) and whose entries have ids in the form ids print in and optional
/// fields that hold text when set.
pub proof fn saved_vault_reopens(bytes: Seq<u8>, password: Seq<char>, meta: MetaModel, entries: Seq<EntryModel>)
    requires
        is_saved_vault(bytes, password, meta, entries),
        vault_reopenable(meta, entries),
    ensures
        kdbx4_signature(bytes),
        !kdb1_signature(bytes),
        opens_under_some_password(bytes),
        reopens_to(bytes, password, meta, entries),
{
    let es = choose|es: Map<keepass::db::EntryId, KdbxEntryModel>|
        #[trigger] kdbx_saved_as(bytes, es, meta_header(meta), password) && saved_database(bytes, password, es, meta, entries);
    let h = meta_header(meta);
    assert forall|id: keepass::db::EntryId| #[trigger] es.dom().contains(id) implies kdbx_entry_survives(es[id]) by {
        let j = choose|j: int| 0 <= j < entries.len() && parsed_entry_id(#[trigger] entries[j].id) == id;
        assert(is_stored_as(es[parsed_entry_id(entries[j].id)], entries[j]));
        lemma_stored_entry_survives(es[id], entries[j]);
    }
    assert(kdbx_database_survives(es, h));
    assert(kdbx_reopens_as(bytes, password, es, h));
    let (es2, h2) = kdbx_opened(bytes, password)->0;
    assert(kdbx_opened(bytes, password) is Some);
    assert(opens_under_some_password(bytes));
    assert forall|id: keepass::db::EntryId| #[trigger] es2.dom().contains(id) implies history_readable(es2[id]) by {
        assert(es.dom().contains(id));
        let j = choose|j: int| 0 <= j < entries.len() && parsed_entry_id(#[trigger] entries[j].id) == id;
        let m = es[parsed_entry_id(entries[j].id)];
        assert(is_stored_as(m, entries[j]));
        assert(kdbx_entry_reloads_as(es[id], es2[id]));
        assert(stored_field(es2[id], FIELD_REVISIONS@) == stored_field(m, FIELD_REVISIONS@));
        if entries[j].revisions.len() > 0 {
            let t = stored_field(m, FIELD_REVISIONS@)->0;
            stored_history_reads_back(entries[j].revisions, t);
        }
    }
    assert(histories_readable(es2));
    assert forall|read: Seq<EntryModel>| #[trigger] entries_read_from(es2, read) implies {
        &&& read.len() == entries.len()
        &&& forall|i: int| 0 <= i < read.len() ==> exists|j: int|
            0 <= j < entries.len() && #[trigger] read[i] == saved_read_back(#[trigger] entries[j])
        &&& forall|j: int| 0 <= j < entries.len() ==> exists|i: int|
            0 <= i < read.len() && #[trigger] read[i] == saved_read_back(#[trigger] entries[j])
    } by {
        let ids = choose|ids: Seq<keepass::db::EntryId>| reads_entries(es2, ids, read);
        let eids = Seq::new(entries.len(), |j: int| parsed_entry_id(entries[j].id));
        assert(eids.no_duplicates()) by {
            assert forall|a: int, b: int| 0 <= a < eids.len() && 0 <= b < eids.len() && a != b implies eids[a] != eids[b] by {
                if a < b {
                    assert(parsed_entry_id(entries[a].id) != parsed_entry_id(entries[b].id));
                } else {
                    assert(parsed_entry_id(entries[b].id) != parsed_entry_id(entries[a].id));
                }
            }
        }
        assert(eids.to_set() =~= ids.to_set()) by {
            assert forall|x: keepass::db::EntryId| eids.to_set().contains(x) <==> ids.to_set().contains(x) by {
                if eids.contains(x) {
                    let j = choose|j: int| 0 <= j < eids.len() && eids[j] == x;
                    assert(parsed_entry_id(entries[j].id) == x);
                    assert(es.dom().contains(x));
                    assert(es2.dom().contains(x));
                    assert(ids.contains(x));
                }
                if ids.contains(x) {
                    assert(es2.dom().contains(x));
                    assert(es.dom().contains(x));
                    let j = choose|j: int| 0 <= j < entries.len() && parsed_entry_id(#[trigger] entries[j].id) == x;
                    assert(eids[j] == x);
                    assert(eids.contains(x));
                }
            }
        }
        eids.unique_seq_to_set();
        ids.unique_seq_to_set();
        assert forall|i: int| 0 <= i < read.len() implies exists|j: int|
            0 <= j < entries.len() && #[trigger] read[i] == saved_read_back(#[trigger] entries[j]) by {
            let id = ids[i];
            assert(ids.contains(id));
            assert(es2.dom().contains(id));
            assert(es.dom().contains(id));
            let j = choose|j: int| 0 <= j < entries.len() && parsed_entry_id(#[trigger] entries[j].id) == id;
            assert(is_stored_as(es[parsed_entry_id(entries[j].id)], entries[j]));
            assert(kdbx_entry_reloads_as(es[id], es2[id]));
            assert(is_read_as(es2[ids[i]], ids[i], read[i]));
            lemma_saved_entry_reads_back(es[id], es2[id], id, entries[j], read[i]);
        }
        assert forall|j: int| 0 <= j < entries.len() implies exists|i: int|
            0 <= i < read.len() && #[trigger] read[i] == saved_read_back(#[trigger] entries[j]) by {
            let id = parsed_entry_id(entries[j].id);
            assert(es.dom().contains(id));
            assert(es2.dom().contains(id));
            assert(ids.contains(id));
            let i = choose|i: int| 0 <= i < ids.len() && ids[i] == id;
            assert(is_stored_as(es[id], entries[j]));
            assert(kdbx_entry_reloads_as(es[id], es2[id]));
            assert(is_read_as(es2[ids[i]], ids[i], read[i]));
            lemma_saved_entry_reads_back(es[id], es2[id], id, entries[j], read[i]);
        }
    }
}

/// The kinds of error that saving vault bytes can report.
pub open spec fn is_save_error(e: VaultError) -> bool {
    ||| e is SerializationError
    ||| e is EncryptionError
    ||| e is IoError
}

/// Serializes metadata and entries to encrypted KDBX 4 bytes under `password`. Fails with a
/// serialization error when a time stamp is not RFC 3339 or an entry id is not a UUID.
pub fn save_vault_bytes(password: &str, meta: &VaultMeta, entries: &[VaultEntry]) -> (r: Result<Vec<u8>, VaultError>)
    ensures
        r matches Ok(bytes) ==> is_saved_vault(bytes@, password@, meta@, entries_view(entries@)),
        r is Ok ==> vault_storable(meta@, entries_view(entries@)),
        !vault_storable(meta@, entries_view(entries@)) ==> r matches Err(VaultError::SerializationError(_)),
        r matches Err(e) ==> is_save_error(e),
{
    let database = database_from_entries(meta, entries)?;
    match kdbx_save(&database, password) {
        Ok(bytes) => {
            assert(kdbx_saved_as(bytes@, kdbx_entries(database), meta_header(meta@), password@));
            assert(saved_database(bytes@, password@, kdbx_entries(database), meta@, entries_view(entries@)));
            Ok(bytes)
        },
        Err(error) => Err(map_save_error(classify_save_error(error))),
    }
}

/// Creates the encrypted bytes of a new empty vault named `name`, created and modified now.
pub fn create_vault_bytes(password: &str, name: &str) -> (r: Result<(VaultMeta, Vec<u8>), VaultError>)
    ensures
        r matches Ok((meta, _)) ==> meta.name@ == name@ && meta.created_at@ == meta.modified_at@,
        r matches Ok((meta, _)) ==> exists|t: chrono::NaiveDateTime| meta.created_at@ == rfc3339_of(t),
        r matches Ok((meta, bytes)) ==> is_saved_vault(bytes@, password@, meta@, Seq::<EntryModel>::empty()),
        r matches Err(e) ==> is_save_error(e),
{
    let now = now_rfc3339();
    let meta = VaultMeta { name: String::from_str(name), created_at: copy_string(&now), modified_at: now };
    let entries: Vec<VaultEntry> = Vec::new();
    let bytes = save_vault_bytes(password, &meta, entries.as_slice())?;
    Ok((meta, bytes))
}

impl VaultMeta {
    /// Sets the modification time to now, as RFC 3339 text chrono printed for a UTC time
    /// stamp; the name and creation time stay.
    pub fn mark_modified_now(&mut self)
        ensures
            final(self)@.name == old(self)@.name,
            final(self)@.created_at == old(self)@.created_at,
            exists|t: chrono::NaiveDateTime| final(self)@.modified_at == rfc3339_of(t),
            spec_rfc3339_parses(final(self)@.modified_at),
    {
        self.modified_at = now_rfc3339();
    }
}

/// The path of the temporary file a vault is written to before it replaces `path`.
pub fn tmp_path_for(path: &str) -> (r: String)
    ensures
        r@ == path@ + ".tmp"@,
{
    let mut tmp_path = String::from_str(path);
    tmp_path.append(".tmp");
    tmp_path
}

} // verus!
