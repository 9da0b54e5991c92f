//! What the desktop commands decide. Each works on the session the shell holds locked. A
//! command that changes the vault returns the encrypted bytes and the file they replace;
//! the shell writes them, and marks the session active once the write succeeded.
use vstd::prelude::*;

use crate::api::{
    error_code_message, error_code_name, CreateEntryRequest, EntryMutation, EntryView, ErrorCode,
    GeneratorMode as GeneratorModeDto, GeneratorParams, RevisionView, SecretString, VaultSummary,
};
use crate::desktop::error::{arca_error_is, is_locked_error, is_not_found_error, ArcaError};
use crate::desktop::state::{is_unlocked, session_entries, session_password, Settings, SessionState};
use crate::entry::{
    self as core_entry, search_result, trim_history, updated_entry, EntryPatch,
    MAX_ENTRY_REVISION_LIMIT,
};
use crate::generator::{GeneratorConfig, GeneratorMode};
use crate::kdbx::spec_rfc3339_parses;
use crate::mobile_session::{
    config_of, created_from, entry_patch, entry_view, first_with_id, has_id, is_entry_view_of,
    is_revision_view_of, password_changed_at, patch_of, revision_view,
};
use crate::text::copy_string;
use crate::types::{entries_view, EntryModel, VaultEntry, VaultMeta};
use crate::vault::{entries_storable, is_saved_vault, save_vault_bytes};

verus! {

/// Why an entry password is refused.
pub const EMPTY_PASSWORD_MESSAGE: &'static str =
    "Entry passwords cannot be empty; passwordless entries are unsupported";

/// Encrypted vault bytes and the file they replace.
pub struct VaultWrite {
    pub path: String,
    pub bytes: Vec<u8>,
}

/// Whether `e` is the frontend error for a core error with `code`.
pub open spec fn is_core_error(e: ArcaError, code: ErrorCode) -> bool {
    arca_error_is(e, error_code_name(code), error_code_message(code))
}

/// The errors a failed save reports: serialization, encryption or I/O.
pub open spec fn is_persist_error(e: ArcaError) -> bool {
    ||| is_core_error(e, ErrorCode::SerializationError)
    ||| is_core_error(e, ErrorCode::EncryptionError)
    ||| is_core_error(e, ErrorCode::IoError)
}

/// Whether a save of `entries` with `meta` cannot succeed: a time stamp that is not RFC 3339,
/// an id that is not a UUID, or two ids that are the same UUID.
pub open spec fn unsavable(meta: VaultMeta, entries: Seq<VaultEntry>) -> bool {
    !(spec_rfc3339_parses(meta.modified_at@) && spec_rfc3339_parses(meta.created_at@)
        && entries_storable(entries_view(entries)))
}

/// Whether `after` is `before` with its activity recorded.
pub open spec fn touched(before: SessionState, after: SessionState) -> bool {
    &&& after.master_password == before.master_password
    &&& after.vault_path == before.vault_path
    &&& after.entries == before.entries
    &&& after.meta == before.meta
    &&& after.last_active is Some
}

/// Whether `after` is `before` with other entries.
pub open spec fn with_session_entries(before: SessionState, after: SessionState) -> bool {
    &&& after.master_password == before.master_password
    &&& after.vault_path == before.vault_path
    &&& after.meta == before.meta
    &&& after.last_active == before.last_active
}

/// Whether `w` writes to the session's vault file.
pub open spec fn writes_session_file(w: VaultWrite, s: SessionState) -> bool {
    w.path@ == s.vault_path->0@
}

/// Whether `w` writes the session's vault to its file: the session's metadata and entries,
/// saved under its password.
pub open spec fn saves_session(w: VaultWrite, s: SessionState) -> bool {
    &&& writes_session_file(w, s)
    &&& is_saved_vault(w.bytes@, session_password(&s), s.meta->0@, session_entries(&s))
}

/// Prepares writing `entries` to the session's vault file under its password and metadata.
/// A session without file, metadata or password is locked.
pub fn persist_entries(session: &SessionState, entries: &[VaultEntry]) -> (r: Result<VaultWrite, ArcaError>)
    ensures
        !is_unlocked(session) ==> (r matches Err(e) && is_locked_error(e)),
        is_unlocked(session) ==> match r {
            Ok(w) => writes_session_file(w, *session),
            Err(e) => is_persist_error(e),
        },
        is_unlocked(session) && unsavable(session.meta->0, entries@) ==> (r matches Err(e)
            && is_core_error(e, ErrorCode::SerializationError)),
        r matches Ok(w) ==> is_saved_vault(w.bytes@, session_password(session), session.meta->0@, entries_view(entries@)),
{
    let path = match &session.vault_path {
        Some(path) => path,
        None => return Err(ArcaError::locked()),
    };
    let meta = match &session.meta {
        Some(meta) => meta,
        None => return Err(ArcaError::locked()),
    };
    let password = match &session.master_password {
        Some(password) => password,
        None => return Err(ArcaError::locked()),
    };
    match save_vault_bytes(password.as_str(), meta, entries) {
        Ok(bytes) => Ok(VaultWrite { path: copy_string(path), bytes }),
        Err(error) => Err(ArcaError::from_vault_error(error)),
    }
}

/// Prepares writing the session's own entries.
pub fn persist_session(session: &SessionState) -> (r: Result<VaultWrite, ArcaError>)
    ensures
        !is_unlocked(session) ==> (r matches Err(e) && is_locked_error(e)),
        is_unlocked(session) ==> match r {
            Ok(w) => writes_session_file(w, *session),
            Err(e) => is_persist_error(e),
        },
        is_unlocked(session) && unsavable(session.meta->0, session.entries@) ==> (r matches Err(e)
            && is_core_error(e, ErrorCode::SerializationError)),
        r matches Ok(w) ==> is_saved_vault(w.bytes@, session_password(session), session.meta->0@, session_entries(session)),
{
    persist_entries(session, session.entries.as_slice())
}

/// Checks that a command operates on an unlocked session.
pub fn ensure_unlocked(session: &SessionState) -> (r: Result<(), ArcaError>)
    ensures
        r is Ok <==> is_unlocked(session),
        r matches Err(e) ==> is_locked_error(e),
{
    if session.meta.is_some() && session.vault_path.is_some() && session.master_password.is_some() {
        Ok(())
    } else {
        Err(ArcaError::locked())
    }
}

/// The metadata-only view of an entry.
pub fn entry_metadata_dto(entry: &VaultEntry) -> (v: EntryView)
    ensures
        is_entry_view_of(v, entry@),
{
    entry_view(entry)
}

/// The metadata-only view of a revision with its password-change flag.
pub fn revision_dto_from_revision(revision: &crate::types::EntryRevision, password_changed: bool) -> (v: RevisionView)
    ensures
        is_revision_view_of(v, revision@, password_changed),
{
    revision_view(revision, password_changed)
}

/// The core patch for a public mutation.
pub fn entry_patch_from_dto(value: EntryMutation) -> (p: EntryPatch)
    ensures
        p@ == patch_of(value),
{
    entry_patch(value)
}

/// The core generator mode for the public one.
pub fn generator_mode_from_dto(value: GeneratorModeDto) -> (m: GeneratorMode)
    ensures
        value == GeneratorModeDto::Random ==> m == GeneratorMode::Random,
        value == GeneratorModeDto::Passphrase ==> m == GeneratorMode::Passphrase,
{
    match value {
        GeneratorModeDto::Random => GeneratorMode::Random,
        GeneratorModeDto::Passphrase => GeneratorMode::Passphrase,
    }
}

/// The generator settings for partial public parameters: each absent one takes the core
/// default.
pub fn generator_config_from_dto(value: GeneratorParams) -> (c: GeneratorConfig)
    ensures
        c == config_of(value),
{
    let default = GeneratorConfig::default();
    GeneratorConfig {
        length: match value.length {
            Some(length) => length,
            None => default.length,
        },
        uppercase: match value.uppercase {
            Some(b) => b,
            None => default.uppercase,
        },
        lowercase: match value.lowercase {
            Some(b) => b,
            None => default.lowercase,
        },
        digits: match value.digits {
            Some(b) => b,
            None => default.digits,
        },
        symbols: match value.symbols {
            Some(b) => b,
            None => default.symbols,
        },
        exclude_ambiguous: match value.exclude_ambiguous {
            Some(b) => b,
            None => default.exclude_ambiguous,
        },
        mode: match value.mode {
            Some(mode) => generator_mode_from_dto(mode),
            None => default.mode,
        },
    }
}

/// The error for an empty entry password.
pub open spec fn is_empty_password_error(e: ArcaError) -> bool {
    arca_error_is(e, "invalid_input"@, EMPTY_PASSWORD_MESSAGE@)
}

/// Refuses an empty entry password.
pub fn validate_entry_password(password: &str) -> (r: Result<(), ArcaError>)
    ensures
        r is Ok <==> password@.len() > 0,
        r matches Err(e) ==> is_empty_password_error(e),
{
    if password.is_empty() {
        Err(ArcaError::invalid_input(EMPTY_PASSWORD_MESSAGE))
    } else {
        Ok(())
    }
}

/// Refuses an empty replacement password; no replacement is fine.
pub fn validate_optional_entry_password(password: Option<&str>) -> (r: Result<(), ArcaError>)
    ensures
        r is Ok <==> !(password matches Some(p) && p@.len() == 0),
        r matches Err(e) ==> is_empty_password_error(e),
{
    match password {
        Some(password) => validate_entry_password(password),
        None => Ok(()),
    }
}

/// The index of the first entry with id `id`.
fn find_entry_index(entries: &Vec<VaultEntry>, id: &str) -> (r: Option<usize>)
    ensures
        r matches Some(i) ==> first_with_id(entries_view(entries@), id@, i as int),
        r is None ==> !has_id(entries_view(entries@), id@),
{
    let wanted = String::from_str(id);
    let mut i: usize = 0;
    while i < entries.len()
        invariant
            i <= entries.len(),
            wanted@ == id@,
            forall|j: int| 0 <= j < i ==> entries@[j]@.id != id@,
        decreases entries.len() - i,
    {
        if entries[i].id == wanted {
            return Some(i);
        }
        i = i + 1;
    }
    assert forall|j: int| 0 <= j < entries@.len() implies entries_view(entries@)[j].id != id@ by {
        assert(entries_view(entries@)[j] == entries@[j]@);
    }
    None
}

/// Metadata-only views of every entry of the unlocked session, in stored order.
pub fn list_entries_in_state(session: &mut SessionState) -> (r: Result<Vec<EntryView>, ArcaError>)
    ensures
        !is_unlocked(old(session)) ==> (r matches Err(e) && is_locked_error(e)) && *final(session)
            == *old(session),
        is_unlocked(old(session)) ==> touched(*old(session), *final(session)) && (r matches Ok(views)
            && views@.len() == old(session).entries@.len() && forall|i: int|
            0 <= i < views@.len() ==> is_entry_view_of(#[trigger] views@[i], old(session).entries@[i]@)),
{
    ensure_unlocked(session)?;
    session.touch();
    let mut views: Vec<EntryView> = Vec::new();
    let mut i: usize = 0;
    while i < session.entries.len()
        invariant
            i <= session.entries.len(),
            views@.len() == i,
            forall|k: int| 0 <= k < i ==> is_entry_view_of(#[trigger] views@[k], session.entries@[k]@),
        decreases session.entries.len() - i,
    {
        views.push(entry_metadata_dto(&session.entries[i]));
        i = i + 1;
    }
    Ok(views)
}

/// The metadata-only view of the first entry with id `id`.
pub fn get_entry_in_state(id: &str, session: &mut SessionState) -> (r: Result<EntryView, ArcaError>)
    ensures
        !is_unlocked(old(session)) ==> (r matches Err(e) && is_locked_error(e)) && *final(session)
            == *old(session),
        is_unlocked(old(session)) ==> touched(*old(session), *final(session)),
        is_unlocked(old(session)) && !has_id(session_entries(old(session)), id@) ==> (r matches Err(e)
            && is_not_found_error(e, "Entry"@)),
        is_unlocked(old(session)) && has_id(session_entries(old(session)), id@) ==> exists|i: int|
            first_with_id(session_entries(old(session)), id@, i) && (r matches Ok(v)
                && is_entry_view_of(v, session_entries(old(session))[i])),
{
    ensure_unlocked(session)?;
    session.touch();
    match find_entry_index(&session.entries, id) {
        Some(i) => Ok(entry_metadata_dto(&session.entries[i])),
        None => Err(ArcaError::not_found("Entry")),
    }
}

/// The current password of the first entry with id `id`, as an explicit secret.
pub fn reveal_entry_password_in_state(id: &str, session: &mut SessionState) -> (r: Result<SecretString, ArcaError>)
    ensures
        !is_unlocked(old(session)) ==> (r matches Err(e) && is_locked_error(e)) && *final(session)
            == *old(session),
        is_unlocked(old(session)) ==> touched(*old(session), *final(session)),
        is_unlocked(old(session)) && !has_id(session_entries(old(session)), id@) ==> (r matches Err(e)
            && is_not_found_error(e, "Entry"@)),
        is_unlocked(old(session)) && has_id(session_entries(old(session)), id@) ==> exists|i: int|
            first_with_id(session_entries(old(session)), id@, i) && (r matches Ok(s) && s@
                == session_entries(old(session))[i].password),
{
    ensure_unlocked(session)?;
    session.touch();
    match find_entry_index(&session.entries, id) {
        Some(i) => Ok(SecretString::new(copy_string(&session.entries[i].password))),
        None => Err(ArcaError::not_found("Entry")),
    }
}

/// Metadata-only views of every revision of the first entry with id `id`, newest first,
/// each flagged when its password differs from the next newer one.
pub fn get_entry_revisions_in_state(id: &str, session: &mut SessionState) -> (r: Result<Vec<RevisionView>, ArcaError>)
    ensures
        !is_unlocked(old(session)) ==> (r matches Err(e) && is_locked_error(e)) && *final(session)
            == *old(session),
        is_unlocked(old(session)) ==> touched(*old(session), *final(session)),
        is_unlocked(old(session)) && !has_id(session_entries(old(session)), id@) ==> (r matches Err(e)
            && is_not_found_error(e, "Entry"@)),
        is_unlocked(old(session)) && has_id(session_entries(old(session)), id@) ==> exists|i: int|
            first_with_id(session_entries(old(session)), id@, i) && (r matches Ok(views) && {
                let e = session_entries(old(session))[i];
                &&& views@.len() == e.revisions.len()
                &&& forall|k: int|
                    0 <= k < views@.len() ==> is_revision_view_of(
                        #[trigger] views@[k],
                        e.revisions[k],
                        password_changed_at(e, k),
                    )
            }),
{
    ensure_unlocked(session)?;
    session.touch();
    let i = match find_entry_index(&session.entries, id) {
        Some(i) => i,
        None => return Err(ArcaError::not_found("Entry")),
    };
    let entry = &session.entries[i];
    let ghost e = entry@;
    let mut views: Vec<RevisionView> = Vec::new();
    let mut index: usize = 0;
    while index < entry.revisions.len()
        invariant
            index <= entry.revisions.len(),
            e == entry@,
            views@.len() == index,
            forall|k: int|
                0 <= k < index ==> is_revision_view_of(
                    #[trigger] views@[k],
                    e.revisions[k],
                    password_changed_at(e, k),
                ),
        decreases entry.revisions.len() - index,
    {
        let revision = &entry.revisions[index];
        let changed = if index == 0 {
            revision.password != entry.password
        } else {
            revision.password != entry.revisions[index - 1].password
        };
        assert(e.revisions[index as int] == revision@);
        views.push(revision_dto_from_revision(revision, changed));
        index = index + 1;
    }
    Ok(views)
}

/// The password of revision `index` (0 is the newest) of the first entry with id `id`; a
/// missing entry or revision is not found.
pub fn reveal_entry_revision_password_in_state(id: &str, index: usize, session: &mut SessionState) -> (r: Result<SecretString, ArcaError>)
    ensures
        !is_unlocked(old(session)) ==> (r matches Err(e) && is_locked_error(e)) && *final(session)
            == *old(session),
        is_unlocked(old(session)) ==> touched(*old(session), *final(session)),
        is_unlocked(old(session)) && !has_id(session_entries(old(session)), id@) ==> (r matches Err(e)
            && is_not_found_error(e, "Entry"@)),
        is_unlocked(old(session)) && has_id(session_entries(old(session)), id@) ==> exists|i: int|
            first_with_id(session_entries(old(session)), id@, i) && (if index
                < session_entries(old(session))[i].revisions.len() {
                r matches Ok(s) && s@ == session_entries(old(session))[i].revisions[index as int].password
            } else {
                r matches Err(e) && is_not_found_error(e, "Revision"@)
            }),
{
    ensure_unlocked(session)?;
    session.touch();
    let i = match find_entry_index(&session.entries, id) {
        Some(i) => i,
        None => return Err(ArcaError::not_found("Entry")),
    };
    let entry = &session.entries[i];
    if index < entry.revisions.len() {
        Ok(SecretString::new(copy_string(&entry.revisions[index].password)))
    } else {
        Err(ArcaError::not_found("Revision"))
    }
}

/// Views of the entries matching `query`, in search order.
pub fn search_entries_in_state(query: &str, session: &mut SessionState) -> (r: Result<Vec<EntryView>, ArcaError>)
    ensures
        !is_unlocked(old(session)) ==> (r matches Err(e) && is_locked_error(e)) && *final(session)
            == *old(session),
        is_unlocked(old(session)) ==> touched(*old(session), *final(session)) && (r matches Ok(views)
            && {
            let found = search_result(session_entries(old(session)), query@);
            &&& views@.len() == found.len()
            &&& forall|i: int| 0 <= i < views@.len() ==> is_entry_view_of(#[trigger] views@[i], found[i])
        }),
{
    ensure_unlocked(session)?;
    session.touch();
    let found = core_entry::search_entries(session.entries.as_slice(), query);
    let ghost found_view = core_entry::refs_view(found@);
    let mut views: Vec<EntryView> = Vec::new();
    let mut i: usize = 0;
    while i < found.len()
        invariant
            i <= found.len(),
            found_view == core_entry::refs_view(found@),
            views@.len() == i,
            forall|k: int| 0 <= k < i ==> is_entry_view_of(#[trigger] views@[k], found_view[k]),
        decreases found.len() - i,
    {
        views.push(entry_metadata_dto(found[i]));
        i = i + 1;
    }
    Ok(views)
}

/// The summary returned after unlocking or creating a vault.
pub fn vault_info(path: &str, meta: &VaultMeta, entry_count: usize) -> (r: VaultSummary)
    ensures
        r.name@ == meta.name@,
        r.path@ == path@,
        r.entry_count == entry_count,
        r.modified_at@ == meta.modified_at@,
{
    VaultSummary::new(
        copy_string(&meta.name),
        String::from_str(path),
        entry_count,
        copy_string(&meta.modified_at),
    )
}

/// Adds an entry made from the request to the unlocked session and prepares writing the
/// vault. An empty password is refused before anything changes. The entry stays in the
/// session even when preparing the write fails.
pub fn create_entry_in_state(data: CreateEntryRequest, session: &mut SessionState) -> (r: Result<(EntryView, VaultWrite), ArcaError>)
    ensures
        !is_unlocked(old(session)) ==> (r matches Err(e) && is_locked_error(e)) && *final(session)
            == *old(session),
        is_unlocked(old(session)) && data.password@.len() == 0 ==> (r matches Err(e)
            && is_empty_password_error(e)) && *final(session) == *old(session),
        is_unlocked(old(session)) && data.password@.len() > 0 ==> {
            let entries = session_entries(final(session));
            &&& with_session_entries(*old(session), *final(session))
            &&& entries.len() == session_entries(old(session)).len() + 1
            &&& entries.drop_last() == session_entries(old(session))
            &&& created_from(entries.last(), data)
            &&& match r {
                Ok((v, w)) => is_entry_view_of(v, entries.last()) && saves_session(w, *final(session)),
                Err(e) => is_persist_error(e),
            }
        },
{
    ensure_unlocked(session)?;
    validate_entry_password(data.password.expose_secret())?;
    let core = core_entry::create_entry(
        data.title.as_str(),
        data.username.as_str(),
        data.password.expose_secret(),
    );
    let entry = VaultEntry {
        id: core.id,
        title: core.title,
        username: core.username,
        password: core.password,
        collection: data.collection,
        url: data.url,
        notes: data.notes,
        tags: data.tags,
        created_at: core.created_at,
        updated_at: core.updated_at,
        revisions: core.revisions,
    };
    let view = entry_metadata_dto(&entry);
    let ghost before = session.entries@;
    let ghost e = entry@;
    session.entries.push(entry);
    proof {
        assert(entries_view(session.entries@) =~= entries_view(before).push(e));
        assert(entries_view(session.entries@).drop_last() =~= entries_view(before));
    }
    let write = persist_session(session)?;
    Ok((view, write))
}

/// Applies a mutation to the first entry with id `id`, keeping at most `revision_limit`
/// revisions (clamped to the maximum), and prepares writing the vault. An empty
/// replacement password is refused before anything changes.
pub fn update_entry_in_state(id: &str, data: EntryMutation, revision_limit: usize, session: &mut SessionState) -> (r: Result<(EntryView, VaultWrite), ArcaError>)
    ensures
        !is_unlocked(old(session)) ==> (r matches Err(e) && is_locked_error(e)) && *final(session)
            == *old(session),
        is_unlocked(old(session)) && (data.password matches Some(p) && p@.len() == 0) ==> (r matches Err(
            e,
        ) && is_empty_password_error(e)) && *final(session) == *old(session),
        is_unlocked(old(session)) && !(data.password matches Some(p) && p@.len() == 0) && !has_id(
            session_entries(old(session)),
            id@,
        ) ==> (r matches Err(e) && is_not_found_error(e, "Entry"@)) && *final(session) == *old(session),
        is_unlocked(old(session)) && !(data.password matches Some(p) && p@.len() == 0) && has_id(
            session_entries(old(session)),
            id@,
        ) ==> exists|i: int|
            first_with_id(session_entries(old(session)), id@, i) && {
                let before = session_entries(old(session));
                let entries = session_entries(final(session));
                &&& with_session_entries(*old(session), *final(session))
                &&& entries == before.update(
                    i,
                    updated_entry(before[i], patch_of(data), revision_limit as nat, entries[i].updated_at),
                )
                &&& match r {
                    Ok((v, w)) => is_entry_view_of(v, entries[i]) && saves_session(w, *final(session)),
                    Err(e) => is_persist_error(e),
                }
            },
{
    ensure_unlocked(session)?;
    let empty_password = match &data.password {
        Some(password) => password.expose_secret().is_empty(),
        None => false,
    };
    if empty_password {
        return Err(ArcaError::invalid_input(EMPTY_PASSWORD_MESSAGE));
    }
    let i = match find_entry_index(&session.entries, id) {
        Some(i) => i,
        None => return Err(ArcaError::not_found("Entry")),
    };
    let patch = entry_patch_from_dto(data);
    let ghost before = session.entries@;
    core_entry::update_entry_with_revision_limit(&mut session.entries[i], patch, revision_limit);
    let view = entry_metadata_dto(&session.entries[i]);
    proof {
        assert(entries_view(session.entries@) =~= entries_view(before).update(
            i as int,
            session.entries@[i as int]@,
        ));
    }
    let write = persist_session(session)?;
    Ok((view, write))
}

/// Whether an entry does not have id `id`.
pub open spec fn keeps_entry(id: Seq<char>) -> spec_fn(EntryModel) -> bool {
    |e: EntryModel| e.id != id
}

/// Removes every entry with id `id` and prepares writing the vault; when none has that id
/// the answer is not found and nothing changes.
pub fn delete_entry_in_state(id: &str, session: &mut SessionState) -> (r: Result<VaultWrite, ArcaError>)
    ensures
        !is_unlocked(old(session)) ==> (r matches Err(e) && is_locked_error(e)) && *final(session)
            == *old(session),
        is_unlocked(old(session)) && !has_id(session_entries(old(session)), id@) ==> (r matches Err(e)
            && is_not_found_error(e, "Entry"@)) && session_entries(final(session))
            == session_entries(old(session)) && with_session_entries(*old(session), *final(session)),
        is_unlocked(old(session)) && has_id(session_entries(old(session)), id@) ==> {
            &&& with_session_entries(*old(session), *final(session))
            &&& session_entries(final(session)) == session_entries(old(session)).filter(keeps_entry(id@))
            &&& match r {
                Ok(w) => saves_session(w, *final(session)),
                Err(e) => is_persist_error(e),
            }
        },
{
    ensure_unlocked(session)?;
    let wanted = String::from_str(id);
    let ghost before = entries_view(session.entries@);
    let ghost pred = keeps_entry(id@);
    let mut kept: Vec<VaultEntry> = Vec::new();
    let mut i: usize = 0;
    while i < session.entries.len()
        invariant
            before == entries_view(session.entries@),
            wanted@ == id@,
            pred == keeps_entry(id@),
            i <= session.entries.len(),
            entries_view(kept@) == before.take(i as int).filter(pred),
            kept@.len() == i ==> forall|j: int| 0 <= j < i ==> before[j].id != id@,
            (forall|j: int| 0 <= j < i ==> before[j].id != id@) ==> kept@.len() == i,
            kept@.len() <= i,
        decreases session.entries.len() - i,
    {
        proof {
            reveal(Seq::filter);
            assert(before.take(i + 1).drop_last() =~= before.take(i as int));
            assert(before.take(i + 1).last() == before[i as int]);
            assert(before[i as int] == session.entries@[i as int]@);
        }
        if session.entries[i].id != wanted {
            let ghost prev = kept@;
            kept.push(session.entries[i].duplicate());
            proof {
                assert(entries_view(kept@) =~= entries_view(prev).push(before[i as int]));
            }
        }
        i = i + 1;
    }
    proof {
        assert(before.take(before.len() as int) =~= before);
    }
    if kept.len() == session.entries.len() {
        proof {
            assert(!has_id(before, id@));
        }
        return Err(ArcaError::not_found("Entry"));
    }
    session.entries = kept;
    persist_session(session)
}

/// The settings as stored: the revision limit clamped to the maximum.
pub open spec fn clamped_settings(s: Settings) -> Settings {
    Settings {
        entry_revision_limit: if s.entry_revision_limit < MAX_ENTRY_REVISION_LIMIT {
            s.entry_revision_limit
        } else {
            MAX_ENTRY_REVISION_LIMIT
        },
        ..s
    }
}

/// Entries with their histories cut down to `limit` revisions.
pub open spec fn trimmed_entries(es: Seq<EntryModel>, limit: nat) -> Seq<EntryModel> {
    es.map_values(|e: EntryModel| EntryModel { revisions: trim_history(e.revisions, limit), ..e })
}

/// Whether cutting the histories down to `limit` revisions drops any revision.
pub open spec fn any_trimmed(es: Seq<EntryModel>, limit: nat) -> bool {
    exists|i: int|
        0 <= i < es.len() && trim_history(#[trigger] es[i].revisions, limit).len()
            != es[i].revisions.len()
}

/// Entries trimmed for a lower revision limit, with the write that stores them.
pub struct StagedEntries {
    pub entries: Vec<VaultEntry>,
    pub write: VaultWrite,
}

/// What a settings change does: the settings to store and, when the new limit drops
/// revisions from the unlocked vault, the trimmed entries that replace the session's once
/// their write succeeded.
pub struct SettingsChange {
    pub settings: Settings,
    pub staged: Option<StagedEntries>,
}

/// Decides a settings change: the limit is clamped to the maximum, and when the vault is
/// unlocked and the limit drops revisions, the trimmed entries are staged with their write.
/// The session itself is not changed; when preparing the write fails, neither are the
/// settings.
pub fn update_settings_in_state(settings: Settings, session: &SessionState) -> (r: Result<SettingsChange, ArcaError>)
    ensures
        r matches Ok(c) ==> c.settings == clamped_settings(settings),
        !is_unlocked(session) ==> (r matches Ok(c) && c.staged is None),
        is_unlocked(session) && !any_trimmed(
            session_entries(session),
            clamped_settings(settings).entry_revision_limit as nat,
        ) ==> (r matches Ok(c) && c.staged is None),
        is_unlocked(session) && any_trimmed(
            session_entries(session),
            clamped_settings(settings).entry_revision_limit as nat,
        ) ==> match r {
            Ok(c) => c.staged matches Some(st) && entries_view(st.entries@) == trimmed_entries(
                session_entries(session),
                clamped_settings(settings).entry_revision_limit as nat,
            ) && writes_session_file(st.write, *session) && is_saved_vault(
                st.write.bytes@,
                session_password(session),
                session.meta->0@,
                entries_view(st.entries@),
            ),
            Err(e) => is_persist_error(e),
        },
{
    let limit = if settings.entry_revision_limit < MAX_ENTRY_REVISION_LIMIT {
        settings.entry_revision_limit
    } else {
        MAX_ENTRY_REVISION_LIMIT
    };
    let clamped = Settings { entry_revision_limit: limit, ..settings };
    if ensure_unlocked(session).is_err() {
        return Ok(SettingsChange { settings: clamped, staged: None });
    }
    let ghost before = session_entries(session);
    let mut staged: Vec<VaultEntry> = Vec::new();
    let mut trimmed = false;
    let mut i: usize = 0;
    while i < session.entries.len()
        invariant
            before == session_entries(session),
            i <= session.entries.len(),
            staged@.len() == i,
            forall|k: int|
                0 <= k < i ==> (#[trigger] staged@[k])@ == trimmed_entries(before, limit as nat)[k],
            trimmed <==> exists|k: int|
                0 <= k < i && trim_history(#[trigger] before[k].revisions, limit as nat).len()
                    != before[k].revisions.len(),
        decreases session.entries.len() - i,
    {
        let mut entry = session.entries[i].duplicate();
        let changed = core_entry::trim_entry_revisions(&mut entry, limit);
        proof {
            assert(before[i as int] == session.entries@[i as int]@);
        }
        trimmed = trimmed || changed;
        staged.push(entry);
        i = i + 1;
    }
    proof {
        assert(entries_view(staged@) =~= trimmed_entries(before, limit as nat));
    }
    if !trimmed {
        return Ok(SettingsChange { settings: clamped, staged: None });
    }
    let write = persist_entries(session, staged.as_slice())?;
    Ok(SettingsChange { settings: clamped, staged: Some(StagedEntries { entries: staged, write }) })
}

} // verus!
