//! Entry lifecycle: creation, patching with bounded revision history, and search.
use vstd::prelude::*;

use crate::clock::{new_entry_id, now_rfc3339};
use crate::kdbx::{hyphenated_lowercase_uuid, rfc3339_of, spec_rfc3339_parses, spec_uuid_parses};
use crate::text::{
    contains, copy_string, opt_eq, opt_view, spec_contains, lowercase_of, trimmed_of,
    strings_eq, strings_view, to_lowercase, trim,
};
use crate::types::{entries_view, EntryModel, EntryRevision, RevisionModel, VaultEntry};
use crate::wipe::zeroize_revision;

verus! {

/// Number of historical revisions retained per entry when no explicit limit is configured.
pub const DEFAULT_ENTRY_REVISION_LIMIT: usize = 5;

/// Hard upper bound on retained revisions; any configured limit is clamped to this value.
pub const MAX_ENTRY_REVISION_LIMIT: usize = 25;

/// Partial update applied to a [`VaultEntry`].
///
/// A `None` field leaves the current value untouched. Fields wrapped in a nested
/// `Option` (`collection`, `url`, `notes`) use `Some(None)` to clear the value and
/// `Some(Some(value))` to set it.
#[derive(Debug, Clone, PartialEq, Eq)]
pub struct EntryPatch {
    pub title: Option<String>,
    pub username: Option<String>,
    pub password: Option<String>,
    pub collection: Option<Option<String>>,
    pub url: Option<Option<String>>,
    pub notes: Option<Option<String>>,
    pub tags: Option<Vec<String>>,
}

impl Default for EntryPatch {
    /// The patch that changes nothing.
    fn default() -> (r: Self)
        ensures
            r.title is None,
            r.username is None,
            r.password is None,
            r.collection is None,
            r.url is None,
            r.notes is None,
            r.tags is None,
    {
        EntryPatch {
            title: None,
            username: None,
            password: None,
            collection: None,
            url: None,
            notes: None,
            tags: None,
        }
    }
}

/// The mathematical value of an [`EntryPatch`].
pub struct PatchModel {
    pub title: Option<Seq<char>>,
    pub username: Option<Seq<char>>,
    pub password: Option<Seq<char>>,
    pub collection: Option<Option<Seq<char>>>,
    pub url: Option<Option<Seq<char>>>,
    pub notes: Option<Option<Seq<char>>>,
    pub tags: Option<Seq<Seq<char>>>,
}

/// The view of a nested optional string.
pub open spec fn opt_opt_view(o: Option<Option<String>>) -> Option<Option<Seq<char>>> {
    match o {
        Some(inner) => Some(opt_view(inner)),
        None => None,
    }
}

/// The view of an optional list of strings.
pub open spec fn opt_strings_view(o: Option<Vec<String>>) -> Option<Seq<Seq<char>>> {
    match o {
        Some(v) => Some(strings_view(v@)),
        None => None,
    }
}

impl View for EntryPatch {
    type V = PatchModel;

    open spec fn view(&self) -> PatchModel {
        PatchModel {
            title: opt_view(self.title),
            username: opt_view(self.username),
            password: opt_view(self.password),
            collection: opt_opt_view(self.collection),
            url: opt_opt_view(self.url),
            notes: opt_opt_view(self.notes),
            tags: opt_strings_view(self.tags),
        }
    }
}

/// Whether a patch field asks for a value other than the current one.
pub open spec fn alters<T>(requested: Option<T>, current: T) -> bool {
    match requested {
        Some(v) => v != current,
        None => false,
    }
}

/// The requested value of a patch field, or the current one when the field is absent.
pub open spec fn or_keep<T>(requested: Option<T>, current: T) -> T {
    match requested {
        Some(v) => v,
        None => current,
    }
}

/// Whether applying `p` would change at least one field of `e`.
pub open spec fn patch_changes(e: EntryModel, p: PatchModel) -> bool {
    ||| alters(p.title, e.title)
    ||| alters(p.username, e.username)
    ||| alters(p.password, e.password)
    ||| alters(p.collection, e.collection)
    ||| alters(p.url, e.url)
    ||| alters(p.notes, e.notes)
    ||| alters(p.tags, e.tags)
}

/// A configured revision limit after clamping to [`MAX_ENTRY_REVISION_LIMIT`].
pub open spec fn effective_limit(limit: nat) -> nat {
    if limit < MAX_ENTRY_REVISION_LIMIT {
        limit
    } else {
        MAX_ENTRY_REVISION_LIMIT as nat
    }
}

/// A revision list cut down to the newest `effective_limit(limit)` revisions.
pub open spec fn trim_history(revisions: Seq<RevisionModel>, limit: nat) -> Seq<RevisionModel> {
    if revisions.len() > effective_limit(limit) {
        revisions.take(effective_limit(limit) as int)
    } else {
        revisions
    }
}

/// The revision recorded for `e` when it is updated at `captured_at`.
pub open spec fn snapshot(e: EntryModel, captured_at: Seq<char>) -> RevisionModel {
    RevisionModel {
        captured_at,
        title: e.title,
        username: e.username,
        password: e.password,
        collection: e.collection,
        url: e.url,
        notes: e.notes,
        tags: e.tags,
        updated_at: e.updated_at,
    }
}

/// The revision history after updating `e` with `p` at time `now`: the stored history is
/// always bounded by the limit. A patch that changes nothing records no revision and only
/// trims the history; otherwise the snapshot of the old values is prepended and the result
/// trimmed. A limit of 0 leaves no history at all.
pub open spec fn history_after_update(
    e: EntryModel,
    p: PatchModel,
    limit: nat,
    now: Seq<char>,
) -> Seq<RevisionModel> {
    if !patch_changes(e, p) {
        trim_history(e.revisions, limit)
    } else if effective_limit(limit) == 0 {
        Seq::empty()
    } else {
        trim_history(seq![snapshot(e, now)] + e.revisions, limit)
    }
}

/// The entry that results from applying `p` to `e` at time `now` with the given revision
/// limit.
pub open spec fn updated_entry(e: EntryModel, p: PatchModel, limit: nat, now: Seq<char>) -> EntryModel {
    EntryModel {
        id: e.id,
        title: or_keep(p.title, e.title),
        username: or_keep(p.username, e.username),
        password: or_keep(p.password, e.password),
        collection: or_keep(p.collection, e.collection),
        url: or_keep(p.url, e.url),
        notes: or_keep(p.notes, e.notes),
        tags: or_keep(p.tags, e.tags),
        created_at: e.created_at,
        updated_at: now,
        revisions: history_after_update(e, p, limit, now),
    }
}

/// The entry with id `id` holding the given credentials and no optional data, created and
/// last updated at `now`, without history.
pub open spec fn fresh_entry(
    id: Seq<char>,
    title: Seq<char>,
    username: Seq<char>,
    password: Seq<char>,
    now: Seq<char>,
) -> EntryModel {
    EntryModel {
        id,
        title,
        username,
        password,
        collection: None,
        url: None,
        notes: None,
        tags: Seq::empty(),
        created_at: now,
        updated_at: now,
        revisions: Seq::empty(),
    }
}

/// Builds an entry with the given id and timestamp: no optional data, no tags, no history,
/// and `created_at == updated_at == now`.
pub fn new_entry(id: String, title: &str, username: &str, password: &str, now: String) -> (e:
    VaultEntry)
    ensures
        e@ == fresh_entry(id@, title@, username@, password@, now@),
{
    let updated_at = copy_string(&now);
    let e = VaultEntry {
        id,
        title: String::from_str(title),
        username: String::from_str(username),
        password: String::from_str(password),
        collection: None,
        url: None,
        notes: None,
        tags: Vec::new(),
        created_at: now,
        updated_at,
        revisions: Vec::new(),
    };
    assert(e@.tags =~= Seq::<Seq<char>>::empty());
    assert(e@.revisions =~= Seq::<RevisionModel>::empty());
    e
}

/// Build a new [`VaultEntry`] with a fresh UUID and matching created/updated timestamps.
///
/// The entry starts with no revision history; snapshots are only captured on later updates.
pub fn create_entry(title: &str, username: &str, password: &str) -> (e: VaultEntry)
    ensures
        e@ == fresh_entry(e@.id, title@, username@, password@, e@.created_at),
        hyphenated_lowercase_uuid(e@.id),
        spec_uuid_parses(e@.id),
        exists|t: chrono::NaiveDateTime| e@.created_at == rfc3339_of(t),
        spec_rfc3339_parses(e@.created_at),
{
    let now = now_rfc3339();
    let id = new_entry_id();
    new_entry(id, title, username, password, now)
}

/// Report whether `patch` would change any field of `entry`, used to decide if a revision
/// snapshot is warranted.
fn patch_changes_entry(entry: &VaultEntry, patch: &EntryPatch) -> (r: bool)
    ensures
        r == patch_changes(entry@, patch@),
{
    if let Some(title) = &patch.title {
        if *title != entry.title {
            return true;
        }
    }
    if let Some(username) = &patch.username {
        if *username != entry.username {
            return true;
        }
    }
    if let Some(password) = &patch.password {
        if *password != entry.password {
            return true;
        }
    }
    if let Some(collection) = &patch.collection {
        if !opt_eq(collection, &entry.collection) {
            return true;
        }
    }
    if let Some(url) = &patch.url {
        if !opt_eq(url, &entry.url) {
            return true;
        }
    }
    if let Some(notes) = &patch.notes {
        if !opt_eq(notes, &entry.notes) {
            return true;
        }
    }
    if let Some(tags) = &patch.tags {
        if !strings_eq(tags, &entry.tags) {
            return true;
        }
    }
    false
}

/// Reduce `entry`'s stored revisions to at most `revision_limit` (clamped to
/// [`MAX_ENTRY_REVISION_LIMIT`]), zeroizing every discarded revision before removal.
///
/// Returns `true` if any revisions were dropped, so callers can decide whether the change
/// needs to be persisted.
pub fn trim_entry_revisions(entry: &mut VaultEntry, revision_limit: usize) -> (trimmed: bool)
    ensures
        final(entry)@ == (EntryModel {
            revisions: trim_history(old(entry)@.revisions, revision_limit as nat),
            ..old(entry)@
        }),
        trimmed == (trim_history(old(entry)@.revisions, revision_limit as nat).len()
            != old(entry)@.revisions.len()),
{
    let original_len = entry.revisions.len();
    let limit = if revision_limit < MAX_ENTRY_REVISION_LIMIT {
        revision_limit
    } else {
        MAX_ENTRY_REVISION_LIMIT
    };
    let ghost before = entry.revisions@;
    while entry.revisions.len() > limit
        invariant
            limit == effective_limit(revision_limit as nat),
            entry.revisions@.len() <= before.len(),
            entry.revisions@ == before.take(entry.revisions@.len() as int),
            before.len() > limit ==> entry.revisions@.len() >= limit,
            before.len() <= limit ==> entry.revisions@.len() == before.len(),
            entry.id == old(entry).id,
            entry.title == old(entry).title,
            entry.username == old(entry).username,
            entry.password == old(entry).password,
            entry.collection == old(entry).collection,
            entry.url == old(entry).url,
            entry.notes == old(entry).notes,
            entry.tags == old(entry).tags,
            entry.created_at == old(entry).created_at,
            entry.updated_at == old(entry).updated_at,
            before == old(entry).revisions@,
        decreases entry.revisions.len(),
    {
        let ghost len = entry.revisions@.len();
        let discarded = entry.revisions.pop();
        if let Some(mut revision) = discarded {
            zeroize_revision(&mut revision);
        }
        assert(entry.revisions@ =~= before.take(len - 1));
    }
    proof {
        if before.len() > limit {
            assert(entry.revisions@.len() == limit);
        } else {
            assert(entry.revisions@ =~= before);
        }
        assert(crate::types::revisions_view(entry.revisions@) =~= trim_history(
            crate::types::revisions_view(before),
            revision_limit as nat,
        ));
    }
    entry.revisions.len() != original_len
}

/// Prepend a snapshot of `entry`'s current values as the newest revision, then trim the
/// history to `revision_limit`. A limit of `0` records nothing and clears existing history.
fn capture_revision(entry: &mut VaultEntry, captured_at: String, revision_limit: usize)
    ensures
        final(entry)@ == (EntryModel {
            revisions: if effective_limit(revision_limit as nat) == 0 {
                Seq::empty()
            } else {
                trim_history(
                    seq![snapshot(old(entry)@, captured_at@)] + old(entry)@.revisions,
                    revision_limit as nat,
                )
            },
            ..old(entry)@
        }),
{
    let limit = if revision_limit < MAX_ENTRY_REVISION_LIMIT {
        revision_limit
    } else {
        MAX_ENTRY_REVISION_LIMIT
    };
    if limit == 0 {
        trim_entry_revisions(entry, limit);
        assert(entry@.revisions =~= Seq::<RevisionModel>::empty());
        return;
    }
    let revision = EntryRevision {
        captured_at,
        title: copy_string(&entry.title),
        username: copy_string(&entry.username),
        password: copy_string(&entry.password),
        collection: crate::text::copy_opt(&entry.collection),
        url: crate::text::copy_opt(&entry.url),
        notes: crate::text::copy_opt(&entry.notes),
        tags: crate::text::copy_strings(&entry.tags),
        updated_at: copy_string(&entry.updated_at),
    };
    let ghost snap = revision@;
    entry.revisions.insert(0, revision);
    assert(crate::types::revisions_view(entry.revisions@) =~= seq![snap]
        + old(entry)@.revisions);
    trim_entry_revisions(entry, revision_limit);
}

/// Apply `patch` to `entry` as of time `updated_at`: record a snapshot of the old values when
/// the patch changes something, write the requested fields, and set `updated_at`.
pub fn apply_entry_update(
    entry: &mut VaultEntry,
    patch: EntryPatch,
    revision_limit: usize,
    updated_at: String,
)
    ensures
        final(entry)@ == updated_entry(old(entry)@, patch@, revision_limit as nat, updated_at@),
{
    let should_capture_revision = patch_changes_entry(entry, &patch);
    if should_capture_revision {
        capture_revision(entry, copy_string(&updated_at), revision_limit);
    } else {
        trim_entry_revisions(entry, revision_limit);
    }
    if let Some(title) = patch.title {
        entry.title = title;
    }
    if let Some(username) = patch.username {
        entry.username = username;
    }
    if let Some(password) = patch.password {
        entry.password = password;
    }
    if let Some(collection) = patch.collection {
        entry.collection = collection;
    }
    if let Some(url) = patch.url {
        entry.url = url;
    }
    if let Some(notes) = patch.notes {
        entry.notes = notes;
    }
    if let Some(tags) = patch.tags {
        entry.tags = tags;
    }
    entry.updated_at = updated_at;
}

/// Apply `patch` to `entry`, capturing a revision snapshot when a meaningful field changes.
///
/// A snapshot of the pre-update values is recorded only if the patch alters at least one
/// field, then the applied changes and a refreshed `updated_at` timestamp are written.
/// The stored history is bounded by `revision_limit` (clamped to
/// [`MAX_ENTRY_REVISION_LIMIT`]); a limit of `0` disables history and clears any existing
/// revisions.
pub fn update_entry_with_revision_limit(
    entry: &mut VaultEntry,
    patch: EntryPatch,
    revision_limit: usize,
)
    ensures
        final(entry)@ == updated_entry(
            old(entry)@,
            patch@,
            revision_limit as nat,
            final(entry)@.updated_at,
        ),
        exists|t: chrono::NaiveDateTime| final(entry)@.updated_at == rfc3339_of(t),
        spec_rfc3339_parses(final(entry)@.updated_at),
{
    let updated_at = now_rfc3339();
    apply_entry_update(entry, patch, revision_limit, updated_at);
}

/// Apply `patch` to `entry` using the default revision retention limit.
pub fn update_entry(entry: &mut VaultEntry, patch: EntryPatch)
    ensures
        final(entry)@ == updated_entry(
            old(entry)@,
            patch@,
            DEFAULT_ENTRY_REVISION_LIMIT as nat,
            final(entry)@.updated_at,
        ),
        exists|t: chrono::NaiveDateTime| final(entry)@.updated_at == rfc3339_of(t),
        spec_rfc3339_parses(final(entry)@.updated_at),
{
    update_entry_with_revision_limit(entry, patch, DEFAULT_ENTRY_REVISION_LIMIT);
}

/// The relevance of an entry for a normalized query: 0 for a title match, 1 for username,
/// 2 for collection, 3 for url, 4 for a tag, and `None` when nothing contains the query
/// (all compared in lowercase). Revision history is never consulted.
pub open spec fn relevance_rank(e: EntryModel, q: Seq<char>) -> Option<u8> {
    if spec_contains(lowercase_of(e.title), q) {
        Some(0u8)
    } else if spec_contains(lowercase_of(e.username), q) {
        Some(1u8)
    } else if e.collection matches Some(c) && spec_contains(lowercase_of(c), q) {
        Some(2u8)
    } else if e.url matches Some(u) && spec_contains(lowercase_of(u), q) {
        Some(3u8)
    } else if exists|k: int|
        0 <= k < e.tags.len() && spec_contains(lowercase_of(#[trigger] e.tags[k]), q) {
        Some(4u8)
    } else {
        None
    }
}

/// Whether one of the entry's tags equals `t` once lowercased.
pub open spec fn has_tag(e: EntryModel, t: Seq<char>) -> bool {
    exists|k: int| 0 <= k < e.tags.len() && lowercase_of(#[trigger] e.tags[k]) == t
}

/// The predicate "carries tag `t`".
pub open spec fn tag_pred(t: Seq<char>) -> spec_fn(EntryModel) -> bool {
    |e: EntryModel| has_tag(e, t)
}

/// The predicate "has relevance `r` for query `q`".
pub open spec fn rank_pred(q: Seq<char>, r: u8) -> spec_fn(EntryModel) -> bool {
    |e: EntryModel| relevance_rank(e, q) == Some(r)
}

/// The entries of relevance below `n`, grouped by relevance and in their original order
/// within a group.
pub open spec fn ranked_upto(es: Seq<EntryModel>, q: Seq<char>, n: nat) -> Seq<EntryModel>
    decreases n,
{
    if n == 0 {
        Seq::empty()
    } else {
        ranked_upto(es, q, (n - 1) as nat) + es.filter(rank_pred(q, (n - 1) as u8))
    }
}

/// The search query after trimming surrounding whitespace and lowercasing.
pub open spec fn normalized_query(query: Seq<char>) -> Seq<char> {
    lowercase_of(trimmed_of(query))
}

/// The result of searching `es` for `query`: a `#tag` query yields the entries carrying that
/// exact tag (nothing for a bare `#`); any other query yields the matching entries ordered by
/// relevance, stable within a relevance.
pub open spec fn search_result(es: Seq<EntryModel>, query: Seq<char>) -> Seq<EntryModel> {
    let q = normalized_query(query);
    if q.len() > 0 && q[0] == '#' {
        let t = q.subrange(1, q.len() as int);
        if t.len() == 0 {
            Seq::empty()
        } else {
            es.filter(tag_pred(t))
        }
    } else {
        ranked_upto(es, q, 5)
    }
}

/// The values behind a list of entry references.
pub open spec fn refs_view(v: Seq<&VaultEntry>) -> Seq<EntryModel> {
    v.map_values(|e: &VaultEntry| e@)
}

/// Whether some string in `tags` contains `query` once lowercased.
fn any_tag_contains(tags: &Vec<String>, query: &str) -> (r: bool)
    ensures
        r == exists|k: int|
            0 <= k < tags@.len() && spec_contains(lowercase_of(#[trigger] tags@[k]@), query@),
{
    let mut i: usize = 0;
    while i < tags.len()
        invariant
            i <= tags.len(),
            forall|k: int| 0 <= k < i ==> !spec_contains(lowercase_of(#[trigger] tags@[k]@), query@),
        decreases tags.len() - i,
    {
        let lowered = to_lowercase(tags[i].as_str());
        if contains(lowered.as_str(), query) {
            return true;
        }
        i = i + 1;
    }
    false
}

/// Score an entry against `query`, returning a lower number for higher-priority matches
/// (title first, tags last) or `None` when nothing matches.
fn relevance(entry: &VaultEntry, query: &str) -> (r: Option<u8>)
    ensures
        r == relevance_rank(entry@, query@),
{
    let title = to_lowercase(entry.title.as_str());
    if contains(title.as_str(), query) {
        return Some(0);
    }
    let username = to_lowercase(entry.username.as_str());
    if contains(username.as_str(), query) {
        return Some(1);
    }
    if let Some(collection) = &entry.collection {
        let lowered = to_lowercase(collection.as_str());
        if contains(lowered.as_str(), query) {
            return Some(2);
        }
    }
    if let Some(url) = &entry.url {
        let lowered = to_lowercase(url.as_str());
        if contains(lowered.as_str(), query) {
            return Some(3);
        }
    }
    if any_tag_contains(&entry.tags, query) {
        let ghost k = choose|k: int|
            0 <= k < entry.tags@.len() && spec_contains(
                lowercase_of(#[trigger] entry.tags@[k]@),
                query@,
            );
        assert(entry@.tags[k] == entry.tags@[k]@);
        return Some(4);
    }
    None
}

/// Whether one of the entry's tags, lowercased, equals `tag_query`.
fn entry_has_tag(entry: &VaultEntry, tag_query: &str) -> (r: bool)
    ensures
        r == has_tag(entry@, tag_query@),
{
    let tag_text = String::from_str(tag_query);
    let mut i: usize = 0;
    while i < entry.tags.len()
        invariant
            i <= entry.tags.len(),
            tag_text@ == tag_query@,
            forall|k: int| 0 <= k < i ==> lowercase_of(#[trigger] entry.tags@[k]@) != tag_query@,
        decreases entry.tags.len() - i,
    {
        let lowered = to_lowercase(entry.tags[i].as_str());
        if lowered == tag_text {
            assert(entry@.tags[i as int] == entry.tags@[i as int]@);
            return true;
        }
        i = i + 1;
    }
    assert forall|k: int| 0 <= k < entry@.tags.len() implies lowercase_of(
        #[trigger] entry@.tags[k],
    ) != tag_query@ by {
        assert(entry@.tags[k] == entry.tags@[k]@);
    }
    false
}

/// Return entries matching `query`, ranked by relevance.
///
/// A `#tag` query filters to entries carrying that exact tag; otherwise the query is matched
/// (case-insensitively) against title, username, collection, url, and tags in that priority
/// order. Revision history is never searched, keeping historical secrets out of previews.
pub fn search_entries<'a>(entries: &'a [VaultEntry], query: &str) -> (r: Vec<&'a VaultEntry>)
    ensures
        refs_view(r@) == search_result(entries_view(entries@), query@),
{
    let ghost es = entries_view(entries@);
    let normalized = to_lowercase(trim(query));
    let n = normalized.as_str().unicode_len();
    if n > 0 && normalized.as_str().get_char(0) == '#' {
        let tag_query = normalized.as_str().substring_char(1, n);
        let mut out: Vec<&'a VaultEntry> = Vec::new();
        if tag_query.unicode_len() == 0 {
            assert(refs_view(out@) =~= Seq::<EntryModel>::empty());
            return out;
        }
        let mut i: usize = 0;
        while i < entries.len()
            invariant
                i <= entries.len(),
                es == entries_view(entries@),
                refs_view(out@) == es.take(i as int).filter(tag_pred(tag_query@)),
            decreases entries.len() - i,
        {
            let entry = &entries[i];
            let keep = entry_has_tag(entry, tag_query);
            proof {
                reveal_with_fuel(Seq::<_>::filter, 1);
                assert(es.take(i + 1).drop_last() =~= es.take(i as int));
                assert(es.take(i + 1).last() == entry@);
            }
            if keep {
                out.push(entry);
                assert(refs_view(out@) =~= es.take(i + 1).filter(tag_pred(tag_query@)));
            } else {
                assert(refs_view(out@) =~= es.take(i + 1).filter(tag_pred(tag_query@)));
            }
            i = i + 1;
        }
        assert(es.take(entries.len() as int) =~= es);
        return out;
    }
    let mut ranks: Vec<Option<u8>> = Vec::new();
    let mut i: usize = 0;
    while i < entries.len()
        invariant
            i <= entries.len(),
            ranks@.len() == i,
            forall|k: int| 0 <= k < i ==> ranks@[k] == relevance_rank(entries@[k]@, normalized@),
        decreases entries.len() - i,
    {
        ranks.push(relevance(&entries[i], normalized.as_str()));
        i = i + 1;
    }
    let mut out: Vec<&'a VaultEntry> = Vec::new();
    let mut r: u8 = 0;
    assert(refs_view(out@) =~= ranked_upto(es, normalized@, 0));
    while r < 5
        invariant
            r <= 5,
            ranks@.len() == entries@.len(),
            es == entries_view(entries@),
            forall|k: int| 0 <= k < ranks@.len() ==> ranks@[k] == relevance_rank(es[k], normalized@),
            refs_view(out@) == ranked_upto(es, normalized@, r as nat),
        decreases 5 - r,
    {
        let ghost prefix = refs_view(out@);
        let mut j: usize = 0;
        while j < entries.len()
            invariant
                j <= entries.len(),
                r < 5,
                ranks@.len() == entries@.len(),
                es == entries_view(entries@),
                forall|k: int| 0 <= k < ranks@.len() ==> ranks@[k] == relevance_rank(es[k], normalized@),
                prefix == ranked_upto(es, normalized@, r as nat),
                refs_view(out@) == prefix + es.take(j as int).filter(rank_pred(normalized@, r)),
            decreases entries.len() - j,
        {
            let entry = &entries[j];
            let keep = match ranks[j] {
                Some(rank) => rank == r,
                None => false,
            };
            assert(entry@ == es[j as int]);
            assert(keep == rank_pred(normalized@, r)(es[j as int]));
            proof {
                reveal_with_fuel(Seq::<_>::filter, 1);
                assert(es.take(j + 1).drop_last() =~= es.take(j as int));
                assert(es.take(j + 1).last() == es[j as int]);
            }
            if keep {
                let ghost before_push = out@;
                out.push(entry);
                assert(es.take(j + 1).filter(rank_pred(normalized@, r)) == es.take(j as int).filter(
                    rank_pred(normalized@, r),
                ).push(es[j as int]));
                assert(refs_view(out@) =~= refs_view(before_push).push(entry@));
                assert(refs_view(out@) =~= prefix + es.take(j + 1).filter(rank_pred(normalized@, r)));
            } else {
                assert(refs_view(out@) =~= prefix + es.take(j + 1).filter(rank_pred(normalized@, r)));
            }
            j = j + 1;
        }
        assert(es.take(entries.len() as int) =~= es);
        r = r + 1;
    }
    out
}

/// An update keeps the entry's id and creation time and stamps the update time.
pub proof fn update_keeps_identity(e: EntryModel, p: PatchModel, limit: nat, now: Seq<char>)
    ensures
        updated_entry(e, p, limit, now).id == e.id,
        updated_entry(e, p, limit, now).created_at == e.created_at,
        updated_entry(e, p, limit, now).updated_at == now,
{
}

/// A patch that changes no field records no revision: the history is the old one cut down
/// to the limit, so it is unchanged when it already fits.
pub proof fn unchanged_patch_records_no_revision(
    e: EntryModel,
    p: PatchModel,
    limit: nat,
    now: Seq<char>,
)
    requires
        !patch_changes(e, p),
    ensures
        updated_entry(e, p, limit, now).revisions == e.revisions.take(
            if e.revisions.len() < effective_limit(limit) { e.revisions.len() as int } else { effective_limit(limit) as int },
        ),
        e.revisions.len() <= effective_limit(limit) ==> updated_entry(e, p, limit, now).revisions == e.revisions,
{
    assert(e.revisions.take(e.revisions.len() as int) =~= e.revisions);
}

/// Every update bounds the stored history by the limit; a limit of 0 clears it.
pub proof fn update_bounds_history(e: EntryModel, p: PatchModel, limit: nat, now: Seq<char>)
    ensures
        updated_entry(e, p, limit, now).revisions.len() <= effective_limit(limit),
        effective_limit(limit) == 0 ==> updated_entry(e, p, limit, now).revisions == Seq::<RevisionModel>::empty(),
{
    if effective_limit(limit) == 0 && !patch_changes(e, p) {
        assert(trim_history(e.revisions, limit) =~= Seq::<RevisionModel>::empty());
    }
}

/// A field the patch leaves out keeps its value; in particular an omitted password is kept.
pub proof fn omitted_fields_are_kept(e: EntryModel, p: PatchModel, limit: nat, now: Seq<char>)
    ensures
        p.title is None ==> updated_entry(e, p, limit, now).title == e.title,
        p.username is None ==> updated_entry(e, p, limit, now).username == e.username,
        p.password is None ==> updated_entry(e, p, limit, now).password == e.password,
        p.collection is None ==> updated_entry(e, p, limit, now).collection == e.collection,
        p.url is None ==> updated_entry(e, p, limit, now).url == e.url,
        p.notes is None ==> updated_entry(e, p, limit, now).notes == e.notes,
        p.tags is None ==> updated_entry(e, p, limit, now).tags == e.tags,
{
}

/// After an update that changes something, the history holds at most the effective limit of
/// revisions; unless history is disabled, the newest revision holds the values from before the
/// update and the older revisions follow in their previous order.
pub proof fn changing_update_bounds_history(
    e: EntryModel,
    p: PatchModel,
    limit: nat,
    now: Seq<char>,
)
    requires
        patch_changes(e, p),
    ensures
        updated_entry(e, p, limit, now).revisions.len() <= effective_limit(limit),
        effective_limit(limit) > 0 ==> {
            let h = updated_entry(e, p, limit, now).revisions;
            &&& h.len() >= 1
            &&& h[0] == snapshot(e, now)
            &&& forall|i: int| 1 <= i < h.len() ==> h[i] == e.revisions[i - 1]
        },
{
}

/// Trimming twice to the same limit is the same as trimming once.
pub proof fn trim_is_idempotent(revisions: Seq<RevisionModel>, limit: nat)
    ensures
        trim_history(trim_history(revisions, limit), limit) == trim_history(revisions, limit),
        trim_history(revisions, limit).len() <= effective_limit(limit) || trim_history(
            revisions,
            limit,
        ) == revisions,
{
}

/// Every entry in a ranked selection comes from the searched list and has relevance below
/// the bound.
proof fn ranked_upto_members(es: Seq<EntryModel>, q: Seq<char>, n: nat)
    ensures
        forall|i: int|
            0 <= i < ranked_upto(es, q, n).len() ==> es.contains(#[trigger] ranked_upto(es, q, n)[i])
                && relevance_rank(ranked_upto(es, q, n)[i], q) is Some,
    decreases n,
{
    if n > 0 {
        ranked_upto_members(es, q, (n - 1) as nat);
        let head = ranked_upto(es, q, (n - 1) as nat);
        let tail = es.filter(rank_pred(q, (n - 1) as u8));
        assert forall|i: int| 0 <= i < tail.len() implies es.contains(#[trigger] tail[i])
            && relevance_rank(tail[i], q) is Some by {
            assert(tail.contains(tail[i]));
            es.lemma_filter_contains_rev(rank_pred(q, (n - 1) as u8), tail[i]);
            es.lemma_filter_pred(rank_pred(q, (n - 1) as u8), i);
        }
        assert forall|i: int| 0 <= i < ranked_upto(es, q, n).len() implies es.contains(
            #[trigger] ranked_upto(es, q, n)[i],
        ) && relevance_rank(ranked_upto(es, q, n)[i], q) is Some by {
            if i < head.len() {
                assert(ranked_upto(es, q, n)[i] == head[i]);
            } else {
                assert(ranked_upto(es, q, n)[i] == tail[i - head.len()]);
            }
        }
    }
}

/// Search only ever returns entries of the searched list: a tag search returns entries that
/// carry the tag, and any other search returns entries that match the query somewhere.
pub proof fn search_returns_matching_entries(es: Seq<EntryModel>, query: Seq<char>)
    ensures
        forall|i: int|
            0 <= i < search_result(es, query).len() ==> es.contains(
                #[trigger] search_result(es, query)[i],
            ),
        ({
            let q = normalized_query(query);
            q.len() > 0 && q[0] == '#' ==> forall|i: int|
                0 <= i < search_result(es, query).len() ==> has_tag(
                    #[trigger] search_result(es, query)[i],
                    q.subrange(1, q.len() as int),
                )
        }),
        ({
            let q = normalized_query(query);
            !(q.len() > 0 && q[0] == '#') ==> forall|i: int|
                0 <= i < search_result(es, query).len() ==> relevance_rank(
                    #[trigger] search_result(es, query)[i],
                    q,
                ) is Some
        }),
{
    let q = normalized_query(query);
    if q.len() > 0 && q[0] == '#' {
        let t = q.subrange(1, q.len() as int);
        if t.len() != 0 {
            let r = es.filter(tag_pred(t));
            assert forall|i: int| 0 <= i < r.len() implies es.contains(#[trigger] r[i]) && has_tag(
                r[i],
                t,
            ) by {
                assert(r.contains(r[i]));
                es.lemma_filter_contains_rev(tag_pred(t), r[i]);
                es.lemma_filter_pred(tag_pred(t), i);
            }
        }
    } else {
        ranked_upto_members(es, q, 5);
    }
}

/// Whether two entries agree on every field search looks at: title, username, collection,
/// url and tags.
pub open spec fn same_search_fields(a: EntryModel, b: EntryModel) -> bool {
    &&& a.title == b.title
    &&& a.username == b.username
    &&& a.collection == b.collection
    &&& a.url == b.url
    &&& a.tags == b.tags
}

/// The positions `0..n`.
pub open spec fn positions(n: nat) -> Seq<int> {
    Seq::new(n, |i: int| i)
}

/// The positions of the entries of relevance below `n`, grouped by relevance and in list
/// order within a group.
pub open spec fn ranked_positions(es: Seq<EntryModel>, q: Seq<char>, n: nat) -> Seq<int>
    decreases n,
{
    if n == 0 {
        Seq::empty()
    } else {
        ranked_positions(es, q, (n - 1) as nat) + positions(es.len()).filter(
            |i: int| relevance_rank(es[i], q) == Some((n - 1) as u8),
        )
    }
}

/// The positions, in result order, of the entries a search for `query` selects.
pub open spec fn search_positions(es: Seq<EntryModel>, query: Seq<char>) -> Seq<int> {
    let q = normalized_query(query);
    if q.len() > 0 && q[0] == '#' {
        let t = q.subrange(1, q.len() as int);
        if t.len() == 0 {
            Seq::empty()
        } else {
            positions(es.len()).filter(|i: int| has_tag(es[i], t))
        }
    } else {
        ranked_positions(es, q, 5)
    }
}

proof fn lemma_filter_by_position(
    es: Seq<EntryModel>,
    p: spec_fn(EntryModel) -> bool,
    ip: spec_fn(int) -> bool,
    n: nat,
)
    requires
        n <= es.len(),
        forall|i: int| 0 <= i < n ==> ip(i) == p(#[trigger] es[i]),
    ensures
        es.take(n as int).filter(p) == positions(n).filter(ip).map_values(|i: int| es[i]),
    decreases n,
{
    reveal(Seq::filter);
    if n > 0 {
        let m = (n - 1) as nat;
        lemma_filter_by_position(es, p, ip, m);
        assert(es.take(n as int).drop_last() =~= es.take(m as int));
        assert(positions(n).drop_last() =~= positions(m));
        assert(es.take(n as int).last() == es[m as int]);
        assert(ip(m as int) == p(es[m as int]));
        let tail = positions(m).filter(ip);
        if ip(m as int) {
            assert(tail.push(m as int).map_values(|i: int| es[i]) =~= tail.map_values(|i: int| es[i]).push(es[m as int]));
        }
    }
}

proof fn lemma_position_filter_ext(n: nat, ip1: spec_fn(int) -> bool, ip2: spec_fn(int) -> bool)
    requires
        forall|i: int| 0 <= i < n ==> #[trigger] ip1(i) == ip2(i),
    ensures
        positions(n).filter(ip1) == positions(n).filter(ip2),
    decreases n,
{
    reveal(Seq::filter);
    if n > 0 {
        let m = (n - 1) as nat;
        lemma_position_filter_ext(m, ip1, ip2);
        assert(positions(n).drop_last() =~= positions(m));
        assert(ip1(m as int) == ip2(m as int));
    }
}

proof fn lemma_ranked_by_position(es: Seq<EntryModel>, q: Seq<char>, n: nat)
    requires
        n <= 5,
    ensures
        ranked_upto(es, q, n) == ranked_positions(es, q, n).map_values(|i: int| es[i]),
    decreases n,
{
    if n > 0 {
        let m = (n - 1) as nat;
        lemma_ranked_by_position(es, q, m);
        let ip = |i: int| relevance_rank(es[i], q) == Some(m as u8);
        lemma_filter_by_position(es, rank_pred(q, m as u8), ip, es.len());
        assert(es.take(es.len() as int) =~= es);
        let a = ranked_positions(es, q, m);
        let b = positions(es.len()).filter(ip);
        assert((a + b).map_values(|i: int| es[i]) =~= a.map_values(|i: int| es[i]) + b.map_values(|i: int| es[i]));
    }
}

proof fn lemma_ranked_positions_agree(es1: Seq<EntryModel>, es2: Seq<EntryModel>, q: Seq<char>, n: nat)
    requires
        es1.len() == es2.len(),
        forall|i: int| 0 <= i < es1.len() ==> same_search_fields(#[trigger] es1[i], es2[i]),
    ensures
        ranked_positions(es1, q, n) == ranked_positions(es2, q, n),
    decreases n,
{
    if n > 0 {
        let m = (n - 1) as nat;
        lemma_ranked_positions_agree(es1, es2, q, m);
        let ip1 = |i: int| relevance_rank(es1[i], q) == Some(m as u8);
        let ip2 = |i: int| relevance_rank(es2[i], q) == Some(m as u8);
        assert forall|i: int| 0 <= i < es1.len() implies #[trigger] ip1(i) == ip2(i) by {
            assert(same_search_fields(es1[i], es2[i]));
            assert(relevance_rank(es1[i], q) == relevance_rank(es2[i], q));
        }
        lemma_position_filter_ext(es1.len(), ip1, ip2);
    }
}

/// Search decides by title, username, collection, url and tags alone: the result is the
/// entries at [`search_positions`], and two lists that agree on those fields position by
/// position select the same positions in the same order, whatever their passwords, notes,
/// revision histories, ids and times.
pub proof fn search_ignores_secrets_and_history(es1: Seq<EntryModel>, es2: Seq<EntryModel>, query: Seq<char>)
    requires
        es1.len() == es2.len(),
        forall|i: int| 0 <= i < es1.len() ==> same_search_fields(#[trigger] es1[i], es2[i]),
    ensures
        search_positions(es1, query) == search_positions(es2, query),
        search_result(es1, query) == search_positions(es1, query).map_values(|i: int| es1[i]),
        search_result(es2, query) == search_positions(es2, query).map_values(|i: int| es2[i]),
{
    let q = normalized_query(query);
    if q.len() > 0 && q[0] == '#' {
        let t = q.subrange(1, q.len() as int);
        if t.len() > 0 {
            let ip1 = |i: int| has_tag(es1[i], t);
            let ip2 = |i: int| has_tag(es2[i], t);
            assert forall|i: int| 0 <= i < es1.len() implies #[trigger] ip1(i) == ip2(i) by {
                assert(same_search_fields(es1[i], es2[i]));
            }
            lemma_position_filter_ext(es1.len(), ip1, ip2);
            lemma_filter_by_position(es1, tag_pred(t), ip1, es1.len());
            lemma_filter_by_position(es2, tag_pred(t), ip2, es2.len());
            assert(es1.take(es1.len() as int) =~= es1);
            assert(es2.take(es2.len() as int) =~= es2);
        } else {
            assert(Seq::<int>::empty().map_values(|i: int| es1[i]) =~= Seq::<EntryModel>::empty());
            assert(Seq::<int>::empty().map_values(|i: int| es2[i]) =~= Seq::<EntryModel>::empty());
        }
    } else {
        lemma_ranked_positions_agree(es1, es2, q, 5);
        lemma_ranked_by_position(es1, q, 5);
        lemma_ranked_by_position(es2, q, 5);
    }
}

/// Whether two entries differ in a value the user edits: title, username, password,
/// collection, url, notes or tags.
pub open spec fn edited_values_differ(a: EntryModel, b: EntryModel) -> bool {
    ||| a.title != b.title
    ||| a.username != b.username
    ||| a.password != b.password
    ||| a.collection != b.collection
    ||| a.url != b.url
    ||| a.notes != b.notes
    ||| a.tags != b.tags
}

/// An update records the previous version exactly when it changes an edited value. When the
/// updated entry differs from the old one in title, username, password, collection, url,
/// notes or tags, and history is kept, the newest revision holds every old value (the old
/// notes among them) and the older revisions follow; when it differs in none of them, no
/// revision is added.
pub proof fn edits_record_the_previous_version(e: EntryModel, p: PatchModel, limit: nat, now: Seq<char>)
    ensures
        ({
            let u = updated_entry(e, p, limit, now);
            edited_values_differ(u, e) && effective_limit(limit) > 0 ==> {
                &&& u.revisions.len() >= 1
                &&& u.revisions[0].title == e.title
                &&& u.revisions[0].username == e.username
                &&& u.revisions[0].password == e.password
                &&& u.revisions[0].collection == e.collection
                &&& u.revisions[0].url == e.url
                &&& u.revisions[0].notes == e.notes
                &&& u.revisions[0].tags == e.tags
                &&& u.revisions[0].updated_at == e.updated_at
                &&& u.revisions[0].captured_at == now
                &&& forall|i: int| 1 <= i < u.revisions.len() ==> u.revisions[i] == e.revisions[i - 1]
            }
        }),
        ({
            let u = updated_entry(e, p, limit, now);
            !edited_values_differ(u, e) ==> u.revisions.len() <= e.revisions.len() && forall|i: int|
                0 <= i < u.revisions.len() ==> u.revisions[i] == e.revisions[i]
        }),
{
    let u = updated_entry(e, p, limit, now);
    if edited_values_differ(u, e) {
        assert(patch_changes(e, p));
    } else {
        assert(!patch_changes(e, p));
    }
}

/// An optional text lowercased.
pub open spec fn opt_lowercase(o: Option<Seq<char>>) -> Option<Seq<char>> {
    match o {
        Some(t) => Some(lowercase_of(t)),
        None => None,
    }
}

/// Whether two entries agree on every field search looks at once letter case is ignored:
/// title, username, collection, url and each tag lowercase to the same text.
pub open spec fn same_search_fields_ignoring_case(a: EntryModel, b: EntryModel) -> bool {
    &&& lowercase_of(a.title) == lowercase_of(b.title)
    &&& lowercase_of(a.username) == lowercase_of(b.username)
    &&& opt_lowercase(a.collection) == opt_lowercase(b.collection)
    &&& opt_lowercase(a.url) == opt_lowercase(b.url)
    &&& a.tags.len() == b.tags.len()
    &&& forall|k: int| 0 <= k < a.tags.len() ==> lowercase_of(#[trigger] a.tags[k]) == lowercase_of(b.tags[k])
}

proof fn lemma_case_blind_entry(a: EntryModel, b: EntryModel, q: Seq<char>)
    requires
        same_search_fields_ignoring_case(a, b),
    ensures
        relevance_rank(a, q) == relevance_rank(b, q),
        forall|t: Seq<char>| has_tag(a, t) == has_tag(b, t),
{
    let ta = exists|k: int| 0 <= k < a.tags.len() && spec_contains(lowercase_of(#[trigger] a.tags[k]), q);
    let tb = exists|k: int| 0 <= k < b.tags.len() && spec_contains(lowercase_of(#[trigger] b.tags[k]), q);
    if ta {
        let k = choose|k: int| 0 <= k < a.tags.len() && spec_contains(lowercase_of(#[trigger] a.tags[k]), q);
        assert(lowercase_of(a.tags[k]) == lowercase_of(b.tags[k]));
    }
    if tb {
        let k = choose|k: int| 0 <= k < b.tags.len() && spec_contains(lowercase_of(#[trigger] b.tags[k]), q);
        assert(lowercase_of(a.tags[k]) == lowercase_of(b.tags[k]));
    }
    assert(ta == tb);
    assert forall|t: Seq<char>| has_tag(a, t) == has_tag(b, t) by {
        if has_tag(a, t) {
            let k = choose|k: int| 0 <= k < a.tags.len() && lowercase_of(#[trigger] a.tags[k]) == t;
            assert(lowercase_of(a.tags[k]) == lowercase_of(b.tags[k]));
        }
        if has_tag(b, t) {
            let k = choose|k: int| 0 <= k < b.tags.len() && lowercase_of(#[trigger] b.tags[k]) == t;
            assert(lowercase_of(a.tags[k]) == lowercase_of(b.tags[k]));
        }
    }
}

proof fn lemma_ranked_positions_ignore_case(es1: Seq<EntryModel>, es2: Seq<EntryModel>, q: Seq<char>, n: nat)
    requires
        es1.len() == es2.len(),
        forall|i: int| 0 <= i < es1.len() ==> same_search_fields_ignoring_case(#[trigger] es1[i], es2[i]),
    ensures
        ranked_positions(es1, q, n) == ranked_positions(es2, q, n),
    decreases n,
{
    if n > 0 {
        let m = (n - 1) as nat;
        lemma_ranked_positions_ignore_case(es1, es2, q, m);
        let ip1 = |i: int| relevance_rank(es1[i], q) == Some(m as u8);
        let ip2 = |i: int| relevance_rank(es2[i], q) == Some(m as u8);
        assert forall|i: int| 0 <= i < es1.len() implies #[trigger] ip1(i) == ip2(i) by {
            lemma_case_blind_entry(es1[i], es2[i], q);
        }
        lemma_position_filter_ext(es1.len(), ip1, ip2);
    }
}

/// Search is blind to letter case in every searched field: two lists whose entries agree,
/// position by position, on title, username, collection, url and tags once lowercased select
/// the same positions in the same order, for every query. Changing the case of a collection
/// (or of any searched field) never changes whether or where an entry appears.
pub proof fn search_ignores_letter_case(es1: Seq<EntryModel>, es2: Seq<EntryModel>, query: Seq<char>)
    requires
        es1.len() == es2.len(),
        forall|i: int| 0 <= i < es1.len() ==> same_search_fields_ignoring_case(#[trigger] es1[i], es2[i]),
    ensures
        search_positions(es1, query) == search_positions(es2, query),
        search_result(es1, query) == search_positions(es1, query).map_values(|i: int| es1[i]),
        search_result(es2, query) == search_positions(es2, query).map_values(|i: int| es2[i]),
{
    let q = normalized_query(query);
    if q.len() > 0 && q[0] == '#' {
        let t = q.subrange(1, q.len() as int);
        if t.len() > 0 {
            let ip1 = |i: int| has_tag(es1[i], t);
            let ip2 = |i: int| has_tag(es2[i], t);
            assert forall|i: int| 0 <= i < es1.len() implies #[trigger] ip1(i) == ip2(i) by {
                lemma_case_blind_entry(es1[i], es2[i], q);
            }
            lemma_position_filter_ext(es1.len(), ip1, ip2);
            lemma_filter_by_position(es1, tag_pred(t), ip1, es1.len());
            lemma_filter_by_position(es2, tag_pred(t), ip2, es2.len());
            assert(es1.take(es1.len() as int) =~= es1);
            assert(es2.take(es2.len() as int) =~= es2);
        } else {
            assert(Seq::<int>::empty().map_values(|i: int| es1[i]) =~= Seq::<EntryModel>::empty());
            assert(Seq::<int>::empty().map_values(|i: int| es2[i]) =~= Seq::<EntryModel>::empty());
        }
    } else {
        lemma_ranked_positions_ignore_case(es1, es2, q, 5);
        lemma_ranked_by_position(es1, q, 5);
        lemma_ranked_by_position(es2, q, 5);
    }
}

/// Search is blind to the letter case of the query and to whitespace around it: two queries
/// that are the same text once trimmed and lowercased select the same entries in the same
/// order.
pub proof fn search_ignores_query_case(es: Seq<EntryModel>, q1: Seq<char>, q2: Seq<char>)
    requires
        lowercase_of(trimmed_of(q1)) == lowercase_of(trimmed_of(q2)),
    ensures
        search_positions(es, q1) == search_positions(es, q2),
        search_result(es, q1) == search_result(es, q2),
{
}

} // verus!
