//! The vault's data model: entries, their revision history, vault metadata, the key and
//! the key-derivation settings.
use vstd::prelude::*;

use crate::text::{
    copy_opt, copy_string, copy_strings, debug_str, decimal, opt_view, push_decimal, spec_debug_str,
    strings_view,
};

verus! {

/// Vault encryption key (256 bits).
pub struct VaultKey(pub [u8; 32]);

/// Argon2 key-derivation settings stored with a vault.
#[derive(Debug, Clone, PartialEq, Eq)]
pub struct KdfConfig {
    pub memory_kib: u32,
    pub iterations: u32,
    pub parallelism: u32,
    pub salt: [u8; 32],
}

impl Default for KdfConfig {
    /// 128 MiB of memory, 3 iterations, 4 lanes and an all-zero salt.
    fn default() -> (r: Self)
        ensures
            r.memory_kib == 131_072,
            r.iterations == 3,
            r.parallelism == 4,
            forall|i: int| 0 <= i < 32 ==> r.salt@[i] == 0,
    {
        KdfConfig { memory_kib: 131_072, iterations: 3, parallelism: 4, salt: [0u8; 32] }
    }
}

/// One stored credential with its bounded revision history (newest revision first).
#[derive(Clone, PartialEq, Eq)]
pub struct VaultEntry {
    pub id: String,
    pub title: String,
    pub username: String,
    pub password: String,
    pub collection: Option<String>,
    pub url: Option<String>,
    pub notes: Option<String>,
    pub tags: Vec<String>,
    pub created_at: String,
    pub updated_at: String,
    pub revisions: Vec<EntryRevision>,
}

/// A snapshot of an entry's values taken just before an update changed them.
#[derive(Clone, PartialEq, Eq)]
pub struct EntryRevision {
    pub captured_at: String,
    pub title: String,
    pub username: String,
    pub password: String,
    pub collection: Option<String>,
    pub url: Option<String>,
    pub notes: Option<String>,
    pub tags: Vec<String>,
    pub updated_at: String,
}

/// Vault-level metadata.
#[derive(Debug, Clone, PartialEq, Eq)]
pub struct VaultMeta {
    pub name: String,
    pub created_at: String,
    pub modified_at: String,
}

/// The mathematical value of an [`EntryRevision`].
pub struct RevisionModel {
    pub captured_at: Seq<char>,
    pub title: Seq<char>,
    pub username: Seq<char>,
    pub password: Seq<char>,
    pub collection: Option<Seq<char>>,
    pub url: Option<Seq<char>>,
    pub notes: Option<Seq<char>>,
    pub tags: Seq<Seq<char>>,
    pub updated_at: Seq<char>,
}

/// The mathematical value of a [`VaultEntry`].
pub struct EntryModel {
    pub id: Seq<char>,
    pub title: Seq<char>,
    pub username: Seq<char>,
    pub password: Seq<char>,
    pub collection: Option<Seq<char>>,
    pub url: Option<Seq<char>>,
    pub notes: Option<Seq<char>>,
    pub tags: Seq<Seq<char>>,
    pub created_at: Seq<char>,
    pub updated_at: Seq<char>,
    pub revisions: Seq<RevisionModel>,
}

/// The mathematical value of a [`VaultMeta`].
pub struct MetaModel {
    pub name: Seq<char>,
    pub created_at: Seq<char>,
    pub modified_at: Seq<char>,
}

/// The views of a list of revisions.
pub open spec fn revisions_view(v: Seq<EntryRevision>) -> Seq<RevisionModel> {
    v.map_values(|r: EntryRevision| r@)
}

/// The views of a list of entries.
pub open spec fn entries_view(v: Seq<VaultEntry>) -> Seq<EntryModel> {
    v.map_values(|e: VaultEntry| e@)
}

impl View for EntryRevision {
    type V = RevisionModel;

    open spec fn view(&self) -> RevisionModel {
        RevisionModel {
            captured_at: self.captured_at@,
            title: self.title@,
            username: self.username@,
            password: self.password@,
            collection: opt_view(self.collection),
            url: opt_view(self.url),
            notes: opt_view(self.notes),
            tags: strings_view(self.tags@),
            updated_at: self.updated_at@,
        }
    }
}

impl View for VaultEntry {
    type V = EntryModel;

    open spec fn view(&self) -> EntryModel {
        EntryModel {
            id: self.id@,
            title: self.title@,
            username: self.username@,
            password: self.password@,
            collection: opt_view(self.collection),
            url: opt_view(self.url),
            notes: opt_view(self.notes),
            tags: strings_view(self.tags@),
            created_at: self.created_at@,
            updated_at: self.updated_at@,
            revisions: revisions_view(self.revisions@),
        }
    }
}

impl View for VaultMeta {
    type V = MetaModel;

    open spec fn view(&self) -> MetaModel {
        MetaModel { name: self.name@, created_at: self.created_at@, modified_at: self.modified_at@ }
    }
}

impl EntryRevision {
    /// A copy with the same values.
    pub fn duplicate(&self) -> (r: Self)
        ensures
            r@ == self@,
    {
        EntryRevision {
            captured_at: copy_string(&self.captured_at),
            title: copy_string(&self.title),
            username: copy_string(&self.username),
            password: copy_string(&self.password),
            collection: copy_opt(&self.collection),
            url: copy_opt(&self.url),
            notes: copy_opt(&self.notes),
            tags: copy_strings(&self.tags),
            updated_at: copy_string(&self.updated_at),
        }
    }

    /// The redacted debug text of a revision: its type name and nothing else.
    pub fn debug_text(&self) -> (r: String)
        ensures
            r@ == "EntryRevision { .. }"@,
    {
        String::from_str("EntryRevision { .. }")
    }
}

impl VaultEntry {
    /// The redacted debug text of an entry: its id and the number of its revisions, nothing
    /// decrypted.
    pub fn debug_text(&self) -> (r: String)
        ensures
            r@ == "VaultEntry { id: "@ + spec_debug_str(self.id@) + ", revision_count: "@ + decimal(
                self.revisions@.len() as nat,
            ) + ", .. }"@,
    {
        let mut text = String::from_str("VaultEntry { id: ");
        let id = debug_str(self.id.as_str());
        text.append(id.as_str());
        text.append(", revision_count: ");
        push_decimal(&mut text, self.revisions.len());
        text.append(", .. }");
        text
    }
}

/// A copy of a list of revisions.
pub fn copy_revisions(v: &Vec<EntryRevision>) -> (r: Vec<EntryRevision>)
    ensures
        revisions_view(r@) == revisions_view(v@),
{
    let mut out: Vec<EntryRevision> = Vec::new();
    let mut i: usize = 0;
    while i < v.len()
        invariant
            i <= v.len(),
            out.len() == i,
            forall|k: int| 0 <= k < i ==> out@[k]@ == v@[k]@,
        decreases v.len() - i,
    {
        out.push(v[i].duplicate());
        i = i + 1;
    }
    assert(revisions_view(out@) =~= revisions_view(v@));
    out
}

impl VaultEntry {
    /// A copy with the same values.
    pub fn duplicate(&self) -> (r: Self)
        ensures
            r@ == self@,
    {
        VaultEntry {
            id: copy_string(&self.id),
            title: copy_string(&self.title),
            username: copy_string(&self.username),
            password: copy_string(&self.password),
            collection: copy_opt(&self.collection),
            url: copy_opt(&self.url),
            notes: copy_opt(&self.notes),
            tags: copy_strings(&self.tags),
            created_at: copy_string(&self.created_at),
            updated_at: copy_string(&self.updated_at),
            revisions: copy_revisions(&self.revisions),
        }
    }
}

impl VaultMeta {
    /// A copy with the same values.
    pub fn duplicate(&self) -> (r: Self)
        ensures
            r@ == self@,
    {
        VaultMeta {
            name: copy_string(&self.name),
            created_at: copy_string(&self.created_at),
            modified_at: copy_string(&self.modified_at),
        }
    }
}

} // verus!
