//! Clearing secret material before it is dropped, through the `zeroize` crate.
use vstd::prelude::*;

use crate::types::{EntryRevision, VaultEntry};
use crate::text::{opt_view, strings_view};

verus! {

/// Trusted: `<String as zeroize::Zeroize>::zeroize`, which overwrites the bytes with zeros and
/// leaves the string empty.
#[verifier::external_body]
fn zeroize_string(s: &mut String)
    ensures
        final(s)@.len() == 0,
{
    zeroize::Zeroize::zeroize(s)
}

/// Trusted: `<Option<String> as zeroize::Zeroize>::zeroize`, which zeroizes a held string and
/// leaves `None`.
#[verifier::external_body]
fn zeroize_opt_string(s: &mut Option<String>)
    ensures
        final(s).is_none(),
{
    zeroize::Zeroize::zeroize(s)
}

/// Trusted: `<Vec<String> as zeroize::Zeroize>::zeroize`, which zeroizes every string and
/// leaves the list empty.
#[verifier::external_body]
fn zeroize_strings(v: &mut Vec<String>)
    ensures
        final(v)@.len() == 0,
{
    zeroize::Zeroize::zeroize(v)
}

/// Trusted: `<[u8; 32] as zeroize::Zeroize>::zeroize`, which writes zero to every byte.
#[verifier::external_body]
pub(crate) fn zeroize_bytes(b: &mut [u8; 32])
    ensures
        forall|i: int| 0 <= i < 32 ==> final(b)@[i] == 0,
{
    zeroize::Zeroize::zeroize(b)
}

/// Whether every text field of a revision has been cleared.
pub open spec fn is_wiped(r: EntryRevision) -> bool {
    &&& r.captured_at@.len() == 0
    &&& r.title@.len() == 0
    &&& r.username@.len() == 0
    &&& r.password@.len() == 0
    &&& opt_view(r.collection) is None
    &&& opt_view(r.url) is None
    &&& opt_view(r.notes) is None
    &&& strings_view(r.tags@).len() == 0
    &&& r.updated_at@.len() == 0
}

/// Clears every field of a revision, including its plaintext password.
pub fn zeroize_revision(r: &mut EntryRevision)
    ensures
        is_wiped(*final(r)),
{
    zeroize_string(&mut r.captured_at);
    zeroize_string(&mut r.title);
    zeroize_string(&mut r.username);
    zeroize_string(&mut r.password);
    zeroize_opt_string(&mut r.collection);
    zeroize_opt_string(&mut r.url);
    zeroize_opt_string(&mut r.notes);
    zeroize_strings(&mut r.tags);
    zeroize_string(&mut r.updated_at);
}

/// Whether every text field of an entry has been cleared and its history emptied.
pub open spec fn is_wiped_entry(e: VaultEntry) -> bool {
    &&& e.id@.len() == 0
    &&& e.title@.len() == 0
    &&& e.username@.len() == 0
    &&& e.password@.len() == 0
    &&& opt_view(e.collection) is None
    &&& opt_view(e.url) is None
    &&& opt_view(e.notes) is None
    &&& strings_view(e.tags@).len() == 0
    &&& e.created_at@.len() == 0
    &&& e.updated_at@.len() == 0
    &&& e.revisions@.len() == 0
}

/// Clears every field of an entry, including its plaintext password, and clears each of its
/// revisions before dropping it.
pub fn zeroize_entry(e: &mut VaultEntry)
    ensures
        is_wiped_entry(*final(e)),
{
    zeroize_string(&mut e.id);
    zeroize_string(&mut e.title);
    zeroize_string(&mut e.username);
    zeroize_string(&mut e.password);
    zeroize_opt_string(&mut e.collection);
    zeroize_opt_string(&mut e.url);
    zeroize_opt_string(&mut e.notes);
    zeroize_strings(&mut e.tags);
    zeroize_string(&mut e.created_at);
    zeroize_string(&mut e.updated_at);
    while e.revisions.len() > 0
        invariant
            e.id@.len() == 0,
            e.title@.len() == 0,
            e.username@.len() == 0,
            e.password@.len() == 0,
            opt_view(e.collection) is None,
            opt_view(e.url) is None,
            opt_view(e.notes) is None,
            strings_view(e.tags@).len() == 0,
            e.created_at@.len() == 0,
            e.updated_at@.len() == 0,
        decreases e.revisions.len(),
    {
        let discarded = e.revisions.pop();
        if let Some(mut revision) = discarded {
            zeroize_revision(&mut revision);
        }
    }
}

/// Clears every entry of a list, each wiped before it is dropped; the list ends empty.
pub fn zeroize_entries(entries: &mut Vec<VaultEntry>)
    ensures
        final(entries)@.len() == 0,
{
    while entries.len() > 0
        decreases entries.len(),
    {
        let discarded = entries.pop();
        if let Some(mut entry) = discarded {
            zeroize_entry(&mut entry);
        }
    }
}

} // verus!
