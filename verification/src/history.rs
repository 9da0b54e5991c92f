//! The revision history of an entry as it is stored: a JSON list of objects with the
//! members `captured_at`, `title`, `username`, `password`, `collection`, `url`, `notes`,
//! `tags` and `updated_at`. Optional members may be missing or null; other members are
//! ignored.
use vstd::prelude::*;

use crate::error::VaultError;
use crate::json::{
    json_array_item, json_array_len, json_as_string, json_decoded, json_encode, json_field,
    json_is_null, json_list, json_model, json_models, json_null, json_object, json_pairs,
    json_parse, json_text, max_json_depth, object_of, plain_json, JsonModel,
};
use crate::text::{copy_string, strings_view};
use crate::types::{revisions_view, EntryRevision, RevisionModel};

verus! {

/// The error reported for an `ArcaRevisions` field that does not decode.
pub open spec fn is_malformed_revisions_error(e: VaultError) -> bool {
    e matches VaultError::SerializationError(m) && m@ == "Malformed ArcaRevisions field"@
}

fn malformed_revisions() -> (e: VaultError)
    ensures
        is_malformed_revisions_error(e),
{
    VaultError::SerializationError(String::from_str("Malformed ArcaRevisions field"))
}

/// The member `key` of an object.
pub open spec fn member(m: JsonModel, key: Seq<char>) -> Option<JsonModel> {
    match m {
        JsonModel::Object(o) => if o.dom().contains(key) {
            Some(o[key])
        } else {
            None
        },
        _ => None,
    }
}

/// A required text value; `None` when it is missing or not text.
pub open spec fn slot_text(x: Option<JsonModel>) -> Option<Seq<char>> {
    match x {
        Some(JsonModel::Text(s)) => Some(s),
        _ => None,
    }
}

/// An optional text value: missing or null is no value; `None` when it is anything else.
pub open spec fn slot_opt_text(x: Option<JsonModel>) -> Option<Option<Seq<char>>> {
    match x {
        None => Some(None),
        Some(JsonModel::Null) => Some(None),
        Some(JsonModel::Text(s)) => Some(Some(s)),
        _ => None,
    }
}

/// Whether every item of a list is text.
pub open spec fn all_text(items: Seq<JsonModel>) -> bool {
    forall|i: int| 0 <= i < items.len() ==> #[trigger] items[i] is Text
}

/// A required list-of-text value; `None` when it is missing, not a list, or holds anything
/// but text.
pub open spec fn slot_text_list(x: Option<JsonModel>) -> Option<Seq<Seq<char>>> {
    match x {
        Some(JsonModel::List(items)) => if all_text(items) {
            Some(items.map_values(|x: JsonModel| x->Text_0))
        } else {
            None
        },
        _ => None,
    }
}

/// A required text member; `None` when it is missing or not text.
pub open spec fn required_text(m: JsonModel, key: Seq<char>) -> Option<Seq<char>> {
    slot_text(member(m, key))
}

/// An optional text member: missing or null is no value; `None` when it is anything else.
pub open spec fn optional_text(m: JsonModel, key: Seq<char>) -> Option<Option<Seq<char>>> {
    slot_opt_text(member(m, key))
}

/// A required list-of-text member; `None` when it is missing, not a list, or holds
/// anything but text.
pub open spec fn text_list(m: JsonModel, key: Seq<char>) -> Option<Seq<Seq<char>>> {
    slot_text_list(member(m, key))
}

/// The revision held by the nine values of a revision's fields, in declaration order, or
/// `None` when one of them is missing or malformed.
pub open spec fn revision_from_slots(
    captured_at: Option<JsonModel>,
    title: Option<JsonModel>,
    username: Option<JsonModel>,
    password: Option<JsonModel>,
    collection: Option<JsonModel>,
    url: Option<JsonModel>,
    notes: Option<JsonModel>,
    tags: Option<JsonModel>,
    updated_at: Option<JsonModel>,
) -> Option<RevisionModel> {
    if slot_text(captured_at) is Some && slot_text(title) is Some && slot_text(username) is Some
        && slot_text(password) is Some && slot_opt_text(collection) is Some && slot_opt_text(url) is Some
        && slot_opt_text(notes) is Some && slot_text_list(tags) is Some && slot_text(updated_at) is Some {
        Some(
            RevisionModel {
                captured_at: slot_text(captured_at)->0,
                title: slot_text(title)->0,
                username: slot_text(username)->0,
                password: slot_text(password)->0,
                collection: slot_opt_text(collection)->0,
                url: slot_opt_text(url)->0,
                notes: slot_opt_text(notes)->0,
                tags: slot_text_list(tags)->0,
                updated_at: slot_text(updated_at)->0,
            },
        )
    } else {
        None
    }
}

/// The revision a JSON value stands for: an object with the revision's members (a missing
/// optional member reads as no value; other members are ignored), or a list of exactly its
/// nine field values in declaration order; `None` for anything else.
pub open spec fn decoded_revision(m: JsonModel) -> Option<RevisionModel> {
    match m {
        JsonModel::List(items) => if items.len() == 9 {
            revision_from_slots(
                Some(items[0]),
                Some(items[1]),
                Some(items[2]),
                Some(items[3]),
                Some(items[4]),
                Some(items[5]),
                Some(items[6]),
                Some(items[7]),
                Some(items[8]),
            )
        } else {
            None
        },
        _ => revision_from_slots(
            member(m, "captured_at"@),
            member(m, "title"@),
            member(m, "username"@),
            member(m, "password"@),
            member(m, "collection"@),
            member(m, "url"@),
            member(m, "notes"@),
            member(m, "tags"@),
            member(m, "updated_at"@),
        ),
    }
}

/// The revisions a JSON list stands for, or `None` when it is not a list or an item does
/// not decode.
pub open spec fn decoded_revisions(m: JsonModel) -> Option<Seq<RevisionModel>> {
    match m {
        JsonModel::List(items) => if forall|i: int|
            0 <= i < items.len() ==> (#[trigger] decoded_revision(items[i])) is Some {
            Some(items.map_values(|x: JsonModel| decoded_revision(x)->0))
        } else {
            None
        },
        _ => None,
    }
}

/// The revisions stored in a text, or `None` when it is not JSON or does not decode.
pub open spec fn revisions_from_text(text: Seq<char>) -> Option<Seq<RevisionModel>> {
    match json_decoded(text) {
        Some(m) => decoded_revisions(m),
        None => None,
    }
}

/// The model of a value that may be missing.
pub open spec fn slot_model(x: Option<serde_json::Value>) -> Option<JsonModel> {
    match x {
        Some(v) => Some(json_model(v)),
        None => None,
    }
}

/// A required text value.
fn text_slot(x: Option<serde_json::Value>) -> (r: Result<String, VaultError>)
    ensures
        r matches Ok(s) ==> slot_text(slot_model(x)) == Some(s@),
        r matches Err(e) ==> slot_text(slot_model(x)) is None && is_malformed_revisions_error(e),
{
    match x {
        Some(value) => match json_as_string(&value) {
            Some(text) => Ok(text),
            None => Err(malformed_revisions()),
        },
        None => Err(malformed_revisions()),
    }
}

/// An optional text value: missing or null reads as no value.
fn opt_text_slot(x: Option<serde_json::Value>) -> (r: Result<Option<String>, VaultError>)
    ensures
        r matches Ok(o) ==> slot_opt_text(slot_model(x)) == Some(crate::text::opt_view(o)),
        r matches Err(e) ==> slot_opt_text(slot_model(x)) is None && is_malformed_revisions_error(e),
{
    match x {
        Some(value) => if json_is_null(&value) {
            Ok(None)
        } else {
            match json_as_string(&value) {
                Some(text) => Ok(Some(text)),
                None => Err(malformed_revisions()),
            }
        },
        None => Ok(None),
    }
}

/// A required list-of-text value.
fn text_list_slot(x: Option<serde_json::Value>) -> (r: Result<Vec<String>, VaultError>)
    ensures
        r matches Ok(l) ==> slot_text_list(slot_model(x)) == Some(strings_view(l@)),
        r matches Err(e) ==> slot_text_list(slot_model(x)) is None && is_malformed_revisions_error(e),
{
    let ghost xm = slot_model(x);
    let list = match x {
        Some(value) => value,
        None => return Err(malformed_revisions()),
    };
    let n = match json_array_len(&list) {
        Some(n) => n,
        None => return Err(malformed_revisions()),
    };
    let ghost items = json_model(list)->List_0;
    let mut out: Vec<String> = Vec::new();
    let mut i: usize = 0;
    while i < n
        invariant
            json_model(list) == JsonModel::List(items),
            xm == slot_model(x),
            xm == Some(JsonModel::List(items)),
            n == items.len(),
            i <= n,
            out@.len() == i,
            forall|k: int| 0 <= k < i ==> items[k] == JsonModel::Text((#[trigger] out@[k])@),
        decreases n - i,
    {
        let item = match json_array_item(&list, i) {
            Some(item) => item,
            None => return Err(malformed_revisions()),
        };
        match json_as_string(&item) {
            Some(text) => out.push(text),
            None => {
                assert(!(items[i as int] is Text));
                assert(!all_text(items));
                return Err(malformed_revisions());
            },
        }
        i = i + 1;
    }
    assert forall|k: int| 0 <= k < items.len() implies #[trigger] items[k] is Text by {
        assert(items[k] == JsonModel::Text(out@[k]@));
    }
    assert(all_text(items));
    assert(strings_view(out@) =~= items.map_values(|x: JsonModel| x->Text_0));
    Ok(out)
}

/// Builds a revision from the values of its nine fields, in declaration order.
fn revision_from_values(
    captured_at: Option<serde_json::Value>,
    title: Option<serde_json::Value>,
    username: Option<serde_json::Value>,
    password: Option<serde_json::Value>,
    collection: Option<serde_json::Value>,
    url: Option<serde_json::Value>,
    notes: Option<serde_json::Value>,
    tags: Option<serde_json::Value>,
    updated_at: Option<serde_json::Value>,
) -> (r: Result<EntryRevision, VaultError>)
    ensures
        r matches Ok(rev) ==> revision_from_slots(
            slot_model(captured_at),
            slot_model(title),
            slot_model(username),
            slot_model(password),
            slot_model(collection),
            slot_model(url),
            slot_model(notes),
            slot_model(tags),
            slot_model(updated_at),
        ) == Some(rev@),
        r matches Err(e) ==> revision_from_slots(
            slot_model(captured_at),
            slot_model(title),
            slot_model(username),
            slot_model(password),
            slot_model(collection),
            slot_model(url),
            slot_model(notes),
            slot_model(tags),
            slot_model(updated_at),
        ) is None && is_malformed_revisions_error(e),
{
    let ghost slots = (
        slot_model(captured_at),
        slot_model(title),
        slot_model(username),
        slot_model(password),
        slot_model(collection),
        slot_model(url),
        slot_model(notes),
        slot_model(tags),
        slot_model(updated_at),
    );
    let captured_at = text_slot(captured_at)?;
    let title = text_slot(title)?;
    let username = text_slot(username)?;
    let password = text_slot(password)?;
    let collection = opt_text_slot(collection)?;
    let url = opt_text_slot(url)?;
    let notes = opt_text_slot(notes)?;
    let tags = text_list_slot(tags)?;
    let updated_at = text_slot(updated_at)?;
    Ok(EntryRevision { captured_at, title, username, password, collection, url, notes, tags, updated_at })
}

/// Decodes one revision: an object with its members, or a list of its nine field values.
fn decode_revision(v: &serde_json::Value) -> (r: Result<EntryRevision, VaultError>)
    ensures
        r matches Ok(rev) ==> decoded_revision(json_model(*v)) == Some(rev@),
        r matches Err(e) ==> decoded_revision(json_model(*v)) is None
            && is_malformed_revisions_error(e),
{
    match json_array_len(v) {
        Some(n) => {
            if n != 9 {
                return Err(malformed_revisions());
            }
            let ghost items = json_model(*v)->List_0;
            let s0 = json_array_item(v, 0);
            let s1 = json_array_item(v, 1);
            let s2 = json_array_item(v, 2);
            let s3 = json_array_item(v, 3);
            let s4 = json_array_item(v, 4);
            let s5 = json_array_item(v, 5);
            let s6 = json_array_item(v, 6);
            let s7 = json_array_item(v, 7);
            let s8 = json_array_item(v, 8);
            proof {
                assert(slot_model(s0) == Some(items[0]));
                assert(slot_model(s1) == Some(items[1]));
                assert(slot_model(s2) == Some(items[2]));
                assert(slot_model(s3) == Some(items[3]));
                assert(slot_model(s4) == Some(items[4]));
                assert(slot_model(s5) == Some(items[5]));
                assert(slot_model(s6) == Some(items[6]));
                assert(slot_model(s7) == Some(items[7]));
                assert(slot_model(s8) == Some(items[8]));
            }
            revision_from_values(s0, s1, s2, s3, s4, s5, s6, s7, s8)
        },
        None => {
            let s0 = json_field(v, "captured_at");
            let s1 = json_field(v, "title");
            let s2 = json_field(v, "username");
            let s3 = json_field(v, "password");
            let s4 = json_field(v, "collection");
            let s5 = json_field(v, "url");
            let s6 = json_field(v, "notes");
            let s7 = json_field(v, "tags");
            let s8 = json_field(v, "updated_at");
            proof {
                assert(slot_model(s0) == member(json_model(*v), "captured_at"@));
                assert(slot_model(s1) == member(json_model(*v), "title"@));
                assert(slot_model(s2) == member(json_model(*v), "username"@));
                assert(slot_model(s3) == member(json_model(*v), "password"@));
                assert(slot_model(s4) == member(json_model(*v), "collection"@));
                assert(slot_model(s5) == member(json_model(*v), "url"@));
                assert(slot_model(s6) == member(json_model(*v), "notes"@));
                assert(slot_model(s7) == member(json_model(*v), "tags"@));
                assert(slot_model(s8) == member(json_model(*v), "updated_at"@));
            }
            revision_from_values(s0, s1, s2, s3, s4, s5, s6, s7, s8)
        },
    }
}

/// Decodes the JSON list of revisions kept in the `ArcaRevisions` field; anything that is
/// not such a list is a malformed-field error.
pub fn decode_revisions(text: &str) -> (r: Result<Vec<EntryRevision>, VaultError>)
    ensures
        r matches Ok(v) ==> revisions_from_text(text@) == Some(revisions_view(v@)),
        r matches Err(e) ==> revisions_from_text(text@) is None && is_malformed_revisions_error(e),
{
    let document = match json_parse(text) {
        Some(document) => document,
        None => return Err(malformed_revisions()),
    };
    let n = match json_array_len(&document) {
        Some(n) => n,
        None => return Err(malformed_revisions()),
    };
    let ghost items = json_model(document)->List_0;
    let mut out: Vec<EntryRevision> = Vec::new();
    let mut i: usize = 0;
    while i < n
        invariant
            json_model(document) == JsonModel::List(items),
            json_decoded(text@) == Some(JsonModel::List(items)),
            n == items.len(),
            i <= n,
            out@.len() == i,
            forall|k: int| 0 <= k < i ==> decoded_revision(items[k]) == Some((#[trigger] out@[k])@),
        decreases n - i,
    {
        let item = match json_array_item(&document, i) {
            Some(item) => item,
            None => return Err(malformed_revisions()),
        };
        let revision = match decode_revision(&item) {
            Ok(revision) => revision,
            Err(error) => {
                assert(decoded_revision(items[i as int]) is None);
                assert(decoded_revisions(json_model(document)) is None);
                return Err(error);
            },
        };
        out.push(revision);
        i = i + 1;
    }
    assert forall|k: int| 0 <= k < items.len() implies (#[trigger] decoded_revision(items[k])) is Some by {
        assert(decoded_revision(items[k]) == Some(out@[k]@));
    }
    assert(revisions_view(out@) =~= items.map_values(|x: JsonModel| decoded_revision(x)->0));
    Ok(out)
}

/// The JSON for optional text: the text, or null.
pub open spec fn opt_text_json(o: Option<Seq<char>>) -> JsonModel {
    match o {
        Some(s) => JsonModel::Text(s),
        None => JsonModel::Null,
    }
}

/// The JSON list of a list of texts.
pub open spec fn texts_json(tags: Seq<Seq<char>>) -> JsonModel {
    JsonModel::List(tags.map_values(|t: Seq<char>| JsonModel::Text(t)))
}

/// The JSON object a revision is stored as.
pub open spec fn revision_json(r: RevisionModel) -> JsonModel {
    JsonModel::Object(
        map![
            "captured_at"@ => JsonModel::Text(r.captured_at),
            "title"@ => JsonModel::Text(r.title),
            "username"@ => JsonModel::Text(r.username),
            "password"@ => JsonModel::Text(r.password),
            "collection"@ => opt_text_json(r.collection),
            "url"@ => opt_text_json(r.url),
            "notes"@ => opt_text_json(r.notes),
            "tags"@ => texts_json(r.tags),
            "updated_at"@ => JsonModel::Text(r.updated_at),
        ],
    )
}

/// The JSON list a revision history is stored as.
pub open spec fn history_json(revisions: Seq<RevisionModel>) -> JsonModel {
    JsonModel::List(revisions.map_values(|r: RevisionModel| revision_json(r)))
}

fn json_opt_text(value: &Option<String>) -> (r: serde_json::Value)
    ensures
        json_model(r) == opt_text_json(crate::text::opt_view(*value)),
{
    match value {
        Some(text) => json_text(copy_string(text)),
        None => json_null(),
    }
}

proof fn lemma_revision_keys()
    ensures
        "captured_at"@ != "title"@,
        "captured_at"@ != "username"@,
        "captured_at"@ != "password"@,
        "captured_at"@ != "collection"@,
        "captured_at"@ != "url"@,
        "captured_at"@ != "notes"@,
        "captured_at"@ != "tags"@,
        "captured_at"@ != "updated_at"@,
        "title"@ != "username"@,
        "title"@ != "password"@,
        "title"@ != "collection"@,
        "title"@ != "url"@,
        "title"@ != "notes"@,
        "title"@ != "tags"@,
        "title"@ != "updated_at"@,
        "username"@ != "password"@,
        "username"@ != "collection"@,
        "username"@ != "url"@,
        "username"@ != "notes"@,
        "username"@ != "tags"@,
        "username"@ != "updated_at"@,
        "password"@ != "collection"@,
        "password"@ != "url"@,
        "password"@ != "notes"@,
        "password"@ != "tags"@,
        "password"@ != "updated_at"@,
        "collection"@ != "url"@,
        "collection"@ != "notes"@,
        "collection"@ != "tags"@,
        "collection"@ != "updated_at"@,
        "url"@ != "notes"@,
        "url"@ != "tags"@,
        "url"@ != "updated_at"@,
        "notes"@ != "tags"@,
        "notes"@ != "updated_at"@,
        "tags"@ != "updated_at"@,
{
    reveal_strlit("captured_at");
    reveal_strlit("title");
    reveal_strlit("username");
    reveal_strlit("password");
    reveal_strlit("collection");
    reveal_strlit("url");
    reveal_strlit("notes");
    reveal_strlit("tags");
    reveal_strlit("updated_at");
    assert("captured_at"@.len() != "title"@.len());
    assert("captured_at"@.len() != "username"@.len());
    assert("captured_at"@.len() != "password"@.len());
    assert("captured_at"@.len() != "collection"@.len());
    assert("captured_at"@.len() != "url"@.len());
    assert("captured_at"@.len() != "notes"@.len());
    assert("captured_at"@.len() != "tags"@.len());
    assert("captured_at"@[0] != "updated_at"@[0]);
    assert("title"@.len() != "username"@.len());
    assert("title"@.len() != "password"@.len());
    assert("title"@.len() != "collection"@.len());
    assert("title"@.len() != "url"@.len());
    assert("title"@[0] != "notes"@[0]);
    assert("title"@.len() != "tags"@.len());
    assert("title"@.len() != "updated_at"@.len());
    assert("username"@[0] != "password"@[0]);
    assert("username"@.len() != "collection"@.len());
    assert("username"@.len() != "url"@.len());
    assert("username"@.len() != "notes"@.len());
    assert("username"@.len() != "tags"@.len());
    assert("username"@.len() != "updated_at"@.len());
    assert("password"@.len() != "collection"@.len());
    assert("password"@.len() != "url"@.len());
    assert("password"@.len() != "notes"@.len());
    assert("password"@.len() != "tags"@.len());
    assert("password"@.len() != "updated_at"@.len());
    assert("collection"@.len() != "url"@.len());
    assert("collection"@.len() != "notes"@.len());
    assert("collection"@.len() != "tags"@.len());
    assert("collection"@[0] != "updated_at"@[0]);
    assert("url"@.len() != "notes"@.len());
    assert("url"@.len() != "tags"@.len());
    assert("url"@.len() != "updated_at"@.len());
    assert("notes"@.len() != "tags"@.len());
    assert("notes"@.len() != "updated_at"@.len());
    assert("tags"@.len() != "updated_at"@.len());
}

/// Encodes one revision as a JSON object.
fn encode_revision(revision: &EntryRevision) -> (r: serde_json::Value)
    ensures
        json_model(r) == revision_json(revision@),
{
    let mut tags: Vec<serde_json::Value> = Vec::new();
    let mut i: usize = 0;
    while i < revision.tags.len()
        invariant
            i <= revision.tags.len(),
            tags@.len() == i,
            forall|k: int| 0 <= k < i ==> json_model(#[trigger] tags@[k]) == JsonModel::Text(revision.tags@[k]@),
        decreases revision.tags.len() - i,
    {
        tags.push(json_text(copy_string(&revision.tags[i])));
        i = i + 1;
    }
    proof {
        assert(json_models(tags@) =~= strings_view(revision.tags@).map_values(
            |t: Seq<char>| JsonModel::Text(t),
        ));
    }
    let tag_list = json_list(tags);
    let mut fields: Vec<(String, serde_json::Value)> = Vec::new();
    fields.push((String::from_str("captured_at"), json_text(copy_string(&revision.captured_at))));
    fields.push((String::from_str("title"), json_text(copy_string(&revision.title))));
    fields.push((String::from_str("username"), json_text(copy_string(&revision.username))));
    fields.push((String::from_str("password"), json_text(copy_string(&revision.password))));
    fields.push((String::from_str("collection"), json_opt_text(&revision.collection)));
    fields.push((String::from_str("url"), json_opt_text(&revision.url)));
    fields.push((String::from_str("notes"), json_opt_text(&revision.notes)));
    fields.push((String::from_str("tags"), tag_list));
    fields.push((String::from_str("updated_at"), json_text(copy_string(&revision.updated_at))));
    let ghost pairs = json_pairs(fields@);
    let r = json_object(fields);
    proof {
        lemma_revision_keys();
        let o = object_of(pairs);
        reveal_with_fuel(object_of, 10);
        assert(pairs.len() == 9);
        assert(o =~= revision_json(revision@)->Object_0);
    }
    r
}

proof fn lemma_revision_json_plain(r: RevisionModel, depth: nat)
    requires
        depth >= 2,
    ensures
        plain_json(revision_json(r), depth),
{
    let o = revision_json(r)->Object_0;
    let tags = texts_json(r.tags);
    assert(plain_json(tags, (depth - 1) as nat)) by {
        assert forall|i: int| 0 <= i < tags->List_0.len() implies plain_json(#[trigger] tags->List_0[i], (depth - 2) as nat) by {
        }
    }
    assert forall|k: Seq<char>| o.dom().contains(k) implies plain_json(#[trigger] o[k], (depth - 1) as nat) by {
    }
}

/// Encodes a revision list as the JSON text kept in the `ArcaRevisions` field.
pub fn encode_revisions(revisions: &Vec<EntryRevision>) -> (r: String)
    ensures
        json_decoded(r@) == Some(history_json(revisions_view(revisions@))),
{
    let mut items: Vec<serde_json::Value> = Vec::new();
    let mut i: usize = 0;
    while i < revisions.len()
        invariant
            i <= revisions.len(),
            items@.len() == i,
            forall|k: int| 0 <= k < i ==> json_model(#[trigger] items@[k]) == revision_json(revisions@[k]@),
        decreases revisions.len() - i,
    {
        items.push(encode_revision(&revisions[i]));
        i = i + 1;
    }
    let ghost models = json_models(items@);
    proof {
        assert(models =~= revisions_view(revisions@).map_values(|r: RevisionModel| revision_json(r)));
        assert forall|k: int| 0 <= k < models.len() implies plain_json(#[trigger] models[k], (max_json_depth() - 1) as nat) by {
            lemma_revision_json_plain(revisions@[k]@, (max_json_depth() - 1) as nat);
        }
    }
    let document = json_list(items);
    json_encode(&document)
}

proof fn lemma_revision_json_decodes(r: RevisionModel)
    ensures
        decoded_revision(revision_json(r)) == Some(r),
{
    lemma_revision_keys();
    let m = revision_json(r);
    let tags = texts_json(r.tags)->List_0;
    assert(all_text(tags));
    assert(tags.map_values(|x: JsonModel| x->Text_0) =~= r.tags);
    assert(decoded_revision(m)->0 == r);
}

/// A revision history read back from the text it was stored as is the history that was
/// stored: decoding whatever [`encode_revisions`] wrote gives the same revisions.
pub proof fn stored_history_reads_back(revisions: Seq<RevisionModel>, text: Seq<char>)
    requires
        json_decoded(text) == Some(history_json(revisions)),
    ensures
        revisions_from_text(text) == Some(revisions),
{
    let items = history_json(revisions)->List_0;
    assert forall|i: int| 0 <= i < items.len() implies (#[trigger] decoded_revision(items[i])) is Some by {
        lemma_revision_json_decodes(revisions[i]);
    }
    assert forall|i: int| 0 <= i < items.len() implies decoded_revision(items[i])->0 == revisions[i] by {
        lemma_revision_json_decodes(revisions[i]);
    }
    assert(items.map_values(|x: JsonModel| decoded_revision(x)->0) =~= revisions);
}

} // verus!
