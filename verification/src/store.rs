//! The stored form of the ledger: one JSON object whose keys are the window
//! titles and whose values are objects with `name`, `start_time` and
//! `duration`.

use crate::json::{
    lemma_object_view, members_view, parse_json, parsed_json, render_json, rendered_json, Json,
    JsonView, Members,
};
use crate::ledger::{titles_distinct, ActivityLedger, ActivityRecord, RecordView};
use vstd::prelude::*;

verus! {

/// Place `at` is the first among `members` whose key is `key`.
pub open spec fn is_first_with_key(members: Members, key: Seq<char>, at: int) -> bool {
    &&& 0 <= at < members.len()
    &&& members[at].0 == key
    &&& forall|k: int| 0 <= k < at ==> (#[trigger] members[k]).0 != key
}

/// The value of the first member whose key is `key`, if there is one.
pub open spec fn member(members: Members, key: Seq<char>) -> Option<JsonView> {
    if exists|at: int| is_first_with_key(members, key, at) {
        Some(members[choose|at: int| is_first_with_key(members, key, at)].1)
    } else {
        None
    }
}

/// The value of the first member of `members` whose key is `key`.
pub fn find_member<'a>(members: &'a Vec<(String, Json)>, key: &str) -> (found: Option<&'a Json>)
    ensures
        match found {
            Some(value) => member(members_view(members@), key@) == Some(value@),
            None => member(members_view(members@), key@).is_none(),
        },
{
    let wanted = String::from_str(key);
    let ghost all = members_view(members@);
    let mut i: usize = 0;
    while i < members.len()
        invariant
            i <= members@.len(),
            wanted@ == key@,
            all == members_view(members@),
            forall|k: int| 0 <= k < i ==> (#[trigger] all[k]).0 != key@,
        decreases members@.len() - i,
    {
        if members[i].0 == wanted {
            proof {
                assert(is_first_with_key(all, key@, i as int));
                let c = choose|at: int| is_first_with_key(all, key@, at);
                assert(c == i) by {
                    if c < i {
                        assert(all[c].0 != key@);
                    } else if i < c {
                        assert(all[i as int].0 != key@);
                    }
                }
            }
            return Some(&members[i].1);
        }
        i += 1;
    }
    proof {
        assert forall|at: int| !is_first_with_key(all, key@, at) by {
            if 0 <= at < all.len() {
                assert(all[at].0 != key@);
            }
        }
    }
    None
}

/// The record that the member `key: value` of a store stands for.
///
/// The value must be an object whose `name` is the key itself and whose
/// `start_time` and `duration` are whole numbers of sixty-four unsigned bits;
/// members under other keys are passed over.
pub open spec fn decoded_record(key: Seq<char>, value: JsonView) -> Option<RecordView> {
    match value {
        JsonView::Object(members) => match (
            member(members, "name"@),
            member(members, "start_time"@),
            member(members, "duration"@),
        ) {
            (
                Some(JsonView::Text(name)),
                Some(JsonView::Number(Some(start))),
                Some(JsonView::Number(Some(duration))),
            ) => if name == key {
                Some(RecordView { title: key, first_seen: start, accumulated_seconds: duration })
            } else {
                None
            },
            _ => None,
        },
        _ => None,
    }
}

/// No two members carry the same key.
pub open spec fn keys_distinct(members: Members) -> bool {
    forall|i: int, j: int| 0 <= i < j < members.len() ==> members[i].0 != members[j].0
}

/// Every member stands for a record.
pub open spec fn all_records(members: Members) -> bool {
    forall|i: int|
        0 <= i < members.len() ==> (#[trigger] decoded_record(
            members[i].0,
            members[i].1,
        )).is_some()
}

/// The records that a store document stands for, in the order of its
/// members: `None` unless it is an object with distinct keys, each of whose
/// members stands for a record.
pub open spec fn decoded_store(tree: JsonView) -> Option<Seq<RecordView>> {
    match tree {
        JsonView::Object(members) => if all_records(members) && keys_distinct(members) {
            Some(
                Seq::new(
                    members.len(),
                    |i: int| decoded_record(members[i].0, members[i].1).unwrap(),
                ),
            )
        } else {
            None
        },
        _ => None,
    }
}

/// Reads one record from the member `key: value` of a store.
pub fn decode_record(key: &str, value: &Json) -> (record: Option<ActivityRecord>)
    ensures
        match record {
            Some(r) => decoded_record(key@, value@) == Some(r@),
            None => decoded_record(key@, value@).is_none(),
        },
{
    let members = match value {
        Json::Object(members) => members,
        _ => {
            return None;
        },
    };
    proof {
        lemma_object_view(*value);
    }
    let name = find_member(members, "name");
    let start = find_member(members, "start_time");
    let duration = find_member(members, "duration");
    match (name, start, duration) {
        (Some(Json::Text(name)), Some(Json::Number(Some(start))), Some(Json::Number(Some(duration)))) => {
            let title = String::from_str(key);
            if *name == title {
                Some(ActivityRecord { title, first_seen: *start, accumulated_seconds: *duration })
            } else {
                None
            }
        },
        _ => None,
    }
}

/// Reads the ledger from a store document.
///
/// Succeeds exactly on the documents that stand for a ledger; the records
/// then come in the order of the document's members.
pub fn decode_ledger(tree: &Json) -> (ledger: Option<ActivityLedger>)
    ensures
        match ledger {
            Some(l) => decoded_store(tree@) == Some(l@),
            None => decoded_store(tree@).is_none(),
        },
{
    let members = match tree {
        Json::Object(members) => members,
        _ => {
            return None;
        },
    };
    proof {
        lemma_object_view(*tree);
    }
    let ghost all = members_view(members@);
    let mut ledger = ActivityLedger::new();
    let mut i: usize = 0;
    while i < members.len()
        invariant
            i <= members@.len(),
            all == members_view(members@),
            tree@ == JsonView::Object(all),
            ledger@.len() == i,
            forall|k: int|
                0 <= k < i ==> decoded_record(all[k].0, all[k].1) == Some(#[trigger] ledger@[k]),
            forall|k: int| 0 <= k < i ==> (#[trigger] ledger@[k]).title == all[k].0,
            forall|k: int, m: int| 0 <= k < m < i ==> all[k].0 != all[m].0,
        decreases members@.len() - i,
    {
        let record = match decode_record(members[i].0.as_str(), &members[i].1) {
            Some(record) => record,
            None => {
                assert(decoded_record(all[i as int].0, all[i as int].1).is_none());
                return None;
            },
        };
        let ghost before = ledger@;
        if !ledger.insert_new(record) {
            proof {
                let k = crate::ledger::slot(before, all[i as int].0);
                assert(before[k].title == all[k].0);
                assert(all[k].0 == all[i as int].0);
            }
            return None;
        }
        proof {
            assert forall|k: int, m: int| 0 <= k < m < i + 1 implies all[k].0 != all[m].0 by {
                if m == i {
                    assert(before[k].title == all[k].0);
                }
            }
        }
        i += 1;
    }
    proof {
        assert forall|k: int| 0 <= k < all.len() implies (#[trigger] decoded_record(
            all[k].0,
            all[k].1,
        )).is_some() by {
            assert(decoded_record(all[k].0, all[k].1) == Some(ledger@[k]));
        }
        assert(keys_distinct(all));
        assert(ledger@ =~= decoded_store(tree@).unwrap());
    }
    Some(ledger)
}

/// The stored form of one record: an object with `name`, `start_time` and
/// `duration`, in this order.
pub open spec fn encoded_record(record: RecordView) -> JsonView {
    JsonView::Object(
        seq![
            ("name"@, JsonView::Text(record.title)),
            ("start_time"@, JsonView::Number(Some(record.first_seen))),
            ("duration"@, JsonView::Number(Some(record.accumulated_seconds))),
        ],
    )
}

/// The stored form of a ledger: an object with one member for each record,
/// in the ledger's order, under the record's title.
pub open spec fn encoded_store(records: Seq<RecordView>) -> JsonView {
    JsonView::Object(
        Seq::new(records.len(), |i: int| (records[i].title, encoded_record(records[i]))),
    )
}

/// Writes one record in its stored form.
pub fn encode_record(record: &ActivityRecord) -> (tree: Json)
    ensures
        tree@ == encoded_record(record@),
{
    let mut members: Vec<(String, Json)> = Vec::new();
    members.push((String::from_str("name"), Json::Text(record.title.clone())));
    members.push((String::from_str("start_time"), Json::Number(Some(record.first_seen))));
    members.push((String::from_str("duration"), Json::Number(Some(record.accumulated_seconds))));
    let tree = Json::Object(members);
    proof {
        lemma_object_view(tree);
        assert(members_view(members@) =~= encoded_record(record@)->Object_0);
    }
    tree
}

/// Writes a ledger in its stored form.
pub fn encode_ledger(ledger: &ActivityLedger) -> (tree: Json)
    ensures
        tree@ == encoded_store(ledger@),
{
    let mut members: Vec<(String, Json)> = Vec::new();
    let count = ledger.len();
    let mut i: usize = 0;
    while i < count
        invariant
            i <= count,
            count == ledger@.len(),
            members@.len() == i,
            forall|k: int|
                0 <= k < i ==> (#[trigger] members@[k]).0@ == ledger@[k].title && members@[k].1@
                    == encoded_record(ledger@[k]),
        decreases count - i,
    {
        if let Some(record) = ledger.record_at(i) {
            members.push((record.title.clone(), encode_record(record)));
        }
        i += 1;
    }
    let tree = Json::Object(members);
    proof {
        lemma_object_view(tree);
        assert(members_view(members@) =~= encoded_store(ledger@)->Object_0);
    }
    tree
}

/// What was encoded decodes to the same records: nothing is lost or changed
/// on the way through the stored form.
pub proof fn lemma_decode_encoded(records: Seq<RecordView>)
    requires
        titles_distinct(records),
    ensures
        decoded_store(encoded_store(records)) == Some(records),
{
    let members = encoded_store(records)->Object_0;
    assert forall|i: int| 0 <= i < members.len() implies decoded_record(
        members[i].0,
        members[i].1,
    ) == Some(records[i]) by {
        lemma_decode_encoded_record(records[i]);
    }
    assert(keys_distinct(members));
    assert(decoded_store(encoded_store(records)).unwrap() =~= records);
}

/// The records of a store carry the keys of its members as their titles,
/// in order, and no title twice.
pub proof fn lemma_decoded_titles(tree: JsonView)
    requires
        decoded_store(tree) is Some,
    ensures
        tree is Object,
        decoded_store(tree)->Some_0.len() == tree->Object_0.len(),
        forall|i: int|
            0 <= i < tree->Object_0.len() ==> (#[trigger] decoded_store(tree)->Some_0[i]).title
                == tree->Object_0[i].0,
        titles_distinct(decoded_store(tree)->Some_0),
{
    let members = tree->Object_0;
    let records = decoded_store(tree)->Some_0;
    assert forall|i: int| 0 <= i < members.len() implies (#[trigger] records[i]).title
        == members[i].0 by {
        assert(decoded_record(members[i].0, members[i].1).is_some());
    }
}

/// Saving what was loaded and loading it again gives the same records: the
/// store keeps its key set and the values of its fields.
pub proof fn lemma_reload(tree: JsonView)
    requires
        decoded_store(tree) is Some,
    ensures
        decoded_store(encoded_store(decoded_store(tree)->Some_0)) == decoded_store(tree),
{
    lemma_decoded_titles(tree);
    lemma_decode_encoded(decoded_store(tree)->Some_0);
}

/// A record's stored form, under its title, decodes to the record.
pub proof fn lemma_decode_encoded_record(record: RecordView)
    ensures
        decoded_record(record.title, encoded_record(record)) == Some(record),
{
    reveal_strlit("name");
    reveal_strlit("start_time");
    reveal_strlit("duration");
    let members = encoded_record(record)->Object_0;
    assert("name"@.len() == 4 && "start_time"@.len() == 10 && "duration"@.len() == 8);
    assert(members[0].0 == "name"@ && members[1].0 == "start_time"@ && members[2].0
        == "duration"@);
    assert(is_first_with_key(members, "name"@, 0));
    assert(is_first_with_key(members, "start_time"@, 1));
    assert(is_first_with_key(members, "duration"@, 2));
    lemma_first_is_unique(members, "name"@, 0);
    lemma_first_is_unique(members, "start_time"@, 1);
    lemma_first_is_unique(members, "duration"@, 2);
}

/// Only one place can be the first with a given key.
proof fn lemma_first_is_unique(members: Members, key: Seq<char>, at: int)
    requires
        is_first_with_key(members, key, at),
    ensures
        member(members, key) == Some(members[at].1),
{
    let c = choose|c: int| is_first_with_key(members, key, c);
    if c < at {
        assert(members[c].0 != key);
    } else if at < c {
        assert(members[at].0 != key);
    }
}

/// The records held by a store file with the given text: none for an empty
/// file, else what the text stands for as a JSON document; `None` where the
/// text is no JSON or the document no store.
pub open spec fn loaded(text: Seq<char>) -> Option<Seq<RecordView>> {
    if text.len() == 0 {
        Some(Seq::empty())
    } else {
        match parsed_json(text) {
            Some(tree) => decoded_store(tree),
            None => None,
        }
    }
}

/// The text of the store file for a ledger, where it can be written.
pub open spec fn saved(records: Seq<RecordView>) -> Option<Seq<char>> {
    rendered_json(encoded_store(records))
}

/// Reads the ledger from the text of a store file.
///
/// An empty text is an empty ledger. Any other text must be a store in full:
/// nothing is recovered from a text that is not.
pub fn load_ledger(text: &str) -> (ledger: Option<ActivityLedger>)
    ensures
        match ledger {
            Some(l) => loaded(text@) == Some(l@),
            None => loaded(text@).is_none(),
        },
{
    if text.is_empty() {
        return Some(ActivityLedger::new());
    }
    match parse_json(text) {
        Ok(tree) => decode_ledger(&tree),
        Err(_) => None,
    }
}

/// Writes the whole ledger as the text of a store file; `None` where the
/// text cannot be produced.
pub fn save_text(ledger: &ActivityLedger) -> (text: Option<String>)
    ensures
        match text {
            Some(t) => saved(ledger@) == Some(t@),
            None => saved(ledger@).is_none(),
        },
{
    let tree = encode_ledger(ledger);
    match render_json(&tree) {
        Ok(text) => Some(text),
        Err(_) => None,
    }
}

/// The directory that holds the store, under the user's profile directory.
pub fn store_directory(home: &str) -> (directory: String)
    ensures
        directory@ == home@ + "\\OneDrive/Documents/Traco/\\"@,
{
    String::from_str(home).concat("\\OneDrive/Documents/Traco/\\")
}

/// The store file, in the store's directory.
pub fn store_file(home: &str) -> (file: String)
    ensures
        file@ == home@ + "\\OneDrive/Documents/Traco/\\"@ + "data.json"@,
{
    store_directory(home).concat("data.json")
}

} // verus!
