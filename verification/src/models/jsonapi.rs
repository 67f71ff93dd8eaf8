//! JSON:API response types for Alarm.com's API.
//!
//! Alarm.com uses a variant of the JSON:API specification. Responses contain
//! `data` (single or array), `included` (related resources), and `relationships`.

use vstd::prelude::*;

use crate::text::{text_eq, texts};

verus! {

/// `serde_json::Value`, the attributes of a resource: carried through the
/// library unread; each device's attribute record is read from it by serde.
#[verifier::external_type_specification]
#[verifier::external_body]
pub struct ExJsonValue(serde_json::Value);

/// `Clone` of `serde_json::Value`, called by the cloning of resources; no
/// property of the copy is claimed.
pub assume_specification[ <serde_json::Value as Clone>::clone ](v: &serde_json::Value) -> serde_json::Value;

/// A JSON:API document with a single resource in `data`.
#[derive(Debug, Clone)]
pub struct SingleDocument {
    pub data: Resource,
    pub included: Vec<Resource>,
}

/// A JSON:API document with multiple resources in `data`.
#[derive(Debug, Clone)]
pub struct MultiDocument {
    pub data: Vec<Resource>,
    pub included: Vec<Resource>,
}

/// A JSON:API error document.
#[derive(Debug, Clone)]
pub struct ErrorDocument {
    pub errors: Vec<ApiError>,
}

/// A single error entry in a JSON:API error document.
#[derive(Debug, Clone)]
pub struct ApiError {
    pub status: Option<String>,
    pub code: Option<String>,
    pub title: Option<String>,
    pub detail: Option<String>,
}

/// A JSON:API resource object.
#[derive(Debug, Clone)]
pub struct Resource {
    pub id: String,
    pub resource_type: String,
    pub attributes: serde_json::Value,
    pub relationships: Relationships,
}

/// The relationships of a resource, keyed by name: no key occurs twice.
/// Entries keep the order in which their keys were first inserted.
#[derive(Debug)]
pub struct Relationships {
    entries: Vec<(String, Relationship)>,
}

/// A relationship entry as its key reads.
pub type Entries = Seq<(Seq<char>, Relationship)>;

impl View for Relationships {
    type V = Entries;

    closed spec fn view(&self) -> Entries {
        self.entries@.map_values(|e: (String, Relationship)| (e.0@, e.1))
    }
}

/// `key` is the key of some entry.
pub open spec fn has_key(rels: Entries, key: Seq<char>) -> bool {
    exists|i: int| 0 <= i < rels.len() && rels[i].0 == key
}

/// A JSON:API relationship object.
#[derive(Debug, Clone)]
pub struct Relationship {
    pub data: RelationshipData,
}

/// Relationship data can be a single identifier or a list of identifiers.
#[derive(Debug, Clone)]
pub enum RelationshipData {
    Single(ResourceIdentifier),
    Many(Vec<ResourceIdentifier>),
    Null,
}

/// A JSON:API resource identifier (type + id).
#[derive(Debug, Clone)]
pub struct ResourceIdentifier {
    pub id: String,
    pub resource_type: String,
}

/// The IDs that relationship data names, in order.
pub open spec fn identifier_ids(data: RelationshipData) -> Seq<Seq<char>> {
    match data {
        RelationshipData::Single(ident) => seq![ident.id@],
        RelationshipData::Many(idents) => idents@.map_values(|i: ResourceIdentifier| i.id@),
        RelationshipData::Null => Seq::empty(),
    }
}

/// The IDs related under `key`: those of the first relationship with that
/// key, none when there is no such relationship.
pub open spec fn related_ids_of(rels: Entries, key: Seq<char>) -> Seq<Seq<char>>
    decreases rels.len(),
{
    if rels.len() == 0 {
        Seq::empty()
    } else if rels[0].0 == key {
        identifier_ids(rels[0].1.data)
    } else {
        related_ids_of(rels.drop_first(), key)
    }
}

/// No two relationships share a key, as in the JSON object they come from.
pub open spec fn distinct_keys(rels: Entries) -> bool {
    forall|i: int, j: int| 0 <= i < j < rels.len() ==> rels[i].0 != rels[j].0
}

/// When the keys are distinct, the IDs related under a relationship's key
/// are exactly those of that relationship.
pub proof fn law_related_ids_of_own_key(rels: Entries, i: int)
    requires
        distinct_keys(rels),
        0 <= i < rels.len(),
    ensures
        related_ids_of(rels, rels[i].0) == identifier_ids(rels[i].1.data),
    decreases i,
{
    if i > 0 {
        let rest = rels.drop_first();
        assert(rels[0].0 != rels[i].0);
        assert(rest[i - 1] == rels[i]);
        assert forall|a: int, b: int| 0 <= a < b < rest.len() implies rest[a].0 != rest[b].0 by {
            assert(rest[a] == rels[a + 1]);
            assert(rest[b] == rels[b + 1]);
        }
        law_related_ids_of_own_key(rest, i - 1);
    }
}

/// After a relationship is set under a key, the IDs related under that key
/// are the new relationship's: whether the key was there before (its entry
/// replaced) or not (an entry added).
pub proof fn law_related_ids_after_insert(rels: Entries, key: Seq<char>, rel: Relationship, i: int)
    requires
        distinct_keys(rels),
    ensures
        0 <= i < rels.len() && rels[i].0 == key ==> related_ids_of(rels.update(i, (key, rel)), key)
            == identifier_ids(rel.data),
        !has_key(rels, key) ==> related_ids_of(rels.push((key, rel)), key) == identifier_ids(
            rel.data,
        ),
{
    if 0 <= i < rels.len() && rels[i].0 == key {
        let after = rels.update(i, (key, rel));
        assert forall|a: int, b: int| 0 <= a < b < after.len() implies after[a].0 != after[b].0 by {
            assert(after[a].0 == rels[a].0);
            assert(after[b].0 == rels[b].0);
        }
        law_related_ids_of_own_key(after, i);
    }
    if !has_key(rels, key) {
        let after = rels.push((key, rel));
        assert forall|a: int, b: int| 0 <= a < b < after.len() implies after[a].0 != after[b].0 by {
            assert(after[a] == rels[a]);
            if b < rels.len() {
                assert(after[b] == rels[b]);
            }
        }
        law_related_ids_of_own_key(after, rels.len() as int);
    }
}

/// A key that no relationship has relates no IDs.
pub proof fn law_related_ids_of_missing_key(rels: Entries, key: Seq<char>)
    requires
        !has_key(rels, key),
    ensures
        related_ids_of(rels, key) == Seq::<Seq<char>>::empty(),
    decreases rels.len(),
{
    if rels.len() > 0 {
        let rest = rels.drop_first();
        assert(rels[0].0 != key);
        assert forall|i: int| 0 <= i < rest.len() implies rest[i].0 != key by {
            assert(rest[i] == rels[i + 1]);
        }
        law_related_ids_of_missing_key(rest, key);
    }
}

fn identifiers_to_ids(data: &RelationshipData) -> (r: Vec<String>)
    ensures
        texts(r@) == identifier_ids(*data),
{
    match data {
        RelationshipData::Single(ident) => {
            let mut r: Vec<String> = Vec::new();
            r.push(ident.id.clone());
            assert(texts(r@) =~= seq![ident.id@]);
            r
        },
        RelationshipData::Many(idents) => {
            let mut r: Vec<String> = Vec::new();
            let mut i: usize = 0;
            while i < idents.len()
                invariant
                    i <= idents@.len(),
                    r@.len() == i,
                    forall|j: int| 0 <= j < i ==> #[trigger] r@[j]@ == idents@[j].id@,
                decreases idents.len() - i,
            {
                r.push(idents[i].id.clone());
                i += 1;
            }
            assert(texts(r@) =~= idents@.map_values(|x: ResourceIdentifier| x.id@));
            r
        },
        RelationshipData::Null => {
            let r: Vec<String> = Vec::new();
            assert(texts(r@) =~= Seq::<Seq<char>>::empty());
            r
        },
    }
}

impl Relationships {
    #[verifier::type_invariant]
    spec fn keys_distinct(self) -> bool {
        distinct_keys(self@)
    }

    /// No relationships.
    pub fn new() -> (r: Self)
        ensures
            r@ == Seq::<(Seq<char>, Relationship)>::empty(),
    {
        let r = Relationships { entries: Vec::new() };
        assert(r@ =~= Seq::<(Seq<char>, Relationship)>::empty());
        r
    }

    /// The number of relationships.
    pub fn len(&self) -> (n: usize)
        ensures
            n == self@.len(),
    {
        self.entries.len()
    }

    /// The entries, in order; no key occurs twice.
    pub fn entries(&self) -> (r: &Vec<(String, Relationship)>)
        ensures
            r@.map_values(|e: (String, Relationship)| (e.0@, e.1)) == self@,
            distinct_keys(self@),
    {
        proof {
            use_type_invariant(self);
        }
        &self.entries
    }

    /// Sets the relationship under `key`, as a map's `insert` does: an entry
    /// with that key has its value replaced, and the old value is returned;
    /// otherwise the entry is added at the end.
    pub fn insert(&mut self, key: String, rel: Relationship) -> (old_rel: Option<Relationship>)
        ensures
            distinct_keys(final(self)@),
            forall|i: int|
                0 <= i < old(self)@.len() && old(self)@[i].0 == key@ ==> final(self)@ == old(
                    self,
                )@.update(i, (key@, rel)) && old_rel == Some(old(self)@[i].1),
            !has_key(old(self)@, key@) ==> final(self)@ == old(self)@.push((key@, rel))
                && old_rel is None,
    {
        proof {
            use_type_invariant(&*self);
        }
        let ghost before = self@;
        let mut entries: Vec<(String, Relationship)> = Vec::new();
        std::mem::swap(&mut entries, &mut self.entries);
        assert(entries@.map_values(|e: (String, Relationship)| (e.0@, e.1)) == before);
        let mut i: usize = 0;
        while i < entries.len()
            invariant
                i <= entries@.len(),
                entries@.map_values(|e: (String, Relationship)| (e.0@, e.1)) == before,
                before == old(self)@,
                distinct_keys(before),
                forall|j: int| 0 <= j < i ==> before[j].0 != key@,
            decreases entries.len() - i,
        {
            assert(before[i as int] == (entries@[i as int].0@, entries@[i as int].1));
            if text_eq(entries[i].0.as_str(), key.as_str()) {
                let ghost old_entries = entries@;
                assert(before[i as int].0 == key@);
                let slot = entries.remove(i);
                assert(slot.1 == before[i as int].1);
                entries.insert(i, (slot.0, rel));
                let ghost after = entries@.map_values(|e: (String, Relationship)| (e.0@, e.1));
                assert(after =~= before.update(i as int, (key@, rel)));
                proof {
                    assert forall|a: int, b: int| 0 <= a < b < after.len() implies after[a].0
                        != after[b].0 by {
                        assert(after[a].0 == before[a].0);
                        assert(after[b].0 == before[b].0);
                    }
                    assert forall|j: int| 0 <= j < before.len() && before[j].0 == key@ implies j
                        == i by {
                        if j != i {
                            if j < i {
                            } else {
                                assert(before[i as int].0 == before[j].0);
                            }
                        }
                    }
                }
                self.entries = entries;
                assert(self@ == after);
                assert(has_key(before, key@));
                return Some(slot.1);
            }
            i += 1;
        }
        let ghost n = entries@.len();
        entries.push((key, rel));
        let ghost after = entries@.map_values(|e: (String, Relationship)| (e.0@, e.1));
        assert(after =~= before.push((key@, rel)));
        assert(!has_key(before, key@));
        proof {
            assert forall|a: int, b: int| 0 <= a < b < after.len() implies after[a].0
                != after[b].0 by {
                if b == n {
                    assert(after[a] == before[a]);
                } else {
                    assert(after[a] == before[a]);
                    assert(after[b] == before[b]);
                }
            }
        }
        self.entries = entries;
        None
    }
}

impl Clone for Relationships {
    /// A copy with the same keys in the same order; each relationship is
    /// copied by its derived `Clone`.
    fn clone(&self) -> (r: Self)
        ensures
            r@.len() == self@.len(),
            forall|i: int| 0 <= i < self@.len() ==> #[trigger] r@[i].0 == self@[i].0,
    {
        let entries = self.entries();
        let ghost view = self@;
        let mut copy: Vec<(String, Relationship)> = Vec::new();
        let mut i: usize = 0;
        while i < entries.len()
            invariant
                entries@.map_values(|e: (String, Relationship)| (e.0@, e.1)) == view,
                distinct_keys(view),
                i <= entries@.len(),
                copy@.len() == i,
                forall|j: int| 0 <= j < i ==> #[trigger] copy@[j].0@ == view[j].0,
            decreases entries.len() - i,
        {
            assert(view[i as int].0 == entries@[i as int].0@);
            copy.push((entries[i].0.clone(), entries[i].1.clone()));
            i += 1;
        }
        let r = Relationships { entries: copy };
        assert forall|j: int| 0 <= j < view.len() implies #[trigger] r@[j].0 == view[j].0 by {
            assert(r@[j].0 == copy@[j].0@);
        }
        assert forall|a: int, b: int| 0 <= a < b < r@.len() implies r@[a].0 != r@[b].0 by {
            assert(r@[a].0 == view[a].0);
            assert(r@[b].0 == view[b].0);
        }
        r
    }
}

impl Resource {
    /// Extract all related resource IDs for a given relationship key.
    pub fn related_ids(&self, key: &str) -> (r: Vec<String>)
        ensures
            texts(r@) == related_ids_of(self.relationships@, key@),
    {
        let rels = self.relationships.entries();
        let ghost view = self.relationships@;
        let mut i: usize = 0;
        assert(view.skip(0) =~= view);
        while i < rels.len()
            invariant
                rels@.map_values(|e: (String, Relationship)| (e.0@, e.1)) == view,
                view == self.relationships@,
                i <= rels@.len(),
                related_ids_of(view, key@) == related_ids_of(view.skip(i as int), key@),
            decreases rels.len() - i,
        {
            let ghost rest = view.skip(i as int);
            assert(rest[0] == view[i as int]);
            assert(view[i as int] == (rels@[i as int].0@, rels@[i as int].1));
            assert(rest.drop_first() =~= view.skip(i + 1));
            if text_eq(rels[i].0.as_str(), key) {
                assert(related_ids_of(rest, key@) == identifier_ids(rels@[i as int].1.data));
                return identifiers_to_ids(&rels[i].1.data);
            }
            i += 1;
        }
        let r: Vec<String> = Vec::new();
        assert(texts(r@) =~= Seq::<Seq<char>>::empty());
        r
    }
}

/// Try to parse a response body as either a single or multi document.
/// Falls back to error document detection.
#[derive(Debug, Clone)]
pub enum ApiResponse {
    Single(SingleDocument),
    Multi(MultiDocument),
    Error(ErrorDocument),
}

impl ApiResponse {
    /// The data resources of the response: the one of a single document,
    /// all of a multi document, none of an error document.
    pub open spec fn data_resources(self) -> Seq<Resource> {
        match self {
            ApiResponse::Single(doc) => seq![doc.data],
            ApiResponse::Multi(doc) => doc.data@,
            ApiResponse::Error(_) => Seq::empty(),
        }
    }

    /// The included resources of the response (none for an error document).
    pub open spec fn included_resources(self) -> Seq<Resource> {
        match self {
            ApiResponse::Single(doc) => doc.included@,
            ApiResponse::Multi(doc) => doc.included@,
            ApiResponse::Error(_) => Seq::empty(),
        }
    }

    /// Get the data resources from the response.
    pub fn resources(&self) -> (r: Vec<&Resource>)
        ensures
            r@.len() == self.data_resources().len(),
            forall|i: int| 0 <= i < r@.len() ==> *r@[i] == self.data_resources()[i],
    {
        match self {
            ApiResponse::Single(doc) => {
                let mut r: Vec<&Resource> = Vec::new();
                r.push(&doc.data);
                r
            },
            ApiResponse::Multi(doc) => {
                let mut r: Vec<&Resource> = Vec::new();
                let mut i: usize = 0;
                while i < doc.data.len()
                    invariant
                        i <= doc.data@.len(),
                        r@.len() == i,
                        forall|j: int| 0 <= j < i ==> *r@[j] == doc.data@[j],
                    decreases doc.data.len() - i,
                {
                    r.push(&doc.data[i]);
                    i += 1;
                }
                r
            },
            ApiResponse::Error(_) => Vec::new(),
        }
    }

    /// Get included resources from the response.
    pub fn included(&self) -> (r: &[Resource])
        ensures
            r@ == self.included_resources(),
    {
        match self {
            ApiResponse::Single(doc) => doc.included.as_slice(),
            ApiResponse::Multi(doc) => doc.included.as_slice(),
            ApiResponse::Error(_) => {
                let r: &[Resource] = &[];
                assert(r@ =~= Seq::<Resource>::empty());
                r
            },
        }
    }
}

} // verus!
