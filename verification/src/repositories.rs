//! The persisted record, the input payloads, and the storage abstraction.

use vstd::prelude::*;

verus! {

/// Failure taxonomy of the storage layer.
///
/// `NotFound` carries the id that was requested and absent; it is the only
/// failure that translates to a client-visible "not found" outcome.
/// `Unexpected` carries a backend fault description and translates to an
/// opaque server-side fault.
#[derive(Debug, PartialEq, Eq)]
pub enum RepositoryError {
    Unexpected(String),
    NotFound(i32),
}

/// A persisted ledger record. The id is assigned by the repository and is
/// unique within one store instance.
#[derive(Debug, PartialEq, Eq)]
pub struct Item {
    pub id: i32,
    pub name: String,
    pub price: i32,
    pub date: String,
    pub store_name: String,
}

impl Clone for Item {
    fn clone(&self) -> (r: Self)
        ensures
            r == *self,
    {
        Item {
            id: self.id,
            name: self.name.clone(),
            price: self.price,
            date: self.date.clone(),
            store_name: self.store_name.clone(),
        }
    }
}

impl Item {
    pub fn new(id: i32, name: String, price: i32, date: String, store_name: String) -> (r: Self)
        ensures
            r == (Item { id, name, price, date, store_name }),
    {
        Item { id, name, price, date, store_name }
    }
}

/// The constructor input for a new record: an [`Item`] without the id, which
/// the repository assigns.
#[derive(Debug, PartialEq, Eq)]
pub struct CreateItem {
    pub name: String,
    pub price: i32,
    pub date: String,
    pub store_name: String,
}

impl Clone for CreateItem {
    fn clone(&self) -> (r: Self)
        ensures
            r == *self,
    {
        CreateItem {
            name: self.name.clone(),
            price: self.price,
            date: self.date.clone(),
            store_name: self.store_name.clone(),
        }
    }
}

impl CreateItem {
    pub fn new(name: String, price: i32, date: String, store_name: String) -> (r: Self)
        ensures
            r == (CreateItem { name, price, date, store_name }),
    {
        CreateItem { name, price, date, store_name }
    }
}

/// A partial patch: a present field overwrites the stored value, an absent
/// field leaves it unchanged.
#[derive(Debug, PartialEq, Eq)]
pub struct UpdateItem {
    pub name: Option<String>,
    pub price: Option<i32>,
    pub date: Option<String>,
    pub store_name: Option<String>,
}

impl Clone for UpdateItem {
    fn clone(&self) -> (r: Self)
        ensures
            r == *self,
    {
        UpdateItem {
            name: clone_string_option(&self.name),
            price: self.price,
            date: clone_string_option(&self.date),
            store_name: clone_string_option(&self.store_name),
        }
    }
}

impl UpdateItem {
    pub fn new(
        name: Option<String>,
        price: Option<i32>,
        date: Option<String>,
        store_name: Option<String>,
    ) -> (r: Self)
        ensures
            r == (UpdateItem { name, price, date, store_name }),
    {
        UpdateItem { name, price, date, store_name }
    }

    /// The patch that leaves every field of a record unchanged.
    pub fn empty() -> (r: Self)
        ensures
            r == (UpdateItem {
                name: None::<String>,
                price: None::<i32>,
                date: None::<String>,
                store_name: None::<String>,
            }),
    {
        UpdateItem { name: None, price: None, date: None, store_name: None }
    }
}

fn clone_string_option(o: &Option<String>) -> (r: Option<String>)
    ensures
        r == *o,
{
    match o {
        Some(s) => Some(s.clone()),
        None => None,
    }
}

/// The record that `update(id, patch)` stores and returns: each field the
/// patch supplies replaces the stored one, each absent field is retained,
/// and the id is kept.
pub open spec fn merged_item(current: Item, id: i32, patch: UpdateItem) -> Item {
    Item {
        id,
        name: match patch.name {
            Some(n) => n,
            None => current.name,
        },
        price: match patch.price {
            Some(p) => p,
            None => current.price,
        },
        date: match patch.date {
            Some(d) => d,
            None => current.date,
        },
        store_name: match patch.store_name {
            Some(s) => s,
            None => current.store_name,
        },
    }
}

/// The patch with every field absent merges to the stored record unchanged:
/// for any stored record and its id, `update` with the empty patch is owed a
/// result structurally identical to the record, and the store it leaves —
/// `insert(id, merged)` — is the one it found.
pub proof fn lemma_empty_patch_is_identity(m: Map<i32, Item>, id: i32)
    requires
        m.contains_key(id),
        m[id].id == id,
    ensures
        merged_item(m[id], id, (UpdateItem {
            name: None,
            price: None,
            date: None,
            store_name: None,
        })) == m[id],
        m.insert(id, m[id]) == m,
{
    assert(m.insert(id, m[id]) =~= m);
}

/// A patch that sets only `name` changes exactly `name`: the merged record
/// takes the patched name, keeps every other field of the stored record, and
/// keeps the id.
pub proof fn lemma_name_only_patch_changes_exactly_name(current: Item, id: i32, name: String)
    ensures
        ({
            let item = merged_item(current, id, (UpdateItem {
                name: Some(name),
                price: None,
                date: None,
                store_name: None,
            }));
            &&& item.id == id
            &&& item.name == name
            &&& item.price == current.price
            &&& item.date == current.date
            &&& item.store_name == current.store_name
        }),
{
}

/// The storage abstraction that owns the [`Item`] lifecycle.
///
/// A backend is shared by many concurrent callers, so every operation takes
/// `&self`; the contracts below are the ones every backend owes regardless
/// of its private state. The in-memory backend additionally proves the full
/// state-transition semantics on [`crate::store::MemoryStore`], the data
/// structure it guards with a reader/writer lock.
pub trait ItemRepository: Sized {
    /// Stores a new record built from the payload under a freshly assigned
    /// positive id. Fails only with a backend fault (`Unexpected`), never
    /// with `NotFound`.
    fn create(&self, payload: CreateItem) -> (r: Result<Item, RepositoryError>)
        ensures
            r matches Ok(item) ==> {
                &&& item.id >= 1
                &&& item.name == payload.name
                &&& item.price == payload.price
                &&& item.date == payload.date
                &&& item.store_name == payload.store_name
            },
            r matches Err(e) ==> e is Unexpected,
    ;

    /// Returns the record stored under `id`; fails with `NotFound(id)` if
    /// there is none. No side effect.
    fn find(&self, id: i32) -> (r: Result<Item, RepositoryError>)
        ensures
            r matches Ok(item) ==> item.id == id,
            r matches Err(e) ==> (e matches RepositoryError::NotFound(i) ==> i == id),
    ;

    /// Returns all current records; the order is backend-defined.
    fn all(&self) -> (r: Result<Vec<Item>, RepositoryError>)
        ensures
            r matches Err(e) ==> e is Unexpected,
    ;

    /// Replaces the record stored under `id` by the merge of that record with
    /// the patch (present fields overwrite, absent fields are retained, the
    /// id is kept) and returns the merged record; fails with `NotFound(id)`
    /// if there is none.
    fn update(&self, id: i32, payload: UpdateItem) -> (r: Result<Item, RepositoryError>)
        ensures
            r matches Ok(item) ==> {
                &&& item.id == id
                &&& (payload.name matches Some(n) ==> item.name == n)
                &&& (payload.price matches Some(p) ==> item.price == p)
                &&& (payload.date matches Some(d) ==> item.date == d)
                &&& (payload.store_name matches Some(s) ==> item.store_name == s)
            },
            r matches Err(e) ==> (e matches RepositoryError::NotFound(i) ==> i == id),
    ;

    /// Removes the record stored under `id`; fails with `NotFound(id)` if
    /// there is none, also when that id was removed before.
    fn delete(&self, id: i32) -> (r: Result<(), RepositoryError>)
        ensures
            r matches Err(e) ==> (e matches RepositoryError::NotFound(i) ==> i == id),
    ;
}

} // verus!
