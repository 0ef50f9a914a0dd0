//! The data structure behind the in-memory backend: a mapping from id to
//! [`Item`], with the exact state-transition semantics of each operation.

use vstd::prelude::*;
use vstd::rwlock::{RwLock, RwLockPredicate};
use vstd::std_specs::iter::IteratorSpec;
use std::collections::HashMap;
use std::sync::Arc;
use crate::repositories::{CreateItem, Item, ItemRepository, RepositoryError, UpdateItem, merged_item};

verus! {

broadcast use vstd::std_specs::hash::group_hash_axioms;

/// One process's view of the data: a single mapping from id to [`Item`].
///
/// The store is not itself safe to share; the in-memory backend guards one
/// instance with a reader/writer lock and holds every operation's critical
/// section uninterrupted, so no caller observes a partial merge.
pub struct MemoryStore {
    map: HashMap<i32, Item>,
}

impl View for MemoryStore {
    type V = Map<i32, Item>;

    closed spec fn view(&self) -> Map<i32, Item> {
        self.map@
    }
}

impl MemoryStore {
    /// Every stored record carries the id it is keyed under, and every id is
    /// positive.
    pub open spec fn wf(self) -> bool {
        forall|k: i32| #[trigger] self@.contains_key(k) ==> self@[k].id == k && k >= 1
    }

    /// An empty store.
    pub fn new() -> (s: Self)
        ensures
            s@ == Map::<i32, Item>::empty(),
            s.wf(),
    {
        MemoryStore { map: HashMap::new() }
    }

    /// The id `create` will assign next: one more than the current number of
    /// entries. After a delete this can coincide with a retained id, in which
    /// case `create` overwrites that entry (see [`Self::create`]).
    pub open spec fn spec_next_id(self) -> int {
        self@.len() + 1int
    }

    /// Stores a new record built from the payload under the id
    /// `current size + 1` and returns it. Fails, leaving the store unchanged,
    /// exactly when that counter would exceed the id range.
    ///
    /// The size-based id is the backend's documented bookkeeping: it is fresh
    /// whenever the stored ids are exactly `{1, ..., size}` (no delete has
    /// occurred), but after a delete it can equal a retained id, and the new
    /// record then replaces that entry. The contract states the overwrite
    /// faithfully: the new state is always `insert(id, item)`.
    pub fn create(&mut self, payload: CreateItem) -> (r: Result<Item, RepositoryError>)
        requires
            old(self).wf(),
        ensures
            final(self).wf(),
            old(self).spec_next_id() <= i32::MAX ==> r is Ok,
            match r {
                Ok(item) => {
                    &&& item == (Item {
                        id: item.id,
                        name: payload.name,
                        price: payload.price,
                        date: payload.date,
                        store_name: payload.store_name,
                    })
                    &&& item.id == old(self).spec_next_id()
                    &&& final(self)@ == old(self)@.insert(item.id, item)
                },
                Err(e) => {
                    &&& e is Unexpected
                    &&& final(self)@ == old(self)@
                    &&& old(self).spec_next_id() > i32::MAX
                },
            },
    {
        let len = self.map.len();
        if len >= i32::MAX as usize {
            return Err(RepositoryError::Unexpected("item id counter overflow".to_owned()));
        }
        let id = (len + 1) as i32;
        let item = Item::new(id, payload.name, payload.price, payload.date, payload.store_name);
        let stored = item.clone();
        self.map.insert(id, stored);
        proof {
            assert forall|k: i32| #[trigger] self@.contains_key(k) implies (self@[k].id == k && k
                >= 1) by {
                if k != id {
                    assert(old(self)@.contains_key(k));
                }
            }
        }
        Ok(item)
    }

    /// Returns the record stored under `id`, or `NotFound(id)` if there is
    /// none. No side effect.
    pub fn find(&self, id: i32) -> (r: Result<Item, RepositoryError>)
        ensures
            self@.contains_key(id) ==> r == Ok::<Item, RepositoryError>(self@[id]),
            !self@.contains_key(id) ==> r == Err::<Item, RepositoryError>(
                RepositoryError::NotFound(id),
            ),
    {
        match self.map.get(&id) {
            Some(item) => Ok(item.clone()),
            None => Err(RepositoryError::NotFound(id)),
        }
    }

    /// Returns every current record: one per stored id, each equal to the
    /// stored one, in the backend's own (unspecified) iteration order.
    /// Always succeeds. No side effect.
    pub fn all(&self) -> (r: Vec<Item>)
        requires
            self.wf(),
        ensures
            r@.len() == self@.len(),
            forall|i: int|
                0 <= i < r@.len() ==> self@.contains_key(#[trigger] r@[i].id) && self@[r@[i].id]
                    == r@[i],
            forall|k: i32| #[trigger] self@.contains_key(k) ==> exists|i: int|
                0 <= i < r@.len() && #[trigger] r@[i].id == k,
            forall|i: int, j: int|
                0 <= i < j < r@.len() ==> #[trigger] r@[i].id != #[trigger] r@[j].id,
    {
        let ghost v = vstd::std_specs::hash::spec_hash_map_iter(&self.map).remaining();
        let mut out: Vec<Item> = Vec::new();
        for kv in it: self.map.iter()
            invariant
                it.seq() == v,
                out@.len() == it.index(),
                forall|j: int| 0 <= j < out@.len() ==> out@[j] == *(#[trigger] v[j]).1,
        {
            out.push(kv.1.clone());
        }
        proof {
            assert(out@.len() == v.len());
            assert forall|i: int|
                0 <= i < out@.len() implies (self@.contains_key(#[trigger] out@[i].id)
                && self@[out@[i].id] == out@[i]) by {
                assert(self@.contains_key(*v[i].0));
                assert(out@[i] == *v[i].1);
            }
            assert forall|k: i32| #[trigger] self@.contains_key(k) implies (exists|i: int|
                0 <= i < out@.len() && #[trigger] out@[i].id == k) by {
                assert(v.contains((&k, &self@[k])));
                let i = choose|i: int| 0 <= i < v.len() && v[i] == (&k, &self@[k]);
                assert(out@[i].id == k);
            }
            assert forall|i: int, j: int|
                0 <= i < j < out@.len() implies (#[trigger] out@[i].id != #[trigger] out@[j].id) by {
                assert(v.no_duplicates());
                if out@[i].id == out@[j].id {
                    assert(self@.contains_key(*v[i].0) && self@[*v[i].0] == *v[i].1);
                    assert(self@.contains_key(*v[j].0) && self@[*v[j].0] == *v[j].1);
                    assert(out@[i] == *v[i].1 && out@[j] == *v[j].1);
                    assert(*v[i].0 == out@[i].id && *v[j].0 == out@[j].id);
                    assert(v[i] == v[j]);
                }
            }
        }
        out
    }

    /// Replaces the record stored under `id` by its merge with the patch and
    /// returns the merged record, or fails with `NotFound(id)`, leaving the
    /// store unchanged. The look-up, the merge and the re-insert happen
    /// within one exclusive borrow, so no caller observes a partial merge.
    pub fn update(&mut self, id: i32, payload: UpdateItem) -> (r: Result<Item, RepositoryError>)
        requires
            old(self).wf(),
        ensures
            final(self).wf(),
            match r {
                Ok(item) => {
                    &&& old(self)@.contains_key(id)
                    &&& item == merged_item(old(self)@[id], id, payload)
                    &&& final(self)@ == old(self)@.insert(id, item)
                },
                Err(e) => {
                    &&& !old(self)@.contains_key(id)
                    &&& e == RepositoryError::NotFound(id)
                    &&& final(self)@ == old(self)@
                },
            },
    {
        let merged = match self.map.get(&id) {
            Some(current) => Item {
                id,
                name: match &payload.name {
                    Some(n) => n.clone(),
                    None => current.name.clone(),
                },
                price: match payload.price {
                    Some(p) => p,
                    None => current.price,
                },
                date: match &payload.date {
                    Some(d) => d.clone(),
                    None => current.date.clone(),
                },
                store_name: match &payload.store_name {
                    Some(s) => s.clone(),
                    None => current.store_name.clone(),
                },
            },
            None => {
                return Err(RepositoryError::NotFound(id));
            },
        };
        let item = merged.clone();
        self.map.insert(id, merged);
        proof {
            assert forall|k: i32| #[trigger] self@.contains_key(k) implies (self@[k].id == k && k
                >= 1) by {
                if k != id {
                    assert(old(self)@.contains_key(k));
                } else {
                    assert(old(self)@.contains_key(id));
                }
            }
        }
        Ok(item)
    }

    /// Removes the record stored under `id`, or fails with `NotFound(id)` —
    /// also when that id was already removed before.
    pub fn delete(&mut self, id: i32) -> (r: Result<(), RepositoryError>)
        requires
            old(self).wf(),
        ensures
            final(self).wf(),
            old(self)@.contains_key(id) ==> r is Ok && final(self)@ == old(self)@.remove(id),
            !old(self)@.contains_key(id) ==> r == Err::<(), RepositoryError>(
                RepositoryError::NotFound(id),
            ) && final(self)@ == old(self)@,
    {
        let removed = self.map.remove(&id);
        proof {
            assert(self@ == old(self)@.remove(id));
            assert forall|k: i32| #[trigger] self@.contains_key(k) implies (self@[k].id == k && k
                >= 1) by {
                assert(old(self)@.dom().remove(id).contains(k));
                assert(old(self)@.contains_key(k));
            }
        }
        match removed {
            Some(_) => Ok(()),
            None => {
                proof {
                    assert(old(self)@.remove(id) =~= old(self)@);
                }
                Err(RepositoryError::NotFound(id))
            },
        }
    }
}

/// The id bookkeeping that `create` alone produces: the stored ids are
/// exactly `{1, ..., size}`. It holds of the empty store and every `create`
/// preserves it, but a `delete` breaks it — which is why a later `create`
/// can assign a retained id (see [`MemoryStore::create`]).
pub open spec fn ids_compact(m: Map<i32, Item>) -> bool {
    forall|k: i32| #[trigger] m.contains_key(k) <==> 1 <= k <= m.len()
}

/// The empty store's ids are compact.
pub proof fn lemma_empty_store_ids_compact()
    ensures
        ids_compact(Map::<i32, Item>::empty()),
{
    assert(Map::<i32, Item>::empty().dom() =~= Set::<i32>::empty());
}

/// A successful `create` returns a record that is at once retrievable: on
/// the new store state — `create` ensures it is `insert(item.id, item)` —
/// `find(item.id)` is owed exactly the returned record. And as long as the
/// stored ids are compact, as after creates alone, the assigned id
/// `size + 1` was not present before, so it is absent from what `all`
/// returned on the old state, and no entry is overwritten: any number of
/// creates from the empty store assign the pairwise distinct ids 1, 2, 3...
pub proof fn lemma_create_fresh_and_findable(pre: Map<i32, Item>, item: Item)
    requires
        pre.dom().finite(),
        item.id == pre.len() + 1,
    ensures
        pre.insert(item.id, item).contains_key(item.id),
        pre.insert(item.id, item)[item.id] == item,
        ids_compact(pre) ==> !pre.contains_key(item.id),
        ids_compact(pre) ==> ids_compact(pre.insert(item.id, item)),
{
    if ids_compact(pre) {
        assert(!pre.contains_key(item.id));
        let post = pre.insert(item.id, item);
        assert(post.dom() =~= pre.dom().insert(item.id));
        vstd::set::axiom_set_insert_len(pre.dom(), item.id);
        assert forall|k: i32| #[trigger] post.contains_key(k) implies (1 <= k <= post.len()) by {
            if k != item.id {
                assert(pre.contains_key(k));
            }
        }
        assert forall|k: i32| 1 <= k <= post.len() implies (#[trigger] post.contains_key(k)) by {
            if k != item.id {
                assert(1 <= k <= pre.len());
            }
        }
    }
}

/// After a successful `delete(id)` — `delete` ensures the new state is
/// `remove(id)` — `find(id)` is owed `NotFound`, and no record that `all`
/// enumerates on the new state carries that id.
pub proof fn lemma_deleted_id_absent(pre: Map<i32, Item>, id: i32, listed: Seq<Item>)
    requires
        forall|i: int|
            0 <= i < listed.len() ==> pre.remove(id).contains_key(#[trigger] listed[i].id),
    ensures
        !pre.remove(id).contains_key(id),
        forall|i: int| 0 <= i < listed.len() ==> #[trigger] listed[i].id != id,
{
    assert(pre.remove(id).dom() =~= pre.dom().remove(id));
}

/// The lock invariant of the in-memory backend: whatever store goes into the
/// lock is well-formed.
pub struct StorePred {}

impl RwLockPredicate<MemoryStore> for StorePred {
    open spec fn inv(self, s: MemoryStore) -> bool {
        s.wf()
    }
}

/// The concurrency-safe in-memory backend: one [`MemoryStore`], owned for the
/// life of the process and guarded by a single reader/writer lock. Reads
/// (`find`, `all`) take a shared acquisition, writes (`create`, `update`,
/// `delete`) an exclusive one, each held for exactly one store operation, so
/// every operation is atomic from any caller's perspective. Clones share the
/// same store.
#[derive(Clone)]
pub struct ItemRepositoryForMemory {
    store: Arc<RwLock<MemoryStore, StorePred>>,
}

impl ItemRepositoryForMemory {
    /// A backend with an empty store.
    pub fn new() -> (r: Self) {
        ItemRepositoryForMemory {
            store: Arc::new(RwLock::new(MemoryStore::new(), Ghost(StorePred {}))),
        }
    }
}

impl ItemRepository for ItemRepositoryForMemory {
    fn create(&self, payload: CreateItem) -> (r: Result<Item, RepositoryError>) {
        let (mut store, handle) = self.store.acquire_write();
        let r = store.create(payload);
        handle.release_write(store);
        r
    }

    fn find(&self, id: i32) -> (r: Result<Item, RepositoryError>) {
        let handle = self.store.acquire_read();
        let r = handle.borrow().find(id);
        handle.release_read();
        r
    }

    fn all(&self) -> (r: Result<Vec<Item>, RepositoryError>) {
        let handle = self.store.acquire_read();
        let items = handle.borrow().all();
        handle.release_read();
        Ok(items)
    }

    fn update(&self, id: i32, payload: UpdateItem) -> (r: Result<Item, RepositoryError>) {
        let (mut store, handle) = self.store.acquire_write();
        let r = store.update(id, payload);
        handle.release_write(store);
        r
    }

    fn delete(&self, id: i32) -> (r: Result<(), RepositoryError>) {
        let (mut store, handle) = self.store.acquire_write();
        let r = store.delete(id);
        handle.release_write(store);
        r
    }
}

} // verus!
