//! The repository port: load and upsert one inventory aggregate by its
//! product key.
//!
//! The port abstracts storage. Its contract speaks about an abstract map
//! from product keys to snapshots: a load returns exactly what the map
//! holds, a successful save replaces one key, and a failed call changes
//! nothing. `InventoryStore` is the crate's own verified implementation,
//! a plain vector with unique keys.

use vstd::prelude::*;
use crate::ids::ProductId;
use crate::inventory::{Inventory, InventoryError, InventoryModel};

verus! {

/// Storage for inventory aggregates, keyed by product.
///
/// A failing implementation may answer any call with
/// `InventoryError::Infrastructure`, but never with a wrong value: what
/// it returns or keeps must follow `stock()`.
pub trait InventoryRepository: Sized {
    /// The abstract content of the store.
    spec fn stock(&self) -> Map<Seq<char>, InventoryModel>;

    /// The implementation's internal validity; constructors establish it
    /// and every operation preserves it.
    spec fn wf(&self) -> bool;

    fn find_by_product_id(&self, product_id: &ProductId) -> (r: Result<
        Option<Inventory>,
        InventoryError,
    >)
        requires
            self.wf(),
        ensures
            r matches Ok(Some(inv)) ==> self.stock().contains_key(product_id@) && inv@
                == self.stock()[product_id@] && inv.wf() && inv.product_id@ == product_id@,
            r matches Ok(None) ==> !self.stock().contains_key(product_id@),
            r matches Err(e) ==> e matches InventoryError::Infrastructure(_),
    ;

    fn save(&mut self, inventory: &Inventory) -> (r: Result<(), InventoryError>)
        requires
            old(self).wf(),
            inventory.wf(),
        ensures
            final(self).wf(),
            r is Ok ==> final(self).stock() == old(self).stock().insert(
                inventory.product_id@,
                inventory@,
            ),
            r matches Err(e) ==> final(self).stock() == old(self).stock() && e
                matches InventoryError::Infrastructure(_),
    ;
}

/// The map a sequence of aggregates stands for: product key to snapshot.
pub open spec fn store_map(items: Seq<Inventory>) -> Map<Seq<char>, InventoryModel>
    decreases items.len(),
{
    if items.len() == 0 {
        Map::empty()
    } else {
        store_map(items.drop_last()).insert(items.last().product_id@, items.last()@)
    }
}

/// A key is in the map exactly when some aggregate carries it.
proof fn lemma_store_map_contains(items: Seq<Inventory>, k: Seq<char>)
    ensures
        store_map(items).contains_key(k) <==> exists|i: int|
            0 <= i < items.len() && items[i].product_id@ == k,
    decreases items.len(),
{
    if items.len() > 0 {
        lemma_store_map_contains(items.drop_last(), k);
        if store_map(items).contains_key(k) {
            if items.last().product_id@ == k {
                assert(items[items.len() - 1].product_id@ == k);
            } else {
                let i = choose|i: int|
                    0 <= i < items.drop_last().len() && items.drop_last()[i].product_id@ == k;
                assert(items[i].product_id@ == k);
            }
        }
        if exists|i: int| 0 <= i < items.len() && items[i].product_id@ == k {
            let i = choose|i: int| 0 <= i < items.len() && items[i].product_id@ == k;
            if i < items.len() - 1 {
                assert(items.drop_last()[i].product_id@ == k);
            }
        }
    }
}

/// Under unique keys, the map sends each aggregate's key to its snapshot.
proof fn lemma_store_map_value(items: Seq<Inventory>, i: int)
    requires
        0 <= i < items.len(),
        forall|p: int, q: int|
            0 <= p < q < items.len() ==> items[p].product_id@ != items[q].product_id@,
    ensures
        store_map(items).contains_key(items[i].product_id@),
        store_map(items)[items[i].product_id@] == items[i]@,
    decreases items.len(),
{
    if i == items.len() - 1 {
        assert(items[i] == items.last());
    } else {
        lemma_store_map_value(items.drop_last(), i);
        assert(items.drop_last()[i] == items[i]);
        assert(items[i].product_id@ != items[items.len() - 1].product_id@);
    }
}

/// Replacing the aggregate at position `i` by one with the same key acts
/// on the map as inserting under that key.
proof fn lemma_store_map_update(items: Seq<Inventory>, i: int, v: Inventory)
    requires
        0 <= i < items.len(),
        forall|p: int, q: int|
            0 <= p < q < items.len() ==> items[p].product_id@ != items[q].product_id@,
        v.product_id@ == items[i].product_id@,
    ensures
        store_map(items.update(i, v)) == store_map(items).insert(v.product_id@, v@),
    decreases items.len(),
{
    let updated = items.update(i, v);
    if i == items.len() - 1 {
        assert(updated.drop_last() == items.drop_last());
        assert(updated.last() == v);
        assert(store_map(items.update(i, v)) =~= store_map(items).insert(v.product_id@, v@));
    } else {
        lemma_store_map_update(items.drop_last(), i, v);
        assert(updated.drop_last() == items.drop_last().update(i, v));
        assert(updated.last() == items.last());
        assert(items[i].product_id@ != items[items.len() - 1].product_id@);
        assert(store_map(items.update(i, v)) =~= store_map(items).insert(v.product_id@, v@));
    }
}

/// In-memory inventory storage: the crate's own repository, used by the
/// saga coordinator and as an interchangeable stand-in for a database
/// implementation.
pub struct InventoryStore {
    pub items: Vec<Inventory>,
}

impl InventoryStore {
    pub fn new() -> (r: Self)
        ensures
            r.wf(),
            r.stock() == Map::<Seq<char>, InventoryModel>::empty(),
    {
        InventoryStore { items: Vec::new() }
    }

    /// Load the aggregate stored under the product key, if any. Memory
    /// cannot fail, so unlike the port this never errs.
    pub fn get(&self, product_id: &ProductId) -> (r: Option<Inventory>)
        requires
            self.wf(),
        ensures
            match r {
                Some(inv) => self.stock().contains_key(product_id@) && inv@
                    == self.stock()[product_id@] && inv.wf() && inv.product_id@ == product_id@,
                None => !self.stock().contains_key(product_id@),
            },
    {
        let n = self.items.len();
        let mut i: usize = 0;
        while i < n
            invariant
                n == self.items@.len(),
                0 <= i <= n,
                self.wf(),
                forall|j: int| 0 <= j < i ==> self.items@[j].product_id@ != product_id@,
            decreases n - i,
        {
            let item = &self.items[i];
            if item.product_id.0 == product_id.0 {
                proof {
                    lemma_store_map_value(self.items@, i as int);
                }
                return Some(item.clone());
            }
            i = i + 1;
        }
        proof {
            lemma_store_map_contains(self.items@, product_id@);
        }
        None
    }

    /// Store the aggregate under its product key, replacing what was
    /// there. Memory cannot fail, so unlike the port this never errs.
    pub fn upsert(&mut self, inventory: &Inventory)
        requires
            old(self).wf(),
            inventory.wf(),
        ensures
            final(self).wf(),
            final(self).stock() == old(self).stock().insert(inventory.product_id@, inventory@),
    {
        let n = self.items.len();
        let mut i: usize = 0;
        while i < n
            invariant
                *self == *old(self),
                n == self.items@.len(),
                0 <= i <= n,
                self.wf(),
                forall|j: int| 0 <= j < i ==> self.items@[j].product_id@ != inventory.product_id@,
            ensures
                *self == *old(self),
                0 <= i <= n,
                i < n ==> self.items@[i as int].product_id@ == inventory.product_id@,
                i == n ==> forall|j: int|
                    0 <= j < n ==> self.items@[j].product_id@ != inventory.product_id@,
            decreases n - i,
        {
            if self.items[i].product_id.0 == inventory.product_id.0 {
                break;
            }
            i = i + 1;
        }
        if i < n {
            proof {
                lemma_store_map_update(self.items@, i as int, *inventory);
            }
            self.items[i] = inventory.clone();
            proof {
                assert(forall|j: int|
                    0 <= j < self.items@.len() ==> self.items@[j].product_id@ == old(
                        self,
                    ).items@[j].product_id@);
            }
        } else {
            proof {
                lemma_store_map_contains(self.items@, inventory.product_id@);
            }
            self.items.push(inventory.clone());
            proof {
                assert(self.items@.drop_last() == old(self).items@);
            }
        }
    }
}

impl InventoryRepository for InventoryStore {
    open spec fn stock(&self) -> Map<Seq<char>, InventoryModel> {
        store_map(self.items@)
    }

    /// Keys are pairwise distinct and every aggregate is well-formed.
    open spec fn wf(&self) -> bool {
        &&& forall|p: int, q: int|
            0 <= p < q < self.items@.len() ==> self.items@[p].product_id@
                != self.items@[q].product_id@
        &&& forall|p: int| 0 <= p < self.items@.len() ==> (#[trigger] self.items@[p]).wf()
    }

    fn find_by_product_id(&self, product_id: &ProductId) -> (r: Result<
        Option<Inventory>,
        InventoryError,
    >) {
        Ok(self.get(product_id))
    }

    fn save(&mut self, inventory: &Inventory) -> (r: Result<(), InventoryError>) {
        self.upsert(inventory);
        Ok(())
    }
}

} // verus!
