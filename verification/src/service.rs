//! The inventory application service: load an aggregate through the
//! repository port, run one operation on it, store it back.
//!
//! The service is generic over the repository, so a database-backed
//! implementation and the in-memory store are interchangeable behind it.

use vstd::prelude::*;
use crate::ids::ProductId;
use crate::inventory::{apply_op, InventoryError, InventoryModel, InventoryOp};
use crate::repository::InventoryRepository;

verus! {

pub struct InventoryService<R: InventoryRepository> {
    pub repository: R,
}

impl<R: InventoryRepository> InventoryService<R> {
    pub open spec fn wf(&self) -> bool {
        self.repository.wf()
    }

    /// The stored aggregates, by product key.
    pub open spec fn stock(&self) -> Map<Seq<char>, InventoryModel> {
        self.repository.stock()
    }

    pub fn new(repository: R) -> (r: Self)
        ensures
            r.repository == repository,
    {
        Self { repository }
    }

    /// Reserve `quantity` of the product: its available counter drops,
    /// its reserved counter grows, the total is unchanged.
    pub fn reserve_inventory(&mut self, product_id: &ProductId, quantity: u32) -> (r: Result<
        (),
        InventoryError,
    >)
        requires
            old(self).wf(),
        ensures
            final(self).wf(),
            r is Ok ==> old(self).stock().contains_key(product_id@) && old(self).stock()[product_id@].available
                >= quantity && final(self).stock() == old(self).stock().insert(
                product_id@,
                apply_op(old(self).stock()[product_id@], InventoryOp::Reserve(quantity)),
            ),
            r matches Err(InventoryError::ProductNotFound(p)) ==> p@ == product_id@ && !old(self).stock().contains_key(product_id@) && final(self).stock() == old(self).stock(),
            r matches Err(InventoryError::InsufficientStock { product_id: ep, requested, available })
                ==> ep@ == product_id@ && requested == quantity && old(self).stock().contains_key(
                product_id@,
            ) && available == old(self).stock()[product_id@].available && old(self).stock()[product_id@].available < quantity && final(self).stock() == old(self).stock(),
            r matches Err(InventoryError::Infrastructure(_)) ==> final(self).stock() == old(self).stock(),
    {
        let found = match self.repository.find_by_product_id(product_id) {
            Ok(found) => found,
            Err(e) => {
                return Err(e);
            },
        };
        match found {
            Some(mut inventory) => {
                match inventory.reserve(quantity) {
                    Ok(()) => (),
                    Err(e) => {
                        return Err(e);
                    },
                }
                match self.repository.save(&inventory) {
                    Ok(()) => Ok(()),
                    Err(e) => Err(e),
                }
            },
            None => Err(InventoryError::ProductNotFound(product_id.0.clone())),
        }
    }

    /// Release `quantity` of the product back from reserved to
    /// available; the total is unchanged.
    pub fn release_inventory(&mut self, product_id: &ProductId, quantity: u32) -> (r: Result<
        (),
        InventoryError,
    >)
        requires
            old(self).wf(),
        ensures
            final(self).wf(),
            r is Ok ==> old(self).stock().contains_key(product_id@) && old(self).stock()[product_id@].reserved
                >= quantity && final(self).stock() == old(self).stock().insert(
                product_id@,
                apply_op(old(self).stock()[product_id@], InventoryOp::Release(quantity)),
            ),
            r matches Err(InventoryError::ProductNotFound(p)) ==> p@ == product_id@ && !old(self).stock().contains_key(product_id@) && final(self).stock() == old(self).stock(),
            r matches Err(InventoryError::InsufficientStock { product_id: ep, requested, available })
                ==> ep@ == product_id@ && requested == quantity && old(self).stock().contains_key(
                product_id@,
            ) && available == old(self).stock()[product_id@].available && old(self).stock()[product_id@].reserved < quantity && final(self).stock() == old(self).stock(),
            r matches Err(InventoryError::Infrastructure(_)) ==> final(self).stock() == old(self).stock(),
    {
        let found = match self.repository.find_by_product_id(product_id) {
            Ok(found) => found,
            Err(e) => {
                return Err(e);
            },
        };
        match found {
            Some(mut inventory) => {
                match inventory.release(quantity) {
                    Ok(()) => (),
                    Err(e) => {
                        return Err(e);
                    },
                }
                match self.repository.save(&inventory) {
                    Ok(()) => Ok(()),
                    Err(e) => Err(e),
                }
            },
            None => Err(InventoryError::ProductNotFound(product_id.0.clone())),
        }
    }

    /// Confirm `quantity` of the product: the sale is final and the
    /// total stock drops by `quantity`.
    pub fn confirm_inventory(&mut self, product_id: &ProductId, quantity: u32) -> (r: Result<
        (),
        InventoryError,
    >)
        requires
            old(self).wf(),
        ensures
            final(self).wf(),
            r is Ok ==> old(self).stock().contains_key(product_id@) && old(self).stock()[product_id@].reserved
                >= quantity && final(self).stock() == old(self).stock().insert(
                product_id@,
                apply_op(old(self).stock()[product_id@], InventoryOp::Confirm(quantity)),
            ),
            r matches Err(InventoryError::ProductNotFound(p)) ==> p@ == product_id@ && !old(self).stock().contains_key(product_id@) && final(self).stock() == old(self).stock(),
            r matches Err(InventoryError::InsufficientStock { product_id: ep, requested, available })
                ==> ep@ == product_id@ && requested == quantity && old(self).stock().contains_key(
                product_id@,
            ) && available == old(self).stock()[product_id@].available && old(self).stock()[product_id@].reserved < quantity && final(self).stock() == old(self).stock(),
            r matches Err(InventoryError::Infrastructure(_)) ==> final(self).stock() == old(self).stock(),
    {
        let found = match self.repository.find_by_product_id(product_id) {
            Ok(found) => found,
            Err(e) => {
                return Err(e);
            },
        };
        match found {
            Some(mut inventory) => {
                match inventory.confirm(quantity) {
                    Ok(()) => (),
                    Err(e) => {
                        return Err(e);
                    },
                }
                match self.repository.save(&inventory) {
                    Ok(()) => Ok(()),
                    Err(e) => Err(e),
                }
            },
            None => Err(InventoryError::ProductNotFound(product_id.0.clone())),
        }
    }
}

} // verus!
