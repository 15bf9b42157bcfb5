//! The inventory aggregate: the consistency boundary for one product's
//! stock, mutated only through `reserve`, `release` and `confirm`.
//!
//! The operations are deterministic and free of side effects, so a
//! caller may retry them on the same snapshot. Reserve and release move
//! quantity between the available and the reserved counter and keep the
//! total unchanged; only confirm reduces the total, standing for a
//! completed sale.

use vstd::prelude::*;
use crate::ids::ProductId;

verus! {

/// Mathematical snapshot of an inventory aggregate.
#[verifier::ext_equal]
pub struct InventoryModel {
    pub product_id: Seq<char>,
    pub available: int,
    pub reserved: int,
}

impl InventoryModel {
    /// Total stock: what is on hand plus what is promised to orders.
    pub open spec fn total(self) -> int {
        self.available + self.reserved
    }

    /// Both counters are non-negative and their sum fits the counter width,
    /// so moving quantity between them can never overflow.
    pub open spec fn wf(self) -> bool {
        0 <= self.available && 0 <= self.reserved && self.total() <= u32::MAX as int
    }
}

/// One inventory operation, identified by its quantity.
pub enum InventoryOp {
    Reserve(u32),
    Release(u32),
    Confirm(u32),
}

/// Effect of one operation on a snapshot. An operation whose guard fails
/// is rejected and leaves the snapshot unchanged, exactly as the
/// executable operations do when they return an error.
pub open spec fn apply_op(m: InventoryModel, op: InventoryOp) -> InventoryModel {
    match op {
        InventoryOp::Reserve(q) => if m.available >= q {
            InventoryModel { available: m.available - q, reserved: m.reserved + q, ..m }
        } else {
            m
        },
        InventoryOp::Release(q) => if m.reserved >= q {
            InventoryModel { available: m.available + q, reserved: m.reserved - q, ..m }
        } else {
            m
        },
        InventoryOp::Confirm(q) => if m.reserved >= q {
            InventoryModel { reserved: m.reserved - q, ..m }
        } else {
            m
        },
    }
}

/// Effect of a sequence of operations, applied left to right.
pub open spec fn apply_ops(m: InventoryModel, ops: Seq<InventoryOp>) -> InventoryModel
    decreases ops.len(),
{
    if ops.len() == 0 {
        m
    } else {
        apply_op(apply_ops(m, ops.drop_last()), ops.last())
    }
}

/// Failures of inventory operations.
#[derive(Debug, PartialEq, Eq)]
pub enum InventoryError {
    /// The business rule is genuinely not satisfiable now: the guarding
    /// counter is below the requested quantity. `requested` is the
    /// quantity that was asked for; `available` is the available counter
    /// of the aggregate before the operation.
    InsufficientStock { product_id: String, requested: u32, available: u32 },
    /// No inventory row exists for the product; a permanent failure.
    ProductNotFound(String),
    /// Storage or transport was unreachable; worth retrying.
    Infrastructure(String),
}

impl InventoryError {
    /// Human-readable description of the failure.
    pub open spec fn message_view(&self) -> Seq<char> {
        match self {
            InventoryError::InsufficientStock { .. } => "Insufficient stock"@,
            InventoryError::ProductNotFound(id) => "Product not found: "@ + id@,
            InventoryError::Infrastructure(msg) => "Infrastructure error: "@ + msg@,
        }
    }

    pub fn message(&self) -> (r: String)
        ensures
            r@ == self.message_view(),
    {
        match self {
            InventoryError::InsufficientStock { .. } => "Insufficient stock".to_owned(),
            InventoryError::ProductNotFound(id) => {
                let mut s = "Product not found: ".to_owned();
                s.append(id.as_str());
                s
            },
            InventoryError::Infrastructure(msg) => {
                let mut s = "Infrastructure error: ".to_owned();
                s.append(msg.as_str());
                s
            },
        }
    }
}

/// One product's stock counters.
pub struct Inventory {
    pub product_id: ProductId,
    pub available_quantity: u32,
    pub reserved_quantity: u32,
}

impl View for Inventory {
    type V = InventoryModel;

    open spec fn view(&self) -> InventoryModel {
        InventoryModel {
            product_id: self.product_id@,
            available: self.available_quantity as int,
            reserved: self.reserved_quantity as int,
        }
    }
}

impl Clone for Inventory {
    fn clone(&self) -> (r: Self)
        ensures
            r == *self,
    {
        Inventory {
            product_id: self.product_id.clone(),
            available_quantity: self.available_quantity,
            reserved_quantity: self.reserved_quantity,
        }
    }
}

impl Inventory {
    /// The counters can be moved between each other without overflow.
    pub open spec fn wf(&self) -> bool {
        self@.wf()
    }

    pub fn new(product_id: ProductId, available_quantity: u32, reserved_quantity: u32) -> (r: Self)
        ensures
            r.product_id == product_id,
            r.available_quantity == available_quantity,
            r.reserved_quantity == reserved_quantity,
    {
        Self { product_id, available_quantity, reserved_quantity }
    }

    /// Move `quantity` from available to reserved; fails without effect
    /// when less than `quantity` is available.
    pub fn reserve(&mut self, quantity: u32) -> (r: Result<(), InventoryError>)
        requires
            old(self).wf(),
        ensures
            final(self).wf(),
            final(self).product_id == old(self).product_id,
            final(self)@ == apply_op(old(self)@, InventoryOp::Reserve(quantity)),
            r is Ok <==> old(self).available_quantity >= quantity,
            old(self).available_quantity < quantity ==> {
                &&& *final(self) == *old(self)
                &&& r == Err::<(), InventoryError>(InventoryError::InsufficientStock {
                    product_id: old(self).product_id.0,
                    requested: quantity,
                    available: old(self).available_quantity,
                })
            },
    {
        if self.available_quantity >= quantity {
            self.reserved_quantity = self.reserved_quantity + quantity;
            self.available_quantity = self.available_quantity - quantity;
            Ok(())
        } else {
            Err(InventoryError::InsufficientStock {
                product_id: self.product_id.0.clone(),
                requested: quantity,
                available: self.available_quantity,
            })
        }
    }

    /// Move `quantity` back from reserved to available; fails without
    /// effect when less than `quantity` is reserved, which signals an
    /// ordering bug upstream.
    pub fn release(&mut self, quantity: u32) -> (r: Result<(), InventoryError>)
        requires
            old(self).wf(),
        ensures
            final(self).wf(),
            final(self).product_id == old(self).product_id,
            final(self)@ == apply_op(old(self)@, InventoryOp::Release(quantity)),
            r is Ok <==> old(self).reserved_quantity >= quantity,
            old(self).reserved_quantity < quantity ==> {
                &&& *final(self) == *old(self)
                &&& r == Err::<(), InventoryError>(InventoryError::InsufficientStock {
                    product_id: old(self).product_id.0,
                    requested: quantity,
                    available: old(self).available_quantity,
                })
            },
    {
        if self.reserved_quantity >= quantity {
            self.available_quantity = self.available_quantity + quantity;
            self.reserved_quantity = self.reserved_quantity - quantity;
            Ok(())
        } else {
            Err(InventoryError::InsufficientStock {
                product_id: self.product_id.0.clone(),
                requested: quantity,
                available: self.available_quantity,
            })
        }
    }

    /// Finalize a sale: `quantity` leaves the reserved counter and the
    /// system; fails without effect when less than `quantity` is reserved.
    pub fn confirm(&mut self, quantity: u32) -> (r: Result<(), InventoryError>)
        requires
            old(self).wf(),
        ensures
            final(self).wf(),
            final(self).product_id == old(self).product_id,
            final(self)@ == apply_op(old(self)@, InventoryOp::Confirm(quantity)),
            r is Ok <==> old(self).reserved_quantity >= quantity,
            old(self).reserved_quantity < quantity ==> {
                &&& *final(self) == *old(self)
                &&& r == Err::<(), InventoryError>(InventoryError::InsufficientStock {
                    product_id: old(self).product_id.0,
                    requested: quantity,
                    available: old(self).available_quantity,
                })
            },
    {
        if self.reserved_quantity >= quantity {
            self.reserved_quantity = self.reserved_quantity - quantity;
            Ok(())
        } else {
            Err(InventoryError::InsufficientStock {
                product_id: self.product_id.0.clone(),
                requested: quantity,
                available: self.available_quantity,
            })
        }
    }
}

/// No sequence of operations can drive a counter negative: after every
/// prefix of `ops` both counters are non-negative and the snapshot stays
/// well-formed.
pub proof fn lemma_ops_preserve_invariant(m: InventoryModel, ops: Seq<InventoryOp>)
    requires
        m.wf(),
    ensures
        forall|i: int| 0 <= i <= ops.len() ==> {
            let s = #[trigger] apply_ops(m, ops.take(i));
            s.wf() && s.available >= 0 && s.reserved >= 0
        },
    decreases ops.len(),
{
    if ops.len() > 0 {
        lemma_ops_preserve_invariant(m, ops.drop_last());
        assert forall|i: int| 0 <= i <= ops.len() implies {
            let s = #[trigger] apply_ops(m, ops.take(i));
            s.wf() && s.available >= 0 && s.reserved >= 0
        } by {
            if i < ops.len() {
                assert(ops.take(i) == ops.drop_last().take(i));
            } else {
                assert(ops.take(i) == ops);
                assert(ops.drop_last() == ops.drop_last().take(ops.len() - 1));
                assert(apply_ops(m, ops) == apply_op(apply_ops(m, ops.drop_last()), ops.last()));
            }
        }
    } else {
        assert(ops.take(0) == ops);
    }
}

/// Round trip: a release for exactly the quantity of a successful
/// reserve restores the snapshot that the reserve started from.
pub proof fn lemma_reserve_release_round_trip(m: InventoryModel, quantity: u32)
    requires
        m.wf(),
        quantity <= m.available,
    ensures
        apply_op(apply_op(m, InventoryOp::Reserve(quantity)), InventoryOp::Release(quantity)) == m,
{
    assert(apply_op(apply_op(m, InventoryOp::Reserve(quantity)), InventoryOp::Release(quantity))
        =~= m);
}

/// A reserve that is accepted, and equally one that is rejected, never
/// changes the total stock.
pub proof fn lemma_reserve_preserves_total(m: InventoryModel, quantity: u32)
    ensures
        apply_op(m, InventoryOp::Reserve(quantity)).total() == m.total(),
{
}

/// A release never changes the total stock, accepted or not.
pub proof fn lemma_release_preserves_total(m: InventoryModel, quantity: u32)
    ensures
        apply_op(m, InventoryOp::Release(quantity)).total() == m.total(),
{
}

/// A confirm after a successful reserve of the same quantity lowers the
/// total stock by exactly that quantity.
pub proof fn lemma_confirm_after_reserve_decreases_total(m: InventoryModel, quantity: u32)
    requires
        m.wf(),
        quantity <= m.available,
    ensures
        apply_op(apply_op(m, InventoryOp::Reserve(quantity)), InventoryOp::Confirm(quantity)).total()
            == m.total() - quantity,
{
}

} // verus!
