//! The saga rules: how one inbound trigger moves the inventory and which
//! outcome event it publishes.
//!
//! The transport redelivers messages, so every step is guarded by the
//! idempotency log: a trigger whose (order, operation) pair is already
//! recorded mutates nothing and re-emits the outcome computed the first
//! time, with its original timestamp. A fresh trigger applies its
//! inventory operation, records the pair and emits the outcome; when the
//! operation is rejected, or the product has no inventory row, nothing
//! is recorded and a failure event is emitted instead.
//!
//! The saga's position for an order is not stored anywhere: it is
//! derived from which idempotency records exist for that order.

use vstd::prelude::*;
use crate::events::{InventoryEvent, InventoryEventModel, SagaTrigger, TriggerModel};
use crate::idempotency::{IdempotencyLog, OperationKind};
use crate::ids::ProductId;
use crate::inventory::{apply_op, Inventory, InventoryError, InventoryModel, InventoryOp};
use crate::repository::{InventoryRepository, InventoryStore};

verus! {

/// The inventory operation asked for by a trigger of this kind.
pub open spec fn op_of(kind: OperationKind, quantity: u32) -> InventoryOp {
    match kind {
        OperationKind::Reserve => InventoryOp::Reserve(quantity),
        OperationKind::Release => InventoryOp::Release(quantity),
        OperationKind::Confirm => InventoryOp::Confirm(quantity),
    }
}

/// Whether the operation's guard accepts it on this snapshot.
pub open spec fn guard_holds(m: InventoryModel, kind: OperationKind, quantity: u32) -> bool {
    match kind {
        OperationKind::Reserve => m.available >= quantity,
        OperationKind::Release => m.reserved >= quantity,
        OperationKind::Confirm => m.reserved >= quantity,
    }
}

/// The outcome a trigger publishes once its operation has been applied,
/// whether freshly (`at` = now) or replayed (`at` = the recorded time).
/// A confirm is terminal and publishes nothing.
pub open spec fn applied_outcome(t: TriggerModel, at: i64) -> Option<InventoryEventModel> {
    match t.kind() {
        OperationKind::Reserve => Some(
            InventoryEventModel::Reserved {
                order_id: t.order_id(),
                product_id: t.product_id(),
                quantity: t.quantity(),
                reserved_at: at,
            },
        ),
        OperationKind::Release => Some(
            InventoryEventModel::Released {
                order_id: t.order_id(),
                product_id: t.product_id(),
                quantity: t.quantity(),
                released_at: at,
            },
        ),
        OperationKind::Confirm => None,
    }
}

/// The failure outcome for a trigger, carrying the given reason.
pub open spec fn failed_outcome(t: TriggerModel, reason: Seq<char>, at: i64) -> Option<
    InventoryEventModel,
> {
    Some(
        InventoryEventModel::Failed {
            order_id: t.order_id(),
            product_id: t.product_id(),
            reason,
            failed_at: at,
        },
    )
}

/// Result of one saga step on the mathematical level.
#[verifier::ext_equal]
pub struct SagaStepModel {
    pub inventory: Option<InventoryModel>,
    pub log: Map<(Seq<char>, OperationKind), i64>,
    pub outcome: Option<InventoryEventModel>,
}

/// The saga transition function: what one trigger does to the aggregate
/// snapshot and the idempotency log, and what it publishes.
///
/// `inventory` is the aggregate for the trigger's product, absent when
/// the product has no inventory row; `now` is the wall-clock time the
/// step runs at.
pub open spec fn spec_process(
    inventory: Option<InventoryModel>,
    log: Map<(Seq<char>, OperationKind), i64>,
    t: TriggerModel,
    now: i64,
) -> SagaStepModel {
    let k = (t.order_id(), t.kind());
    if log.contains_key(k) {
        // Duplicate delivery: the mutation is already durable. Re-emit
        // the original outcome so a consumer that missed it converges.
        SagaStepModel { inventory, log, outcome: applied_outcome(t, log[k]) }
    } else {
        match inventory {
            None => SagaStepModel {
                inventory,
                log,
                outcome: failed_outcome(t, "Product not found: "@ + t.product_id(), now),
            },
            Some(m) => if guard_holds(m, t.kind(), t.quantity()) {
                SagaStepModel {
                    inventory: Some(apply_op(m, op_of(t.kind(), t.quantity()))),
                    log: log.insert(k, now),
                    outcome: applied_outcome(t, now),
                }
            } else {
                SagaStepModel {
                    inventory,
                    log,
                    outcome: failed_outcome(t, "Insufficient stock"@, now),
                }
            },
        }
    }
}

pub open spec fn opt_inventory_view(o: Option<Inventory>) -> Option<InventoryModel> {
    match o {
        Some(inv) => Some(inv@),
        None => None,
    }
}

pub open spec fn opt_event_view(o: Option<InventoryEvent>) -> Option<InventoryEventModel> {
    match o {
        Some(e) => Some(e@),
        None => None,
    }
}

/// Result of one saga step: the aggregate to persist and the outcome
/// event to publish, if any.
pub struct SagaStep {
    pub inventory: Option<Inventory>,
    pub outcome: Option<InventoryEvent>,
}

/// Run one trigger against the aggregate loaded for its product.
///
/// The caller persists `step.inventory` together with the updated log in
/// one atomic storage operation and only then publishes `step.outcome`.
pub fn process_trigger(
    inventory: Option<Inventory>,
    log: &mut IdempotencyLog,
    trigger: &SagaTrigger,
    now: i64,
) -> (step: SagaStep)
    requires
        old(log).wf(),
        inventory matches Some(inv) ==> inv.wf() && inv.product_id@ == trigger@.product_id(),
    ensures
        final(log).wf(),
        ({
            let m = spec_process(opt_inventory_view(inventory), old(log)@, trigger@, now);
            &&& final(log)@ == m.log
            &&& opt_inventory_view(step.inventory) == m.inventory
            &&& opt_event_view(step.outcome) == m.outcome
        }),
        step.inventory matches Some(inv) ==> inv.wf() && inv.product_id@ == trigger@.product_id(),
{
    let kind = trigger.operation_kind();
    match log.lookup(trigger.order_id(), kind) {
        Some(at) => {
            let outcome = match kind {
                OperationKind::Reserve => Some(
                    InventoryEvent::InventoryReserved {
                        order_id: trigger.order_id().clone(),
                        product_id: trigger.product_id().clone(),
                        quantity: trigger.quantity(),
                        reserved_at: at,
                    },
                ),
                OperationKind::Release => Some(
                    InventoryEvent::InventoryReleased {
                        order_id: trigger.order_id().clone(),
                        product_id: trigger.product_id().clone(),
                        quantity: trigger.quantity(),
                        released_at: at,
                    },
                ),
                OperationKind::Confirm => None,
            };
            SagaStep { inventory, outcome }
        },
        None => match inventory {
            None => {
                let err = InventoryError::ProductNotFound(trigger.product_id().clone());
                let reason = err.message();
                SagaStep {
                    inventory: None,
                    outcome: Some(
                        InventoryEvent::InventoryFailed {
                            order_id: trigger.order_id().clone(),
                            product_id: trigger.product_id().clone(),
                            reason,
                            failed_at: now,
                        },
                    ),
                }
            },
            Some(mut inv) => {
                let quantity = trigger.quantity();
                let applied = match kind {
                    OperationKind::Reserve => inv.reserve(quantity),
                    OperationKind::Release => inv.release(quantity),
                    OperationKind::Confirm => inv.confirm(quantity),
                };
                match applied {
                    Ok(()) => {
                        log.record(trigger.order_id(), kind, now);
                        let outcome = match kind {
                            OperationKind::Reserve => Some(
                                InventoryEvent::InventoryReserved {
                                    order_id: trigger.order_id().clone(),
                                    product_id: trigger.product_id().clone(),
                                    quantity,
                                    reserved_at: now,
                                },
                            ),
                            OperationKind::Release => Some(
                                InventoryEvent::InventoryReleased {
                                    order_id: trigger.order_id().clone(),
                                    product_id: trigger.product_id().clone(),
                                    quantity,
                                    released_at: now,
                                },
                            ),
                            OperationKind::Confirm => None,
                        };
                        SagaStep { inventory: Some(inv), outcome }
                    },
                    Err(e) => {
                        let reason = e.message();
                        SagaStep {
                            inventory: Some(inv),
                            outcome: Some(
                                InventoryEvent::InventoryFailed {
                                    order_id: trigger.order_id().clone(),
                                    product_id: trigger.product_id().clone(),
                                    reason,
                                    failed_at: now,
                                },
                            ),
                        }
                    },
                }
            },
        },
    }
}

/// The saga's position for one order, derived from which idempotency
/// records exist rather than stored as its own column.
#[derive(Clone, Copy, Debug, PartialEq, Eq, Structural)]
pub enum SagaState {
    /// No operation has been applied for the order.
    Idle,
    /// Its reserve has been applied.
    Reserved,
    /// Its reservation was released again (cancellation or failed payment).
    Released,
    /// Its reservation was confirmed: the sale is final.
    Settled,
}

pub open spec fn spec_saga_state(
    log: Map<(Seq<char>, OperationKind), i64>,
    order_id: Seq<char>,
) -> SagaState {
    if log.contains_key((order_id, OperationKind::Confirm)) {
        SagaState::Settled
    } else if log.contains_key((order_id, OperationKind::Release)) {
        SagaState::Released
    } else if log.contains_key((order_id, OperationKind::Reserve)) {
        SagaState::Reserved
    } else {
        SagaState::Idle
    }
}

/// Reconstruct the saga's position for an order from the log.
pub fn derive_saga_state(log: &IdempotencyLog, order_id: &String) -> (s: SagaState)
    requires
        log.wf(),
    ensures
        s == spec_saga_state(log@, order_id@),
{
    if log.lookup(order_id, OperationKind::Confirm).is_some() {
        SagaState::Settled
    } else if log.lookup(order_id, OperationKind::Release).is_some() {
        SagaState::Released
    } else if log.lookup(order_id, OperationKind::Reserve).is_some() {
        SagaState::Reserved
    } else {
        SagaState::Idle
    }
}

/// What the store holds for a product, if anything.
pub open spec fn stock_lookup(
    stock: Map<Seq<char>, InventoryModel>,
    product_id: Seq<char>,
) -> Option<InventoryModel> {
    if stock.contains_key(product_id) {
        Some(stock[product_id])
    } else {
        None
    }
}

/// The saga coordinator bound to the in-memory store: one consumer's
/// aggregates and idempotency log, mutated together as one unit.
///
/// `handle_trigger` first makes the aggregate mutation and its
/// idempotency record durable, then hands the outcome event to the
/// caller for publication. A publish failure is therefore harmless: the
/// redelivered trigger finds its record and re-emits the same outcome
/// without touching the aggregate again.
pub struct SagaCoordinator {
    pub store: InventoryStore,
    pub log: IdempotencyLog,
}

impl SagaCoordinator {
    pub open spec fn wf(&self) -> bool {
        self.store.wf() && self.log.wf()
    }

    pub fn new() -> (r: Self)
        ensures
            r.wf(),
            r.store.stock() == Map::<Seq<char>, InventoryModel>::empty(),
            r.log@ == Map::<(Seq<char>, OperationKind), i64>::empty(),
    {
        SagaCoordinator { store: InventoryStore::new(), log: IdempotencyLog::new() }
    }

    /// Provision or correct an inventory row; rows are created out of
    /// band, never by the saga itself.
    pub fn upsert_inventory(&mut self, inventory: &Inventory)
        requires
            old(self).wf(),
            inventory.wf(),
        ensures
            final(self).wf(),
            final(self).store.stock() == old(self).store.stock().insert(
                inventory.product_id@,
                inventory@,
            ),
            final(self).log == old(self).log,
    {
        self.store.upsert(inventory);
    }

    /// Process one inbound trigger as an atomic unit: apply the
    /// operation to the product's aggregate, record the idempotency key,
    /// keep both, and return the outcome event for publication.
    pub fn handle_trigger(&mut self, trigger: &SagaTrigger, now: i64) -> (outcome: Option<
        InventoryEvent,
    >)
        requires
            old(self).wf(),
        ensures
            final(self).wf(),
            ({
                let m = spec_process(
                    stock_lookup(old(self).store.stock(), trigger@.product_id()),
                    old(self).log@,
                    trigger@,
                    now,
                );
                &&& final(self).log@ == m.log
                &&& final(self).store.stock() == (match m.inventory {
                    Some(mi) => old(self).store.stock().insert(trigger@.product_id(), mi),
                    None => old(self).store.stock(),
                })
                &&& opt_event_view(outcome) == m.outcome
            }),
    {
        let product_id = ProductId(trigger.product_id().clone());
        let found = self.store.get(&product_id);
        let step = process_trigger(found, &mut self.log, trigger, now);
        match step.inventory {
            Some(inv) => {
                self.store.upsert(&inv);
                step.outcome
            },
            None => step.outcome,
        }
    }
}

/// Delivering the same trigger twice has the same effect on the
/// aggregate and the log as delivering it once; an order-created trigger
/// is answered both times with a reserved or a failed outcome; and once
/// the operation is recorded, the second delivery re-emits exactly the
/// first outcome, whatever time it runs at.
pub proof fn lemma_duplicate_delivery_idempotent(
    inventory: Option<InventoryModel>,
    log: Map<(Seq<char>, OperationKind), i64>,
    t: TriggerModel,
    now1: i64,
    now2: i64,
)
    ensures
        ({
            let s1 = spec_process(inventory, log, t, now1);
            let s2 = spec_process(s1.inventory, s1.log, t, now2);
            &&& s2.inventory == s1.inventory
            &&& s2.log == s1.log
            &&& (t is OrderCreated ==> (s1.outcome matches Some(o) && (o is Reserved
                || o is Failed)))
            &&& (t is OrderCreated ==> (s2.outcome matches Some(o) && (o is Reserved
                || o is Failed)))
            &&& s1.log.contains_key((t.order_id(), t.kind())) ==> s2.outcome == s1.outcome
        }),
{
}

/// The stored stock after one saga step: the step's aggregate written
/// back under the trigger's product key.
pub open spec fn stock_after(
    stock: Map<Seq<char>, InventoryModel>,
    t: TriggerModel,
    step: SagaStepModel,
) -> Map<Seq<char>, InventoryModel> {
    match step.inventory {
        Some(m) => stock.insert(t.product_id(), m),
        None => stock,
    }
}

/// Redelivery safety at the storage level, which is exactly what
/// `SagaCoordinator::handle_trigger` ensures per step: handling the same
/// trigger a second time leaves the stored stock and the log exactly as
/// the first handling left them, and once the first handling recorded
/// its operation the second publishes the same outcome payload.
pub proof fn lemma_redelivery_converges(
    stock: Map<Seq<char>, InventoryModel>,
    log: Map<(Seq<char>, OperationKind), i64>,
    t: TriggerModel,
    now1: i64,
    now2: i64,
)
    ensures
        ({
            let s1 = spec_process(stock_lookup(stock, t.product_id()), log, t, now1);
            let stock1 = stock_after(stock, t, s1);
            let s2 = spec_process(stock_lookup(stock1, t.product_id()), s1.log, t, now2);
            &&& stock_after(stock1, t, s2) == stock1
            &&& s2.log == s1.log
            &&& s1.log.contains_key((t.order_id(), t.kind())) ==> s2.outcome == s1.outcome
        }),
{
    let s1 = spec_process(stock_lookup(stock, t.product_id()), log, t, now1);
    let stock1 = stock_after(stock, t, s1);
    assert(stock_lookup(stock1, t.product_id()) == s1.inventory);
    lemma_duplicate_delivery_idempotent(
        stock_lookup(stock, t.product_id()),
        log,
        t,
        now1,
        now2,
    );
    let s2 = spec_process(stock_lookup(stock1, t.product_id()), s1.log, t, now2);
    match s2.inventory {
        Some(m) => {
            assert(stock1.insert(t.product_id(), m) =~= stock1);
        },
        None => (),
    }
}

} // verus!
