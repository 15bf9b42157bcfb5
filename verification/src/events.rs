//! The business events the inventory service consumes and emits.
//!
//! Inbound, two topics: order events (created, cancelled) and payment
//! events (completed, failed). Each inbound event classifies into one
//! `SagaTrigger`, the closed union the saga coordinator works on.
//! Outbound, one topic: `InventoryEvent`, keyed by order so consumers
//! see one order's outcomes in order.
//!
//! Timestamps are milliseconds since the Unix epoch.

use vstd::prelude::*;
use crate::idempotency::OperationKind;

verus! {

/// Mathematical view of a saga trigger.
pub enum TriggerModel {
    OrderCreated { order_id: Seq<char>, product_id: Seq<char>, quantity: u32, occurred_at: i64 },
    OrderCancelled { order_id: Seq<char>, product_id: Seq<char>, quantity: u32 },
    PaymentCompleted { order_id: Seq<char>, product_id: Seq<char>, quantity: u32 },
    PaymentFailed { order_id: Seq<char>, product_id: Seq<char>, quantity: u32, reason: Seq<char> },
}

impl TriggerModel {
    pub open spec fn order_id(self) -> Seq<char> {
        match self {
            TriggerModel::OrderCreated { order_id, .. } => order_id,
            TriggerModel::OrderCancelled { order_id, .. } => order_id,
            TriggerModel::PaymentCompleted { order_id, .. } => order_id,
            TriggerModel::PaymentFailed { order_id, .. } => order_id,
        }
    }

    pub open spec fn product_id(self) -> Seq<char> {
        match self {
            TriggerModel::OrderCreated { product_id, .. } => product_id,
            TriggerModel::OrderCancelled { product_id, .. } => product_id,
            TriggerModel::PaymentCompleted { product_id, .. } => product_id,
            TriggerModel::PaymentFailed { product_id, .. } => product_id,
        }
    }

    pub open spec fn quantity(self) -> u32 {
        match self {
            TriggerModel::OrderCreated { quantity, .. } => quantity,
            TriggerModel::OrderCancelled { quantity, .. } => quantity,
            TriggerModel::PaymentCompleted { quantity, .. } => quantity,
            TriggerModel::PaymentFailed { quantity, .. } => quantity,
        }
    }

    /// The inventory operation a trigger asks for. A failed payment
    /// compensates: it releases what the order had reserved.
    pub open spec fn kind(self) -> OperationKind {
        match self {
            TriggerModel::OrderCreated { .. } => OperationKind::Reserve,
            TriggerModel::OrderCancelled { .. } => OperationKind::Release,
            TriggerModel::PaymentCompleted { .. } => OperationKind::Confirm,
            TriggerModel::PaymentFailed { .. } => OperationKind::Release,
        }
    }
}

/// An inbound business event, classified by topic and discriminant into
/// the closed set of saga triggers.
pub enum SagaTrigger {
    OrderCreated { order_id: String, product_id: String, quantity: u32, occurred_at: i64 },
    OrderCancelled { order_id: String, product_id: String, quantity: u32 },
    PaymentCompleted { order_id: String, product_id: String, quantity: u32 },
    PaymentFailed { order_id: String, product_id: String, quantity: u32, reason: String },
}

impl View for SagaTrigger {
    type V = TriggerModel;

    open spec fn view(&self) -> TriggerModel {
        match self {
            SagaTrigger::OrderCreated { order_id, product_id, quantity, occurred_at } =>
                TriggerModel::OrderCreated {
                    order_id: order_id@,
                    product_id: product_id@,
                    quantity: *quantity,
                    occurred_at: *occurred_at,
                },
            SagaTrigger::OrderCancelled { order_id, product_id, quantity } =>
                TriggerModel::OrderCancelled {
                    order_id: order_id@,
                    product_id: product_id@,
                    quantity: *quantity,
                },
            SagaTrigger::PaymentCompleted { order_id, product_id, quantity } =>
                TriggerModel::PaymentCompleted {
                    order_id: order_id@,
                    product_id: product_id@,
                    quantity: *quantity,
                },
            SagaTrigger::PaymentFailed { order_id, product_id, quantity, reason } =>
                TriggerModel::PaymentFailed {
                    order_id: order_id@,
                    product_id: product_id@,
                    quantity: *quantity,
                    reason: reason@,
                },
        }
    }
}

impl SagaTrigger {
    pub fn order_id(&self) -> (r: &String)
        ensures
            r@ == self@.order_id(),
    {
        match self {
            SagaTrigger::OrderCreated { order_id, .. } => order_id,
            SagaTrigger::OrderCancelled { order_id, .. } => order_id,
            SagaTrigger::PaymentCompleted { order_id, .. } => order_id,
            SagaTrigger::PaymentFailed { order_id, .. } => order_id,
        }
    }

    pub fn product_id(&self) -> (r: &String)
        ensures
            r@ == self@.product_id(),
    {
        match self {
            SagaTrigger::OrderCreated { product_id, .. } => product_id,
            SagaTrigger::OrderCancelled { product_id, .. } => product_id,
            SagaTrigger::PaymentCompleted { product_id, .. } => product_id,
            SagaTrigger::PaymentFailed { product_id, .. } => product_id,
        }
    }

    pub fn quantity(&self) -> (r: u32)
        ensures
            r == self@.quantity(),
    {
        match self {
            SagaTrigger::OrderCreated { quantity, .. } => *quantity,
            SagaTrigger::OrderCancelled { quantity, .. } => *quantity,
            SagaTrigger::PaymentCompleted { quantity, .. } => *quantity,
            SagaTrigger::PaymentFailed { quantity, .. } => *quantity,
        }
    }

    pub fn operation_kind(&self) -> (r: OperationKind)
        ensures
            r == self@.kind(),
    {
        match self {
            SagaTrigger::OrderCreated { .. } => OperationKind::Reserve,
            SagaTrigger::OrderCancelled { .. } => OperationKind::Release,
            SagaTrigger::PaymentCompleted { .. } => OperationKind::Confirm,
            SagaTrigger::PaymentFailed { .. } => OperationKind::Release,
        }
    }
}

/// An event consumed from the order topic.
#[derive(Debug)]
pub enum OrderEvent {
    OrderCreated {
        order_id: String,
        customer_id: String,
        product_id: String,
        quantity: u32,
        created_at: i64,
    },
    OrderCancelled { order_id: String, product_id: String, quantity: u32 },
}

/// An event consumed from the payment topic.
#[derive(Debug)]
pub enum PaymentEvent {
    PaymentCompleted {
        order_id: String,
        payment_id: String,
        amount: u64,
        product_id: String,
        quantity: u32,
    },
    PaymentFailed { order_id: String, reason: String, product_id: String, quantity: u32 },
}

/// Classify an order event into its saga trigger.
pub fn trigger_from_order_event(event: OrderEvent) -> (t: SagaTrigger)
    ensures
        match event {
            OrderEvent::OrderCreated { order_id, product_id, quantity, created_at, .. } => t@
                == (TriggerModel::OrderCreated {
                order_id: order_id@,
                product_id: product_id@,
                quantity,
                occurred_at: created_at,
            }),
            OrderEvent::OrderCancelled { order_id, product_id, quantity } => t@
                == (TriggerModel::OrderCancelled {
                order_id: order_id@,
                product_id: product_id@,
                quantity,
            }),
        },
{
    match event {
        OrderEvent::OrderCreated { order_id, product_id, quantity, created_at, .. } =>
            SagaTrigger::OrderCreated { order_id, product_id, quantity, occurred_at: created_at },
        OrderEvent::OrderCancelled { order_id, product_id, quantity } =>
            SagaTrigger::OrderCancelled { order_id, product_id, quantity },
    }
}

/// Classify a payment event into its saga trigger.
pub fn trigger_from_payment_event(event: PaymentEvent) -> (t: SagaTrigger)
    ensures
        match event {
            PaymentEvent::PaymentCompleted { order_id, product_id, quantity, .. } => t@
                == (TriggerModel::PaymentCompleted {
                order_id: order_id@,
                product_id: product_id@,
                quantity,
            }),
            PaymentEvent::PaymentFailed { order_id, reason, product_id, quantity } => t@
                == (TriggerModel::PaymentFailed {
                order_id: order_id@,
                product_id: product_id@,
                quantity,
                reason: reason@,
            }),
        },
{
    match event {
        PaymentEvent::PaymentCompleted { order_id, product_id, quantity, .. } =>
            SagaTrigger::PaymentCompleted { order_id, product_id, quantity },
        PaymentEvent::PaymentFailed { order_id, reason, product_id, quantity } =>
            SagaTrigger::PaymentFailed { order_id, product_id, quantity, reason },
    }
}

/// Mathematical view of an outbound inventory event.
pub enum InventoryEventModel {
    Reserved { order_id: Seq<char>, product_id: Seq<char>, quantity: u32, reserved_at: i64 },
    Failed { order_id: Seq<char>, product_id: Seq<char>, reason: Seq<char>, failed_at: i64 },
    Released { order_id: Seq<char>, product_id: Seq<char>, quantity: u32, released_at: i64 },
}

impl InventoryEventModel {
    pub open spec fn order_id(self) -> Seq<char> {
        match self {
            InventoryEventModel::Reserved { order_id, .. } => order_id,
            InventoryEventModel::Failed { order_id, .. } => order_id,
            InventoryEventModel::Released { order_id, .. } => order_id,
        }
    }
}

/// An outcome event published to the inventory topic.
#[derive(Debug, PartialEq, Eq)]
pub enum InventoryEvent {
    InventoryReserved { order_id: String, product_id: String, quantity: u32, reserved_at: i64 },
    InventoryFailed { order_id: String, product_id: String, reason: String, failed_at: i64 },
    InventoryReleased { order_id: String, product_id: String, quantity: u32, released_at: i64 },
}

impl View for InventoryEvent {
    type V = InventoryEventModel;

    open spec fn view(&self) -> InventoryEventModel {
        match self {
            InventoryEvent::InventoryReserved { order_id, product_id, quantity, reserved_at } =>
                InventoryEventModel::Reserved {
                    order_id: order_id@,
                    product_id: product_id@,
                    quantity: *quantity,
                    reserved_at: *reserved_at,
                },
            InventoryEvent::InventoryFailed { order_id, product_id, reason, failed_at } =>
                InventoryEventModel::Failed {
                    order_id: order_id@,
                    product_id: product_id@,
                    reason: reason@,
                    failed_at: *failed_at,
                },
            InventoryEvent::InventoryReleased { order_id, product_id, quantity, released_at } =>
                InventoryEventModel::Released {
                    order_id: order_id@,
                    product_id: product_id@,
                    quantity: *quantity,
                    released_at: *released_at,
                },
        }
    }
}

impl InventoryEvent {
    /// The key under which the event is published: the order it belongs
    /// to, so one order's outcomes land on one partition.
    pub fn partition_key(&self) -> (r: String)
        ensures
            r@ == self@.order_id(),
    {
        match self {
            InventoryEvent::InventoryReserved { order_id, .. } => order_id.clone(),
            InventoryEvent::InventoryFailed { order_id, .. } => order_id.clone(),
            InventoryEvent::InventoryReleased { order_id, .. } => order_id.clone(),
        }
    }
}

} // verus!
