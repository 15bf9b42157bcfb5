//! Storage row shapes and their conversions to domain values.
//!
//! The SQL that reads and writes the rows lives outside the library;
//! what it hands back is a plain record, and these functions turn a
//! record into the domain value it stands for. Timestamps are
//! milliseconds since the Unix epoch.

use vstd::prelude::*;
use crate::ids::{CustomerId, OrderId, PaymentId, ProductId};
use crate::inventory::Inventory;
use crate::order::{is_status_name, status_of_name, Order, OrderStatus};
use crate::payment::{Payment, PaymentStatus, PaymentStatusModel};

verus! {

/// A row of the inventories table.
#[derive(Debug, PartialEq, Eq)]
pub struct InventoryRecord {
    pub id: String,
    pub available_quantity: u32,
    pub reserved_quantity: u32,
    pub created_at: i64,
    pub updated_at: i64,
}

impl InventoryRecord {
    /// The aggregate the row stands for.
    pub fn into_inventory(self) -> (r: Inventory)
        ensures
            r.product_id@ == self.id@,
            r.available_quantity == self.available_quantity,
            r.reserved_quantity == self.reserved_quantity,
    {
        Inventory::new(ProductId(self.id), self.available_quantity, self.reserved_quantity)
    }
}

/// A row of the orders table. Product lines live in their own table.
#[derive(Debug, PartialEq, Eq)]
pub struct OrderRecord {
    pub id: String,
    pub customer_id: String,
    pub status: String,
    pub total_amount: i64,
    pub created_at: i64,
    pub updated_at: i64,
}

impl OrderRecord {
    /// Whether the row's status column names a status; a row that fails
    /// this is corrupt.
    pub fn has_valid_status(&self) -> (r: bool)
        ensures
            r == is_status_name(self.status@),
    {
        proof {
            reveal_strlit("PendingPayment");
            reveal_strlit("PaymentFailed");
            reveal_strlit("Paid");
            reveal_strlit("Shipped");
            reveal_strlit("Delivered");
            reveal_strlit("Cancelled");
        }
        self.status == "PendingPayment".to_owned() || self.status == "PaymentFailed".to_owned()
            || self.status == "Paid".to_owned() || self.status == "Shipped".to_owned()
            || self.status == "Delivered".to_owned() || self.status == "Cancelled".to_owned()
    }

    /// The order the row stands for, without its product lines.
    pub fn into_order(self) -> (r: Order)
        requires
            is_status_name(self.status@),
        ensures
            r.id@ == self.id@,
            r.customer_id@ == self.customer_id@,
            r.status@ == status_of_name(self.status@),
            r.products@.len() == 0,
    {
        Order {
            id: OrderId(self.id),
            customer_id: CustomerId(self.customer_id),
            status: OrderStatus::from(self.status),
            products: Vec::new(),
        }
    }
}

/// A row of the order products table.
#[derive(Debug, PartialEq, Eq)]
pub struct OrderProductRecord {
    pub id: String,
    pub order_id: String,
    pub product_id: String,
    pub quntity: i32,
    pub unit_price: i64,
}

/// A row of the payments table.
#[derive(Debug, PartialEq, Eq)]
pub struct PaymentRecord {
    pub id: String,
    pub order_id: String,
    pub amount: u64,
    pub status: String,
    pub fail_reason: Option<String>,
    pub external_transaction_id: Option<String>,
    pub created_at: i64,
    pub updated_at: i64,
}

impl PaymentRecord {
    /// The payment the row stands for, or nothing when the status column
    /// holds no known tag.
    pub fn into_payment(self) -> (r: Option<Payment>)
        ensures
            match r {
                Some(p) => {
                    &&& p.id@ == self.id@
                    &&& p.order_id == self.order_id
                    &&& p.amount == self.amount
                    &&& p.external_transaction_id == self.external_transaction_id
                    &&& p.created_at == self.created_at
                    &&& p.updated_at == self.updated_at
                    &&& crate::payment::status_tag(p.status@) == self.status@
                    &&& (p.status@ matches PaymentStatusModel::Failed(reason) ==> (
                    match self.fail_reason {
                        Some(given) => reason == given@,
                        None => reason == "Unknown error"@,
                    }))
                },
                None => self.status@ != "pending"@ && self.status@ != "completed"@ && self.status@
                    != "failed"@ && self.status@ != "refunded"@,
            },
    {
        let status = match PaymentStatus::from_parts(&self.status, self.fail_reason) {
            Some(status) => status,
            None => {
                return None;
            },
        };
        proof {
            reveal_strlit("pending");
            reveal_strlit("completed");
            reveal_strlit("failed");
            reveal_strlit("refunded");
        }
        Some(
            Payment {
                id: PaymentId(self.id),
                order_id: self.order_id,
                amount: self.amount,
                status,
                external_transaction_id: self.external_transaction_id,
                created_at: self.created_at,
                updated_at: self.updated_at,
            },
        )
    }
}

} // verus!
