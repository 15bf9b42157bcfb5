//! Request and response shapes of the order service's HTTP boundary.
//!
//! The boundary itself (routing, serialization) lives outside the
//! library; these are the plain values it hands in and out, and the
//! conversion from a stored order to its response.

use vstd::prelude::*;
use crate::order::{status_name, total_of, Order};

verus! {

/// Body of a request to open an order with one product.
#[derive(Debug, PartialEq, Eq)]
pub struct CreateOrderRequest {
    pub customer_id: String,
    pub product_id: String,
    pub quantity: u32,
}

/// Body of a request to add a product line to an order.
#[derive(Debug, PartialEq, Eq)]
pub struct OrderProductRequest {
    pub product_id: String,
    pub quantity: u32,
    pub unit_price: u64,
}

/// One product line of an order response.
#[derive(Debug, PartialEq, Eq)]
pub struct OrderProductResponse {
    pub product_id: String,
    pub quantity: u32,
    pub unit_price: u64,
}

/// An order as the boundary reports it.
#[derive(Debug, PartialEq, Eq)]
pub struct OrderResponse {
    pub id: String,
    pub customer_id: String,
    pub status: String,
    pub total_amount: u64,
    pub items: Vec<OrderProductResponse>,
}

impl OrderResponse {
    /// Report a stored order: its ids, its status name, its total and
    /// one line per product.
    pub fn from(order: &Order) -> (r: OrderResponse)
        requires
            total_of(order@.products) <= u64::MAX,
        ensures
            r.id@ == order.id@,
            r.customer_id@ == order.customer_id@,
            r.status@ == status_name(order.status@),
            r.total_amount == total_of(order@.products),
            r.items@.len() == order.products@.len(),
            forall|i: int|
                0 <= i < order.products@.len() ==> {
                    let item = #[trigger] r.items@[i];
                    item.product_id@ == order.products@[i].id@ && item.quantity
                        == order.products@[i].quantity && item.unit_price
                        == order.products@[i].price
                },
    {
        let n = order.products.len();
        let mut items: Vec<OrderProductResponse> = Vec::new();
        let mut i: usize = 0;
        while i < n
            invariant
                n == order.products@.len(),
                0 <= i <= n,
                items@.len() == i,
                forall|j: int|
                    0 <= j < i ==> {
                        let item = #[trigger] items@[j];
                        item.product_id@ == order.products@[j].id@ && item.quantity
                            == order.products@[j].quantity && item.unit_price
                            == order.products@[j].price
                    },
            decreases n - i,
        {
            let p = &order.products[i];
            items.push(
                OrderProductResponse {
                    product_id: p.id.to_string(),
                    quantity: p.quantity,
                    unit_price: p.price,
                },
            );
            i = i + 1;
        }
        OrderResponse {
            id: order.id.to_string(),
            customer_id: order.customer_id.to_string(),
            status: order.status.as_str().to_owned(),
            total_amount: order.total_amount(),
            items,
        }
    }
}

} // verus!
