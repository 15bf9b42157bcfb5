//! The order aggregate of the order service: a customer's order, its
//! product lines and its status.

use vstd::prelude::*;
use crate::ids::{CustomerId, OrderId, ProductId};

verus! {

/// Mathematical view of an order status.
pub enum OrderStatusModel {
    PendingPayment,
    PaymentFailed(Seq<char>),
    Paid,
    Shipped { tracking_id: Seq<char> },
    Delivered,
    Cancelled,
}

/// Status of an order's lifecycle.
#[derive(Debug, PartialEq, Eq, Hash)]
pub enum OrderStatus {
    PendingPayment,
    PaymentFailed(String),
    Paid,
    Shipped { tracking_id: String },
    Delivered,
    Cancelled,
}

impl View for OrderStatus {
    type V = OrderStatusModel;

    open spec fn view(&self) -> OrderStatusModel {
        match self {
            OrderStatus::PendingPayment => OrderStatusModel::PendingPayment,
            OrderStatus::PaymentFailed(reason) => OrderStatusModel::PaymentFailed(reason@),
            OrderStatus::Paid => OrderStatusModel::Paid,
            OrderStatus::Shipped { tracking_id } => OrderStatusModel::Shipped {
                tracking_id: tracking_id@,
            },
            OrderStatus::Delivered => OrderStatusModel::Delivered,
            OrderStatus::Cancelled => OrderStatusModel::Cancelled,
        }
    }
}

impl Clone for OrderStatus {
    fn clone(&self) -> (r: Self)
        ensures
            r == *self,
    {
        match self {
            OrderStatus::PendingPayment => OrderStatus::PendingPayment,
            OrderStatus::PaymentFailed(reason) => OrderStatus::PaymentFailed(reason.clone()),
            OrderStatus::Paid => OrderStatus::Paid,
            OrderStatus::Shipped { tracking_id } => OrderStatus::Shipped {
                tracking_id: tracking_id.clone(),
            },
            OrderStatus::Delivered => OrderStatus::Delivered,
            OrderStatus::Cancelled => OrderStatus::Cancelled,
        }
    }
}

/// The stored name of each status.
pub open spec fn status_name(m: OrderStatusModel) -> Seq<char> {
    match m {
        OrderStatusModel::PendingPayment => "PendingPayment"@,
        OrderStatusModel::PaymentFailed(_) => "PaymentFailed"@,
        OrderStatusModel::Paid => "Paid"@,
        OrderStatusModel::Shipped { .. } => "Shipped"@,
        OrderStatusModel::Delivered => "Delivered"@,
        OrderStatusModel::Cancelled => "Cancelled"@,
    }
}

/// Whether a stored string names a status.
pub open spec fn is_status_name(s: Seq<char>) -> bool {
    ||| s == "PendingPayment"@
    ||| s == "PaymentFailed"@
    ||| s == "Paid"@
    ||| s == "Shipped"@
    ||| s == "Delivered"@
    ||| s == "Cancelled"@
}

/// The status a stored name stands for. A failure reason or a tracking
/// id is not part of the stored name, so those come back empty.
pub open spec fn status_of_name(s: Seq<char>) -> OrderStatusModel {
    if s == "PendingPayment"@ {
        OrderStatusModel::PendingPayment
    } else if s == "PaymentFailed"@ {
        OrderStatusModel::PaymentFailed(Seq::empty())
    } else if s == "Paid"@ {
        OrderStatusModel::Paid
    } else if s == "Shipped"@ {
        OrderStatusModel::Shipped { tracking_id: Seq::empty() }
    } else if s == "Delivered"@ {
        OrderStatusModel::Delivered
    } else {
        OrderStatusModel::Cancelled
    }
}

impl OrderStatus {
    /// Parse a stored status name. A string that names no status is a
    /// corrupt row, which the caller rules out.
    pub fn from(status: String) -> (r: Self)
        requires
            is_status_name(status@),
        ensures
            r@ == status_of_name(status@),
    {
        if status == "PendingPayment".to_owned() {
            OrderStatus::PendingPayment
        } else if status == "PaymentFailed".to_owned() {
            OrderStatus::PaymentFailed(String::new())
        } else if status == "Paid".to_owned() {
            OrderStatus::Paid
        } else if status == "Shipped".to_owned() {
            OrderStatus::Shipped { tracking_id: String::new() }
        } else if status == "Delivered".to_owned() {
            OrderStatus::Delivered
        } else {
            OrderStatus::Cancelled
        }
    }

    pub fn as_str(&self) -> (r: &'static str)
        ensures
            r@ == status_name(self@),
    {
        match self {
            OrderStatus::PendingPayment => "PendingPayment",
            OrderStatus::PaymentFailed(_) => "PaymentFailed",
            OrderStatus::Paid => "Paid",
            OrderStatus::Shipped { .. } => "Shipped",
            OrderStatus::Delivered => "Delivered",
            OrderStatus::Cancelled => "Cancelled",
        }
    }

    /// Product lines may only change while payment is pending.
    pub fn can_add_product(&self) -> (r: bool)
        ensures
            r == (self@ is PendingPayment),
    {
        matches!(self, OrderStatus::PendingPayment)
    }

    /// An order can be cancelled until it ships.
    pub fn can_cancel(&self) -> (r: bool)
        ensures
            r == (self@ is PendingPayment || self@ is Paid),
    {
        matches!(self, OrderStatus::PendingPayment | OrderStatus::Paid)
    }
}

/// An event the order service publishes about an order's lifecycle.
/// Timestamps are milliseconds since the Unix epoch.
#[derive(Debug, PartialEq, Eq)]
pub enum OrderEvent {
    OrderCreated { order_id: String, customer_id: String, created_at: i64 },
    OrderPaid { order_id: String, total_amount: u64, paid_at: i64 },
}

impl OrderEvent {
    /// The order the event speaks about.
    pub open spec fn order_id_view(&self) -> Seq<char> {
        match self {
            OrderEvent::OrderCreated { order_id, .. } => order_id@,
            OrderEvent::OrderPaid { order_id, .. } => order_id@,
        }
    }

    /// The key under which the event is published: its order.
    pub fn partition_key(&self) -> (r: String)
        ensures
            r@ == self.order_id_view(),
    {
        match self {
            OrderEvent::OrderCreated { order_id, .. } => order_id.clone(),
            OrderEvent::OrderPaid { order_id, .. } => order_id.clone(),
        }
    }
}

/// Failures of order operations.
#[derive(Debug, PartialEq, Eq)]
pub enum OrderError {
    InvalidStatusTransition { current: String, action: String },
    ValidationError(String),
}

/// Mathematical view of a product line.
pub struct ProductModel {
    pub id: Seq<char>,
    pub name: Seq<char>,
    pub price: u64,
    pub quantity: u32,
}

/// One product line of an order.
#[derive(Debug, PartialEq, Eq, Hash)]
pub struct Product {
    pub id: ProductId,
    pub name: String,
    pub price: u64,
    pub quantity: u32,
}

impl View for Product {
    type V = ProductModel;

    open spec fn view(&self) -> ProductModel {
        ProductModel { id: self.id@, name: self.name@, price: self.price, quantity: self.quantity }
    }
}

impl Clone for Product {
    fn clone(&self) -> (r: Self)
        ensures
            r == *self,
    {
        Product {
            id: self.id.clone(),
            name: self.name.clone(),
            price: self.price,
            quantity: self.quantity,
        }
    }
}

/// A line's contribution to the order total.
pub open spec fn subtotal_of(p: ProductModel) -> int {
    p.price * p.quantity
}

/// The order total: the sum of the lines' subtotals.
pub open spec fn total_of(products: Seq<ProductModel>) -> int
    decreases products.len(),
{
    if products.len() == 0 {
        0
    } else {
        total_of(products.drop_last()) + subtotal_of(products.last())
    }
}

/// Every subtotal is a product of unsigned values, so no total is
/// negative and a prefix never exceeds the whole.
pub proof fn lemma_total_of_take(products: Seq<ProductModel>, i: int)
    requires
        0 <= i <= products.len(),
    ensures
        0 <= total_of(products.take(i)) <= total_of(products),
    decreases products.len(),
{
    if products.len() == 0 {
        assert(products.take(i) == products);
    } else if i == products.len() {
        assert(products.take(i) == products);
        lemma_total_of_take(products.drop_last(), products.len() - 1);
        assert(products.drop_last().take(products.len() - 1) == products.drop_last());
        assert(subtotal_of(products.last()) >= 0) by (nonlinear_arith);
    } else {
        assert(products.take(i) == products.drop_last().take(i));
        lemma_total_of_take(products.drop_last(), i);
        assert(subtotal_of(products.last()) >= 0) by (nonlinear_arith);
    }
}

impl Product {
    /// A line for a brand-new product id.
    pub fn generate(name: &str, price: u64, quantity: u32) -> (r: Self)
        ensures
            r.name@ == name@,
            r.price == price,
            r.quantity == quantity,
            r.id@.len() == 36,
    {
        Self { id: ProductId::generate(), name: name.to_owned(), price, quantity }
    }

    pub fn new(id: ProductId, name: &str, price: u64, quantity: u32) -> (r: Self)
        ensures
            r.id == id,
            r.name@ == name@,
            r.price == price,
            r.quantity == quantity,
    {
        Self { id, name: name.to_owned(), price, quantity }
    }

    pub fn subtotal(&self) -> (r: u64)
        requires
            subtotal_of(self@) <= u64::MAX,
        ensures
            r == subtotal_of(self@),
    {
        self.price * (self.quantity as u64)
    }
}

/// Mathematical view of an order.
#[verifier::ext_equal]
pub struct OrderModel {
    pub id: Seq<char>,
    pub customer_id: Seq<char>,
    pub status: OrderStatusModel,
    pub products: Seq<ProductModel>,
}

/// A customer's order with its product lines.
#[derive(Debug, PartialEq, Eq)]
pub struct Order {
    pub id: OrderId,
    pub customer_id: CustomerId,
    pub status: OrderStatus,
    pub products: Vec<Product>,
}

impl View for Order {
    type V = OrderModel;

    open spec fn view(&self) -> OrderModel {
        OrderModel {
            id: self.id@,
            customer_id: self.customer_id@,
            status: self.status@,
            products: self.products@.map_values(|p: Product| p@),
        }
    }
}

impl Clone for Order {
    fn clone(&self) -> (r: Self)
        ensures
            r.id == self.id,
            r.customer_id == self.customer_id,
            r.status == self.status,
            r.products@ == self.products@,
            r@ == self@,
    {
        let products = self.products.clone();
        proof {
            assert(products@ =~= self.products@);
        }
        Order {
            id: self.id.clone(),
            customer_id: self.customer_id.clone(),
            status: self.status.clone(),
            products,
        }
    }
}

impl Order {
    /// A fresh order: empty, awaiting payment, under a new id.
    pub fn new(customer_id: CustomerId) -> (r: Self)
        ensures
            r.customer_id == customer_id,
            r.status == OrderStatus::PendingPayment,
            r.products@.len() == 0,
            r.id@.len() == 36,
    {
        Self {
            id: OrderId::generate(),
            customer_id,
            products: Vec::new(),
            status: OrderStatus::PendingPayment,
        }
    }

    /// Append a product line; allowed only while payment is pending.
    pub fn add_product(&mut self, product: Product) -> (r: Result<(), OrderError>)
        ensures
            r is Ok <==> old(self).status@ is PendingPayment,
            r is Ok ==> final(self).products@ == old(self).products@.push(product) && final(self).id == old(self).id && final(self).customer_id == old(self).customer_id && final(self).status == old(self).status,
            r matches Err(e) ==> *final(self) == *old(self) && (e
                matches OrderError::InvalidStatusTransition { current, action } && current@
                == status_name(old(self).status@) && action@ == "add_product"@),
    {
        if !self.status.can_add_product() {
            return Err(
                OrderError::InvalidStatusTransition {
                    current: self.status.as_str().to_owned(),
                    action: "add_product".to_owned(),
                },
            );
        }
        self.products.push(product);
        Ok(())
    }

    /// The order's total over all product lines.
    pub fn total_amount(&self) -> (r: u64)
        requires
            total_of(self@.products) <= u64::MAX,
        ensures
            r == total_of(self@.products),
    {
        let ghost all = self@.products;
        let n = self.products.len();
        let mut sum: u64 = 0;
        let mut i: usize = 0;
        while i < n
            invariant
                n == self.products@.len(),
                all == self@.products,
                all.len() == n,
                total_of(all) <= u64::MAX,
                0 <= i <= n,
                sum == total_of(all.take(i as int)),
            decreases n - i,
        {
            let p = &self.products[i];
            proof {
                lemma_total_of_take(all, i as int);
                lemma_total_of_take(all, i as int + 1);
                assert(all.take(i as int + 1).drop_last() == all.take(i as int));
                assert(all.take(i as int + 1).last() == all[i as int]);
                assert(subtotal_of(all[i as int]) >= 0) by (nonlinear_arith);
            }
            sum = sum + p.price * (p.quantity as u64);
            i = i + 1;
        }
        proof {
            assert(all.take(n as int) == all);
        }
        sum
    }

    /// Payment for the order has completed; allowed only once, while
    /// payment is pending.
    pub fn mark_as_paid(&mut self) -> (r: Result<(), OrderError>)
        ensures
            r is Ok <==> old(self).status@ is PendingPayment,
            r is Ok ==> final(self).status == OrderStatus::Paid && final(self).id == old(self).id
                && final(self).customer_id == old(self).customer_id && final(self).products == old(self).products,
            r matches Err(e) ==> *final(self) == *old(self) && (e
                matches OrderError::InvalidStatusTransition { current, action } && current@
                == status_name(old(self).status@) && action@ == "mark_as_paid"@),
    {
        match &self.status {
            OrderStatus::PendingPayment => {
                self.status = OrderStatus::Paid;
            },
            _ => {
                return Err(
                    OrderError::InvalidStatusTransition {
                        current: self.status.as_str().to_owned(),
                        action: "mark_as_paid".to_owned(),
                    },
                );
            },
        }
        Ok(())
    }

    pub fn id(&self) -> (r: &OrderId)
        ensures
            *r == self.id,
    {
        &self.id
    }

    pub fn customer_id(&self) -> (r: &CustomerId)
        ensures
            *r == self.customer_id,
    {
        &self.customer_id
    }

    pub fn status(&self) -> (r: &OrderStatus)
        ensures
            *r == self.status,
    {
        &self.status
    }

    pub fn products(&self) -> (r: &Vec<Product>)
        ensures
            *r == self.products,
    {
        &self.products
    }
}

} // verus!
