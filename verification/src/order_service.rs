//! The order application service and its storage port.

use vstd::prelude::*;
use crate::ids::{CustomerId, OrderId, ProductId};
use crate::order::{Order, OrderError, OrderModel, OrderStatus, Product};

verus! {

/// Failures of order storage.
#[derive(Debug, PartialEq, Eq)]
pub enum OrderRepositoryError {
    NotFound,
    Other(String),
}

/// Storage for orders, keyed by order id.
pub trait OrderRepository: Sized {
    /// The abstract content of the store.
    spec fn orders(&self) -> Map<Seq<char>, OrderModel>;

    /// The implementation's internal validity.
    spec fn wf(&self) -> bool;

    fn find_by_id(&self, id: OrderId) -> (r: Result<Option<Order>, OrderRepositoryError>)
        requires
            self.wf(),
        ensures
            r matches Ok(Some(o)) ==> self.orders().contains_key(id@) && o@ == self.orders()[id@]
                && o.id@ == id@,
            r matches Ok(None) ==> !self.orders().contains_key(id@),
            r matches Err(e) ==> e matches OrderRepositoryError::Other(_),
    ;

    fn save(&mut self, order: &Order) -> (r: Result<(), OrderRepositoryError>)
        requires
            old(self).wf(),
        ensures
            final(self).wf(),
            r is Ok ==> final(self).orders() == old(self).orders().insert(order.id@, order@),
            r matches Err(e) ==> final(self).orders() == old(self).orders() && e
                matches OrderRepositoryError::Other(_),
    ;

    fn find_by_customer_id(&self, customer_id: CustomerId) -> (r: Result<
        Vec<Order>,
        OrderRepositoryError,
    >)
        requires
            self.wf(),
        ensures
            r matches Ok(found) ==> {
                &&& forall|i: int|
                    0 <= i < found@.len() ==> {
                        let m = (#[trigger] found@[i])@;
                        m.customer_id == customer_id@ && self.orders().contains_key(m.id)
                            && self.orders()[m.id] == m
                    }
                &&& forall|k: Seq<char>|
                    self.orders().contains_key(k) && (#[trigger] self.orders()[k]).customer_id
                        == customer_id@ ==> exists|i: int|
                        0 <= i < found@.len() && (#[trigger] found@[i])@.id == k
            },
            r matches Err(e) ==> e matches OrderRepositoryError::Other(_),
    ;
}

/// The map a sequence of orders stands for: order id to order.
pub open spec fn order_map(items: Seq<Order>) -> Map<Seq<char>, OrderModel>
    decreases items.len(),
{
    if items.len() == 0 {
        Map::empty()
    } else {
        order_map(items.drop_last()).insert(items.last().id@, items.last()@)
    }
}

/// A key is in the map exactly when some order carries it.
proof fn lemma_order_map_contains(items: Seq<Order>, k: Seq<char>)
    ensures
        order_map(items).contains_key(k) <==> exists|i: int|
            0 <= i < items.len() && items[i].id@ == k,
    decreases items.len(),
{
    if items.len() > 0 {
        lemma_order_map_contains(items.drop_last(), k);
        if order_map(items).contains_key(k) {
            if items.last().id@ == k {
                assert(items[items.len() - 1].id@ == k);
            } else {
                let i = choose|i: int|
                    0 <= i < items.drop_last().len() && items.drop_last()[i].id@ == k;
                assert(items[i].id@ == k);
            }
        }
        if exists|i: int| 0 <= i < items.len() && items[i].id@ == k {
            let i = choose|i: int| 0 <= i < items.len() && items[i].id@ == k;
            if i < items.len() - 1 {
                assert(items.drop_last()[i].id@ == k);
            }
        }
    }
}

/// Under unique ids, the map sends each order's id to its model.
proof fn lemma_order_map_value(items: Seq<Order>, i: int)
    requires
        0 <= i < items.len(),
        forall|p: int, q: int| 0 <= p < q < items.len() ==> items[p].id@ != items[q].id@,
    ensures
        order_map(items).contains_key(items[i].id@),
        order_map(items)[items[i].id@] == items[i]@,
    decreases items.len(),
{
    if i == items.len() - 1 {
        assert(items[i] == items.last());
    } else {
        lemma_order_map_value(items.drop_last(), i);
        assert(items.drop_last()[i] == items[i]);
        assert(items[i].id@ != items[items.len() - 1].id@);
    }
}

/// Replacing the order at position `i` by one with the same id acts on
/// the map as inserting under that id.
proof fn lemma_order_map_update(items: Seq<Order>, i: int, v: Order)
    requires
        0 <= i < items.len(),
        forall|p: int, q: int| 0 <= p < q < items.len() ==> items[p].id@ != items[q].id@,
        v.id@ == items[i].id@,
    ensures
        order_map(items.update(i, v)) == order_map(items).insert(v.id@, v@),
    decreases items.len(),
{
    let updated = items.update(i, v);
    if i == items.len() - 1 {
        assert(updated.drop_last() == items.drop_last());
        assert(updated.last() == v);
        assert(order_map(items.update(i, v)) =~= order_map(items).insert(v.id@, v@));
    } else {
        lemma_order_map_update(items.drop_last(), i, v);
        assert(updated.drop_last() == items.drop_last().update(i, v));
        assert(updated.last() == items.last());
        assert(items[i].id@ != items[items.len() - 1].id@);
        assert(order_map(items.update(i, v)) =~= order_map(items).insert(v.id@, v@));
    }
}

/// In-memory order storage.
pub struct OrderStore {
    pub items: Vec<Order>,
}

impl OrderStore {
    pub fn new() -> (r: Self)
        ensures
            r.wf(),
            r.orders() == Map::<Seq<char>, OrderModel>::empty(),
    {
        OrderStore { items: Vec::new() }
    }
}

impl OrderRepository for OrderStore {
    open spec fn orders(&self) -> Map<Seq<char>, OrderModel> {
        order_map(self.items@)
    }

    /// Ids are pairwise distinct.
    open spec fn wf(&self) -> bool {
        forall|p: int, q: int|
            0 <= p < q < self.items@.len() ==> self.items@[p].id@ != self.items@[q].id@
    }

    fn find_by_id(&self, id: OrderId) -> (r: Result<Option<Order>, OrderRepositoryError>) {
        let n = self.items.len();
        let mut i: usize = 0;
        while i < n
            invariant
                n == self.items@.len(),
                0 <= i <= n,
                self.wf(),
                forall|j: int| 0 <= j < i ==> self.items@[j].id@ != id@,
            decreases n - i,
        {
            let item = &self.items[i];
            if item.id.0 == id.0 {
                proof {
                    lemma_order_map_value(self.items@, i as int);
                }
                return Ok(Some(item.clone()));
            }
            i = i + 1;
        }
        proof {
            lemma_order_map_contains(self.items@, id@);
        }
        Ok(None)
    }

    fn save(&mut self, order: &Order) -> (r: Result<(), OrderRepositoryError>) {
        let n = self.items.len();
        let mut i: usize = 0;
        while i < n
            invariant
                *self == *old(self),
                n == self.items@.len(),
                0 <= i <= n,
                self.wf(),
                forall|j: int| 0 <= j < i ==> self.items@[j].id@ != order.id@,
            ensures
                *self == *old(self),
                0 <= i <= n,
                i < n ==> self.items@[i as int].id@ == order.id@,
                i == n ==> forall|j: int| 0 <= j < n ==> self.items@[j].id@ != order.id@,
            decreases n - i,
        {
            if self.items[i].id.0 == order.id.0 {
                break;
            }
            i = i + 1;
        }
        if i < n {
            let replacement = order.clone();
            proof {
                lemma_order_map_update(self.items@, i as int, replacement);
            }
            self.items[i] = replacement;
            proof {
                assert(forall|j: int|
                    0 <= j < self.items@.len() ==> self.items@[j].id@ == old(
                        self,
                    ).items@[j].id@);
            }
        } else {
            proof {
                lemma_order_map_contains(self.items@, order.id@);
            }
            self.items.push(order.clone());
            proof {
                assert(self.items@.drop_last() == old(self).items@);
            }
        }
        Ok(())
    }

    fn find_by_customer_id(&self, customer_id: CustomerId) -> (r: Result<
        Vec<Order>,
        OrderRepositoryError,
    >) {
        let n = self.items.len();
        let mut found: Vec<Order> = Vec::new();
        let mut i: usize = 0;
        while i < n
            invariant
                n == self.items@.len(),
                0 <= i <= n,
                self.wf(),
                forall|l: int|
                    0 <= l < found@.len() ==> {
                        let m = (#[trigger] found@[l])@;
                        m.customer_id == customer_id@ && self.orders().contains_key(m.id)
                            && self.orders()[m.id] == m
                    },
                forall|j: int|
                    0 <= j < i && (#[trigger] self.items@[j]).customer_id@ == customer_id@
                        ==> exists|l: int|
                        0 <= l < found@.len() && (#[trigger] found@[l])@.id == self.items@[j].id@,
            decreases n - i,
        {
            let item = &self.items[i];
            if item.customer_id.0 == customer_id.0 {
                let picked = item.clone();
                proof {
                    lemma_order_map_value(self.items@, i as int);
                }
                let ghost prev = found@;
                found.push(picked);
                proof {
                    assert(found@[found@.len() - 1]@.id == self.items@[i as int].id@);
                    assert forall|j: int|
                        0 <= j < i + 1 && (#[trigger] self.items@[j]).customer_id@ == customer_id@
                            implies exists|l: int|
                        0 <= l < found@.len() && (#[trigger] found@[l])@.id
                            == self.items@[j].id@ by {
                        if j < i {
                            let l = choose|l: int|
                                0 <= l < prev.len() && (#[trigger] prev[l])@.id
                                    == self.items@[j].id@;
                            assert(found@[l]@.id == self.items@[j].id@);
                        } else {
                            assert(found@[found@.len() - 1]@.id == self.items@[j].id@);
                        }
                    }
                }
            }
            i = i + 1;
        }
        proof {
            assert forall|k: Seq<char>|
                self.orders().contains_key(k) && (#[trigger] self.orders()[k]).customer_id
                    == customer_id@ implies exists|l: int|
                0 <= l < found@.len() && (#[trigger] found@[l])@.id == k by {
                lemma_order_map_contains(self.items@, k);
                let j = choose|j: int| 0 <= j < self.items@.len() && self.items@[j].id@ == k;
                lemma_order_map_value(self.items@, j);
                assert(self.items@[j].customer_id@ == customer_id@);
            }
        }
        Ok(found)
    }
}

/// Failures of order handling.
#[derive(Debug, PartialEq, Eq)]
pub enum OrderServiceError {
    Domain(OrderError),
    Repository(OrderRepositoryError),
    NotFound,
}

/// The order service over its storage port.
pub struct OrderService<R: OrderRepository> {
    pub repository: R,
}

impl<R: OrderRepository> OrderService<R> {
    pub open spec fn wf(&self) -> bool {
        self.repository.wf()
    }

    /// The stored orders, by order id.
    pub open spec fn orders(&self) -> Map<Seq<char>, OrderModel> {
        self.repository.orders()
    }

    pub fn new(repository: R) -> (r: Self)
        ensures
            r.repository == repository,
    {
        Self { repository }
    }

    /// Open an empty order for the customer and store it.
    pub fn create_order(&mut self, customer_id: CustomerId) -> (r: Result<
        Order,
        OrderServiceError,
    >)
        requires
            old(self).wf(),
        ensures
            final(self).wf(),
            r matches Ok(o) ==> o.customer_id@ == customer_id@ && o.status
                == OrderStatus::PendingPayment && o.products@.len() == 0 && final(self).orders()
                == old(self).orders().insert(o.id@, o@),
            r matches Err(e) ==> e matches OrderServiceError::Repository(_) && final(self).orders()
                == old(self).orders(),
    {
        let order = Order::new(customer_id);
        match self.repository.save(&order) {
            Ok(()) => Ok(order),
            Err(e) => Err(OrderServiceError::Repository(e)),
        }
    }

    /// Open an order holding one product line and store it.
    pub fn create_order_with_product(
        &mut self,
        customer_id: CustomerId,
        product_id: ProductId,
        quantity: u32,
        unit_price: u64,
    ) -> (r: Result<Order, OrderServiceError>)
        requires
            old(self).wf(),
        ensures
            final(self).wf(),
            r matches Ok(o) ==> o.customer_id@ == customer_id@ && o.status
                == OrderStatus::PendingPayment && o.products@.len() == 1 && o.products@[0].id@
                == product_id@ && o.products@[0].quantity == quantity && o.products@[0].price
                == unit_price && final(self).orders() == old(self).orders().insert(o.id@, o@),
            r matches Err(e) ==> e matches OrderServiceError::Repository(_) && final(self).orders()
                == old(self).orders(),
    {
        let mut order = Order::new(customer_id);
        let product = Product::new(product_id, "Product", unit_price, quantity);
        match order.add_product(product) {
            Ok(()) => (),
            Err(_) => (),
        }
        match self.repository.save(&order) {
            Ok(()) => Ok(order),
            Err(e) => Err(OrderServiceError::Repository(e)),
        }
    }

    /// Append a product line to a stored order.
    pub fn add_product_to_order(&mut self, order_id: OrderId, product: Product) -> (r: Result<
        (),
        OrderServiceError,
    >)
        requires
            old(self).wf(),
        ensures
            final(self).wf(),
            r is Ok ==> old(self).orders().contains_key(order_id@) && old(
                self,
            ).orders()[order_id@].status is PendingPayment && final(self).orders() == old(
                self,
            ).orders().insert(
                order_id@,
                (OrderModel {
                    products: old(self).orders()[order_id@].products.push(product@),
                    ..old(self).orders()[order_id@]
                }),
            ),
            r matches Err(OrderServiceError::NotFound) ==> !old(self).orders().contains_key(
                order_id@,
            ) && final(self).orders() == old(self).orders(),
            r matches Err(OrderServiceError::Domain(e)) ==> old(self).orders().contains_key(
                order_id@,
            ) && !(old(self).orders()[order_id@].status is PendingPayment) && (e
                matches OrderError::InvalidStatusTransition { .. }) && final(self).orders() == old(
                self,
            ).orders(),
            r matches Err(OrderServiceError::Repository(_)) ==> final(self).orders() == old(
                self,
            ).orders(),
    {
        let found = match self.repository.find_by_id(order_id) {
            Ok(found) => found,
            Err(e) => {
                return Err(OrderServiceError::Repository(e));
            },
        };
        let mut order = match found {
            Some(order) => order,
            None => {
                return Err(OrderServiceError::NotFound);
            },
        };
        let ghost before = order@;
        match order.add_product(product) {
            Ok(()) => (),
            Err(e) => {
                return Err(OrderServiceError::Domain(e));
            },
        }
        proof {
            assert(order@.products =~= before.products.push(product@));
            assert(order@ =~= (OrderModel { products: before.products.push(product@), ..before }));
        }
        match self.repository.save(&order) {
            Ok(()) => Ok(()),
            Err(e) => Err(OrderServiceError::Repository(e)),
        }
    }

    /// Load a stored order, if it exists.
    pub fn get_order(&self, order_id: OrderId) -> (r: Result<Option<Order>, OrderServiceError>)
        requires
            self.wf(),
        ensures
            r matches Ok(Some(o)) ==> self.orders().contains_key(order_id@) && o@
                == self.orders()[order_id@],
            r matches Ok(None) ==> !self.orders().contains_key(order_id@),
            r matches Err(e) ==> e matches OrderServiceError::Repository(_),
    {
        match self.repository.find_by_id(order_id) {
            Ok(found) => Ok(found),
            Err(e) => Err(OrderServiceError::Repository(e)),
        }
    }
}

} // verus!
