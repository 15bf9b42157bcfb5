//! The payment application service and its two ports: storage for
//! payments and the external payment gateway.
//!
//! The service persists the payment before and after the gateway call
//! and hands the resulting event back to its caller for publication, so
//! a lost publication can be retried without touching the payment again.

use vstd::prelude::*;
use crate::clock::now_millis;
use crate::ids::PaymentId;
use crate::payment::{Payment, PaymentError, PaymentEvent, PaymentModel, PaymentStatus, PaymentStatusModel};

verus! {

/// Failures of payment storage.
#[derive(Debug, PartialEq, Eq)]
pub enum PaymentRepositoryError {
    Infrastructure(String),
    NotFound,
}

/// Storage for payments, keyed by payment id.
pub trait PaymentRepository: Sized {
    /// The abstract content of the store.
    spec fn payments(&self) -> Map<Seq<char>, PaymentModel>;

    /// The implementation's internal validity.
    spec fn wf(&self) -> bool;

    fn save(&mut self, payment: &Payment) -> (r: Result<(), PaymentRepositoryError>)
        requires
            old(self).wf(),
        ensures
            final(self).wf(),
            r is Ok ==> final(self).payments() == old(self).payments().insert(
                payment.id@,
                payment@,
            ),
            r matches Err(e) ==> final(self).payments() == old(self).payments() && e
                matches PaymentRepositoryError::Infrastructure(_),
    ;

    fn find_by_id(&self, id: &PaymentId) -> (r: Result<Option<Payment>, PaymentRepositoryError>)
        requires
            self.wf(),
        ensures
            r matches Ok(Some(p)) ==> self.payments().contains_key(id@) && p@
                == self.payments()[id@] && p.id@ == id@,
            r matches Ok(None) ==> !self.payments().contains_key(id@),
            r matches Err(e) ==> e matches PaymentRepositoryError::Infrastructure(_),
    ;
}

/// The map a sequence of payments stands for: payment id to payment.
pub open spec fn payment_map(items: Seq<Payment>) -> Map<Seq<char>, PaymentModel>
    decreases items.len(),
{
    if items.len() == 0 {
        Map::empty()
    } else {
        payment_map(items.drop_last()).insert(items.last().id@, items.last()@)
    }
}

/// A key is in the map exactly when some payment carries it.
proof fn lemma_payment_map_contains(items: Seq<Payment>, k: Seq<char>)
    ensures
        payment_map(items).contains_key(k) <==> exists|i: int|
            0 <= i < items.len() && items[i].id@ == k,
    decreases items.len(),
{
    if items.len() > 0 {
        lemma_payment_map_contains(items.drop_last(), k);
        if payment_map(items).contains_key(k) {
            if items.last().id@ == k {
                assert(items[items.len() - 1].id@ == k);
            } else {
                let i = choose|i: int|
                    0 <= i < items.drop_last().len() && items.drop_last()[i].id@ == k;
                assert(items[i].id@ == k);
            }
        }
        if exists|i: int| 0 <= i < items.len() && items[i].id@ == k {
            let i = choose|i: int| 0 <= i < items.len() && items[i].id@ == k;
            if i < items.len() - 1 {
                assert(items.drop_last()[i].id@ == k);
            }
        }
    }
}

/// Under unique ids, the map sends each payment's id to its model.
proof fn lemma_payment_map_value(items: Seq<Payment>, i: int)
    requires
        0 <= i < items.len(),
        forall|p: int, q: int| 0 <= p < q < items.len() ==> items[p].id@ != items[q].id@,
    ensures
        payment_map(items).contains_key(items[i].id@),
        payment_map(items)[items[i].id@] == items[i]@,
    decreases items.len(),
{
    if i == items.len() - 1 {
        assert(items[i] == items.last());
    } else {
        lemma_payment_map_value(items.drop_last(), i);
        assert(items.drop_last()[i] == items[i]);
        assert(items[i].id@ != items[items.len() - 1].id@);
    }
}

/// Replacing the payment at position `i` by one with the same id acts on
/// the map as inserting under that id.
proof fn lemma_payment_map_update(items: Seq<Payment>, i: int, v: Payment)
    requires
        0 <= i < items.len(),
        forall|p: int, q: int| 0 <= p < q < items.len() ==> items[p].id@ != items[q].id@,
        v.id@ == items[i].id@,
    ensures
        payment_map(items.update(i, v)) == payment_map(items).insert(v.id@, v@),
    decreases items.len(),
{
    let updated = items.update(i, v);
    if i == items.len() - 1 {
        assert(updated.drop_last() == items.drop_last());
        assert(updated.last() == v);
        assert(payment_map(items.update(i, v)) =~= payment_map(items).insert(v.id@, v@));
    } else {
        lemma_payment_map_update(items.drop_last(), i, v);
        assert(updated.drop_last() == items.drop_last().update(i, v));
        assert(updated.last() == items.last());
        assert(items[i].id@ != items[items.len() - 1].id@);
        assert(payment_map(items.update(i, v)) =~= payment_map(items).insert(v.id@, v@));
    }
}

/// In-memory payment storage.
pub struct PaymentStore {
    pub items: Vec<Payment>,
}

impl PaymentStore {
    pub fn new() -> (r: Self)
        ensures
            r.wf(),
            r.payments() == Map::<Seq<char>, PaymentModel>::empty(),
    {
        PaymentStore { items: Vec::new() }
    }
}

impl PaymentRepository for PaymentStore {
    open spec fn payments(&self) -> Map<Seq<char>, PaymentModel> {
        payment_map(self.items@)
    }

    /// Ids are pairwise distinct.
    open spec fn wf(&self) -> bool {
        forall|p: int, q: int|
            0 <= p < q < self.items@.len() ==> self.items@[p].id@ != self.items@[q].id@
    }

    fn save(&mut self, payment: &Payment) -> (r: Result<(), PaymentRepositoryError>) {
        let n = self.items.len();
        let mut i: usize = 0;
        while i < n
            invariant
                *self == *old(self),
                n == self.items@.len(),
                0 <= i <= n,
                self.wf(),
                forall|j: int| 0 <= j < i ==> self.items@[j].id@ != payment.id@,
            ensures
                *self == *old(self),
                0 <= i <= n,
                i < n ==> self.items@[i as int].id@ == payment.id@,
                i == n ==> forall|j: int| 0 <= j < n ==> self.items@[j].id@ != payment.id@,
            decreases n - i,
        {
            if self.items[i].id.0 == payment.id.0 {
                break;
            }
            i = i + 1;
        }
        if i < n {
            let replacement = payment.clone();
            proof {
                lemma_payment_map_update(self.items@, i as int, replacement);
            }
            self.items[i] = replacement;
            proof {
                assert(forall|j: int|
                    0 <= j < self.items@.len() ==> self.items@[j].id@ == old(self).items@[j].id@);
            }
        } else {
            proof {
                lemma_payment_map_contains(self.items@, payment.id@);
            }
            self.items.push(payment.clone());
            proof {
                assert(self.items@.drop_last() == old(self).items@);
            }
        }
        Ok(())
    }

    fn find_by_id(&self, id: &PaymentId) -> (r: Result<Option<Payment>, PaymentRepositoryError>) {
        let n = self.items.len();
        let mut i: usize = 0;
        while i < n
            invariant
                n == self.items@.len(),
                0 <= i <= n,
                self.wf(),
                forall|j: int| 0 <= j < i ==> self.items@[j].id@ != id@,
            decreases n - i,
        {
            let item = &self.items[i];
            if item.id.0 == id.0 {
                proof {
                    lemma_payment_map_value(self.items@, i as int);
                }
                return Ok(Some(item.clone()));
            }
            i = i + 1;
        }
        proof {
            lemma_payment_map_contains(self.items@, id@);
        }
        Ok(None)
    }
}

/// What the payment gateway says about a charge.
#[derive(Debug, PartialEq, Eq)]
pub struct PaymentGatewayResponse {
    pub transaction_id: String,
    pub status: String,
}

/// What the payment gateway says about a refund.
#[derive(Debug, PartialEq, Eq)]
pub struct RefundResponse {
    pub refund_id: String,
    pub transaction_id: String,
    pub status: String,
}

/// Correlation data handed to the gateway with a charge.
#[derive(Debug, PartialEq, Eq)]
pub struct PaymentMetadata {
    pub order_id: String,
    pub customer_id: String,
}

/// Failures of the payment gateway.
#[derive(Debug, PartialEq, Eq)]
pub enum PaymentGatewayError {
    Declined(String),
    NetworkError(String),
    InvalidRequest(String),
}

impl PaymentGatewayError {
    /// Human-readable description of the failure.
    pub open spec fn message_view(&self) -> Seq<char> {
        match self {
            PaymentGatewayError::Declined(msg) => "Payment declined: "@ + msg@,
            PaymentGatewayError::NetworkError(msg) => "Network error: "@ + msg@,
            PaymentGatewayError::InvalidRequest(msg) => "Invalid request: "@ + msg@,
        }
    }

    pub fn message(&self) -> (r: String)
        ensures
            r@ == self.message_view(),
    {
        match self {
            PaymentGatewayError::Declined(msg) => {
                let mut s = "Payment declined: ".to_owned();
                s.append(msg.as_str());
                s
            },
            PaymentGatewayError::NetworkError(msg) => {
                let mut s = "Network error: ".to_owned();
                s.append(msg.as_str());
                s
            },
            PaymentGatewayError::InvalidRequest(msg) => {
                let mut s = "Invalid request: ".to_owned();
                s.append(msg.as_str());
                s
            },
        }
    }
}

/// The external payment capability: an opaque collaborator that answers
/// success or failure plus a transaction reference. Nothing is promised
/// of its verdict.
pub trait PaymentGateway: Sized {
    fn process_payment(&self, amount: u64, currency: &str, metadata: PaymentMetadata) -> (r:
        Result<PaymentGatewayResponse, PaymentGatewayError>);

    fn refund(&self, transaction_id: &str, amount: u64) -> (r: Result<
        RefundResponse,
        PaymentGatewayError,
    >);
}

/// A stand-in gateway that accepts every charge and every refund under a
/// fresh transaction reference.
#[derive(Debug)]
pub struct PaymentGatewayImpl {}

impl PaymentGatewayImpl {
    pub fn new() -> PaymentGatewayImpl {
        PaymentGatewayImpl {  }
    }
}

impl PaymentGateway for PaymentGatewayImpl {
    fn process_payment(&self, amount: u64, currency: &str, metadata: PaymentMetadata) -> (r:
        Result<PaymentGatewayResponse, PaymentGatewayError>) {
        Ok(
            PaymentGatewayResponse {
                transaction_id: crate::ids::new_uuid_string(),
                status: "success".to_owned(),
            },
        )
    }

    fn refund(&self, transaction_id: &str, amount: u64) -> (r: Result<
        RefundResponse,
        PaymentGatewayError,
    >) {
        Ok(
            RefundResponse {
                refund_id: crate::ids::new_uuid_string(),
                transaction_id: transaction_id.to_owned(),
                status: "refunded".to_owned(),
            },
        )
    }
}

/// Apply the gateway's verdict to a pending payment and build the event
/// to publish: completion with the gateway's transaction reference, or
/// failure with the gateway's reason.
pub fn settle_payment(
    payment: &mut Payment,
    verdict: &Result<PaymentGatewayResponse, PaymentGatewayError>,
    now: i64,
) -> (event: PaymentEvent)
    requires
        old(payment).status@ is Pending,
    ensures
        final(payment).id == old(payment).id,
        final(payment).order_id == old(payment).order_id,
        final(payment).amount == old(payment).amount,
        final(payment).created_at == old(payment).created_at,
        final(payment).updated_at == old(payment).updated_at,
        verdict matches Ok(resp) ==> {
            &&& final(payment).status == PaymentStatus::Completed
            &&& (final(payment).external_transaction_id matches Some(t) && t@
                == resp.transaction_id@)
            &&& (event matches PaymentEvent::PaymentCompleted {
                order_id,
                payment_id,
                amount,
                transaction_id,
                completed_at,
            } && order_id@ == old(payment).order_id@ && payment_id@ == old(payment).id@ && amount
                == old(payment).amount && transaction_id@ == resp.transaction_id@ && completed_at
                == now)
        },
        verdict matches Err(e) ==> {
            &&& final(payment).status@ == PaymentStatusModel::Failed(e.message_view())
            &&& final(payment).external_transaction_id == old(payment).external_transaction_id
            &&& (event matches PaymentEvent::PaymentFailed {
                order_id,
                payment_id,
                reason,
                failed_at,
            } && order_id@ == old(payment).order_id@ && payment_id@ == old(payment).id@ && reason@
                == e.message_view() && failed_at == now)
        },
{
    match verdict {
        Ok(response) => {
            let outcome = payment.mark_as_completed(response.transaction_id.clone());
            match outcome {
                Ok(()) => (),
                Err(_) => (),
            }
            PaymentEvent::PaymentCompleted {
                order_id: payment.order_id.clone(),
                payment_id: payment.id.to_string(),
                amount: payment.amount,
                transaction_id: response.transaction_id.clone(),
                completed_at: now,
            }
        },
        Err(e) => {
            let reason = e.message();
            let outcome = payment.mark_as_failed(reason.clone());
            match outcome {
                Ok(()) => (),
                Err(_) => (),
            }
            PaymentEvent::PaymentFailed {
                order_id: payment.order_id.clone(),
                payment_id: payment.id.to_string(),
                reason,
                failed_at: now,
            }
        },
    }
}

/// Failure to hand an event to the transport.
#[derive(Debug, PartialEq, Eq)]
pub struct KafkaEventPublishError(pub String);

/// Failures of payment processing.
#[derive(Debug)]
pub enum PaymentServiceError {
    Repository(PaymentRepositoryError),
    Gateway(PaymentGatewayError),
    EventPublish(KafkaEventPublishError),
    Domain(PaymentError),
}

/// A request to charge an order's amount on a customer's behalf.
#[derive(Debug, PartialEq, Eq)]
pub struct ProcessPaymentRequest {
    pub order_id: String,
    pub amount: u64,
    pub customer_id: String,
}

/// The payment service over its two ports.
pub struct PaymentService<R: PaymentRepository, G: PaymentGateway> {
    pub repository: R,
    pub gateway: G,
}

impl<R: PaymentRepository, G: PaymentGateway> PaymentService<R, G> {
    pub open spec fn wf(&self) -> bool {
        self.repository.wf()
    }

    /// The stored payments, by payment id.
    pub open spec fn payments(&self) -> Map<Seq<char>, PaymentModel> {
        self.repository.payments()
    }

    pub fn new(repository: R, gateway: G) -> (r: Self)
        ensures
            r.repository == repository,
            r.gateway == gateway,
    {
        Self { repository, gateway }
    }

    /// Charge `amount` for the order: persist a fresh pending payment,
    /// ask the gateway, persist the settled payment, and hand the
    /// outcome event back for publication. Whatever the gateway decides,
    /// the event matches the persisted payment; a storage failure
    /// surfaces before any event exists.
    pub fn process_payment(&mut self, order_id: String, amount: u64, customer_id: String) -> (r: (
        Result<Payment, PaymentServiceError>,
        Option<PaymentEvent>,
    ))
        requires
            old(self).wf(),
        ensures
            final(self).wf(),
            r.0 matches Ok(p) ==> {
                &&& p.order_id@ == order_id@
                &&& p.amount == amount
                &&& p.status == PaymentStatus::Completed
                &&& final(self).payments() == old(self).payments().insert(p.id@, p@)
                &&& (r.1 matches Some(ev) && ev matches PaymentEvent::PaymentCompleted {
                    order_id: eo,
                    payment_id: ep,
                    amount: ea,
                    transaction_id: et,
                    ..
                } && eo@ == order_id@ && ep@ == p.id@ && ea == amount && (
                p.external_transaction_id matches Some(t) && t@ == et@))
            },
            r.0 matches Err(PaymentServiceError::Gateway(e)) ==> (r.1 matches Some(ev) && ev
                matches PaymentEvent::PaymentFailed { order_id: eo, reason, .. } && eo@ == order_id@
                && reason@ == e.message_view()),
            r.0 matches Err(PaymentServiceError::Repository(_)) ==> r.1 is None,
            !(r.0 matches Err(PaymentServiceError::Domain(_))),
            !(r.0 matches Err(PaymentServiceError::EventPublish(_))),
    {
        let mut payment = Payment::new(order_id.clone(), amount);
        match self.repository.save(&payment) {
            Ok(()) => (),
            Err(e) => {
                return (Err(PaymentServiceError::Repository(e)), None);
            },
        }
        let metadata = PaymentMetadata { order_id: order_id.clone(), customer_id };
        let verdict = self.gateway.process_payment(amount, "JPY", metadata);
        let now = now_millis();
        let event = settle_payment(&mut payment, &verdict, now);
        match self.repository.save(&payment) {
            Ok(()) => (),
            Err(e) => {
                return (Err(PaymentServiceError::Repository(e)), None);
            },
        }
        proof {
            assert(self.repository.payments() =~= old(self).repository.payments().insert(
                payment.id@,
                payment@,
            ));
        }
        match verdict {
            Ok(_) => (Ok(payment), Some(event)),
            Err(e) => (Err(PaymentServiceError::Gateway(e)), Some(event)),
        }
    }
}

} // verus!
