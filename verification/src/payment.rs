//! The payment aggregate of the payment service and the events it
//! publishes.
//!
//! Timestamps are milliseconds since the Unix epoch.

use vstd::prelude::*;
use crate::clock::now_millis;
use crate::ids::PaymentId;

verus! {

/// Mathematical view of a payment status.
pub enum PaymentStatusModel {
    Pending,
    Completed,
    Failed(Seq<char>),
    Refunded,
}

/// Status of a payment's lifecycle.
#[derive(Debug, PartialEq, Eq)]
pub enum PaymentStatus {
    Pending,
    Completed,
    Failed(String),
    Refunded,
}

impl View for PaymentStatus {
    type V = PaymentStatusModel;

    open spec fn view(&self) -> PaymentStatusModel {
        match self {
            PaymentStatus::Pending => PaymentStatusModel::Pending,
            PaymentStatus::Completed => PaymentStatusModel::Completed,
            PaymentStatus::Failed(reason) => PaymentStatusModel::Failed(reason@),
            PaymentStatus::Refunded => PaymentStatusModel::Refunded,
        }
    }
}

impl Clone for PaymentStatus {
    fn clone(&self) -> (r: Self)
        ensures
            r == *self,
    {
        match self {
            PaymentStatus::Pending => PaymentStatus::Pending,
            PaymentStatus::Completed => PaymentStatus::Completed,
            PaymentStatus::Failed(reason) => PaymentStatus::Failed(reason.clone()),
            PaymentStatus::Refunded => PaymentStatus::Refunded,
        }
    }
}

/// The tag under which each status is stored.
pub open spec fn status_tag(m: PaymentStatusModel) -> Seq<char> {
    match m {
        PaymentStatusModel::Pending => "pending"@,
        PaymentStatusModel::Completed => "completed"@,
        PaymentStatusModel::Failed(_) => "failed"@,
        PaymentStatusModel::Refunded => "refunded"@,
    }
}

impl PaymentStatus {
    /// The tag a storage row keeps for this status.
    pub fn as_str(&self) -> (r: &'static str)
        ensures
            r@ == status_tag(self@),
    {
        match self {
            PaymentStatus::Pending => "pending",
            PaymentStatus::Completed => "completed",
            PaymentStatus::Failed(_) => "failed",
            PaymentStatus::Refunded => "refunded",
        }
    }

    /// The failure reason a storage row keeps beside the tag.
    pub fn fail_reason(&self) -> (r: Option<String>)
        ensures
            match self@ {
                PaymentStatusModel::Failed(reason) => r matches Some(s) && s@ == reason,
                _ => r is None,
            },
    {
        match self {
            PaymentStatus::Failed(reason) => Some(reason.clone()),
            _ => None,
        }
    }

    /// Rebuild a status from a stored tag and failure reason; a tag that
    /// names no status is reported, not guessed at. A failed row without
    /// a reason reads back with a placeholder reason.
    pub fn from_parts(status: &String, fail_reason: Option<String>) -> (r: Option<PaymentStatus>)
        ensures
            status@ == "pending"@ ==> r == Some(PaymentStatus::Pending),
            status@ == "completed"@ ==> r == Some(PaymentStatus::Completed),
            status@ == "failed"@ ==> (r matches Some(s) && s@ matches PaymentStatusModel::Failed(
                reason,
            ) && (match fail_reason {
                Some(given) => reason == given@,
                None => reason == "Unknown error"@,
            })),
            status@ == "refunded"@ ==> r == Some(PaymentStatus::Refunded),
            status@ != "pending"@ && status@ != "completed"@ && status@ != "failed"@ && status@
                != "refunded"@ ==> r is None,
    {
        proof {
            reveal_strlit("pending");
            reveal_strlit("completed");
            reveal_strlit("failed");
            reveal_strlit("refunded");
            assert("pending"@.len() == 7);
            assert("completed"@.len() == 9);
            assert("failed"@.len() == 6);
            assert("refunded"@.len() == 8);
        }
        if *status == "pending".to_owned() {
            Some(PaymentStatus::Pending)
        } else if *status == "completed".to_owned() {
            Some(PaymentStatus::Completed)
        } else if *status == "failed".to_owned() {
            match fail_reason {
                Some(given) => Some(PaymentStatus::Failed(given)),
                None => Some(PaymentStatus::Failed("Unknown error".to_owned())),
            }
        } else if *status == "refunded".to_owned() {
            Some(PaymentStatus::Refunded)
        } else {
            None
        }
    }
}

/// Failures of payment operations.
#[derive(Debug, PartialEq, Eq)]
pub enum PaymentError {
    InvalidStateTransition,
    ExternalServiceError(String),
}

/// Mathematical view of a payment.
pub struct PaymentModel {
    pub id: Seq<char>,
    pub order_id: Seq<char>,
    pub amount: u64,
    pub status: PaymentStatusModel,
    pub external_transaction_id: Option<Seq<char>>,
    pub created_at: i64,
    pub updated_at: i64,
}

/// One payment attempt for an order.
#[derive(Debug, PartialEq, Eq)]
pub struct Payment {
    pub id: PaymentId,
    pub order_id: String,
    pub amount: u64,
    pub status: PaymentStatus,
    pub external_transaction_id: Option<String>,
    pub created_at: i64,
    pub updated_at: i64,
}

impl View for Payment {
    type V = PaymentModel;

    open spec fn view(&self) -> PaymentModel {
        PaymentModel {
            id: self.id@,
            order_id: self.order_id@,
            amount: self.amount,
            status: self.status@,
            external_transaction_id: match self.external_transaction_id {
                Some(t) => Some(t@),
                None => None,
            },
            created_at: self.created_at,
            updated_at: self.updated_at,
        }
    }
}

impl Clone for Payment {
    fn clone(&self) -> (r: Self)
        ensures
            r == *self,
    {
        Payment {
            id: self.id.clone(),
            order_id: self.order_id.clone(),
            amount: self.amount,
            status: self.status.clone(),
            external_transaction_id: match &self.external_transaction_id {
                Some(t) => Some(t.clone()),
                None => None,
            },
            created_at: self.created_at,
            updated_at: self.updated_at,
        }
    }
}

impl Payment {
    /// A fresh pending payment for the order, under a new id, created
    /// now.
    pub fn new(order_id: String, amount: u64) -> (r: Self)
        ensures
            r.order_id == order_id,
            r.amount == amount,
            r.status == PaymentStatus::Pending,
            r.external_transaction_id is None,
            r.created_at == r.updated_at,
            r.id@.len() == 36,
    {
        let now = now_millis();
        Self {
            id: PaymentId::generate(),
            order_id,
            amount,
            status: PaymentStatus::Pending,
            external_transaction_id: None,
            created_at: now,
            updated_at: now,
        }
    }

    /// The gateway accepted the payment; allowed only while pending.
    pub fn mark_as_completed(&mut self, transaction_id: String) -> (r: Result<(), PaymentError>)
        ensures
            r is Ok <==> old(self).status@ is Pending,
            r is Ok ==> *final(self) == (Payment {
                status: PaymentStatus::Completed,
                external_transaction_id: Some(transaction_id),
                ..*old(self)
            }),
            r matches Err(e) ==> *final(self) == *old(self) && e
                == PaymentError::InvalidStateTransition,
    {
        if matches!(self.status, PaymentStatus::Pending) {
            self.status = PaymentStatus::Completed;
            self.external_transaction_id = Some(transaction_id);
            Ok(())
        } else {
            Err(PaymentError::InvalidStateTransition)
        }
    }

    /// The gateway declined or failed; always allowed.
    pub fn mark_as_failed(&mut self, reason: String) -> (r: Result<(), PaymentError>)
        ensures
            r is Ok,
            *final(self) == (Payment { status: PaymentStatus::Failed(reason), ..*old(self) }),
    {
        self.status = PaymentStatus::Failed(reason);
        Ok(())
    }
}

/// Mathematical view of a payment event.
pub enum PaymentEventModel {
    Completed {
        order_id: Seq<char>,
        payment_id: Seq<char>,
        amount: u64,
        transaction_id: Seq<char>,
        completed_at: i64,
    },
    Failed { order_id: Seq<char>, payment_id: Seq<char>, reason: Seq<char>, failed_at: i64 },
    Refunded { order_id: Seq<char>, payment_id: Seq<char>, amount: u64, refunded_at: i64 },
}

/// An event the payment service publishes about a payment's outcome.
#[derive(Debug, PartialEq, Eq)]
pub enum PaymentEvent {
    PaymentCompleted {
        order_id: String,
        payment_id: String,
        amount: u64,
        transaction_id: String,
        completed_at: i64,
    },
    PaymentFailed { order_id: String, payment_id: String, reason: String, failed_at: i64 },
    PaymentRefunded { order_id: String, payment_id: String, amount: u64, refunded_at: i64 },
}

impl View for PaymentEvent {
    type V = PaymentEventModel;

    open spec fn view(&self) -> PaymentEventModel {
        match self {
            PaymentEvent::PaymentCompleted {
                order_id,
                payment_id,
                amount,
                transaction_id,
                completed_at,
            } => PaymentEventModel::Completed {
                order_id: order_id@,
                payment_id: payment_id@,
                amount: *amount,
                transaction_id: transaction_id@,
                completed_at: *completed_at,
            },
            PaymentEvent::PaymentFailed { order_id, payment_id, reason, failed_at } =>
                PaymentEventModel::Failed {
                order_id: order_id@,
                payment_id: payment_id@,
                reason: reason@,
                failed_at: *failed_at,
            },
            PaymentEvent::PaymentRefunded { order_id, payment_id, amount, refunded_at } =>
                PaymentEventModel::Refunded {
                order_id: order_id@,
                payment_id: payment_id@,
                amount: *amount,
                refunded_at: *refunded_at,
            },
        }
    }
}

impl PaymentEvent {
    /// The key under which the event is published: its order.
    pub fn partition_key(&self) -> (r: String)
        ensures
            r@ == (match self@ {
                PaymentEventModel::Completed { order_id, .. } => order_id,
                PaymentEventModel::Failed { order_id, .. } => order_id,
                PaymentEventModel::Refunded { order_id, .. } => order_id,
            }),
    {
        match self {
            PaymentEvent::PaymentCompleted { order_id, .. } => order_id.clone(),
            PaymentEvent::PaymentFailed { order_id, .. } => order_id.clone(),
            PaymentEvent::PaymentRefunded { order_id, .. } => order_id.clone(),
        }
    }
}

} // verus!
