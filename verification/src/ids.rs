//! Identifier newtypes shared by the three services.
//!
//! Each identifier wraps a plain string token. Fresh identifiers are
//! drawn from a random UUID, rendered in its hyphenated text form.

use vstd::prelude::*;

verus! {

/// Relies on `uuid::Uuid::new_v4` and its `Display` impl: a fresh random
/// UUID rendered as the 36-character hyphenated lower-case form.
#[verifier::external_body]
pub(crate) fn new_uuid_string() -> (r: String)
    ensures
        r@.len() == 36,
{
    uuid::Uuid::new_v4().to_string()
}

/// Identity of a product, an opaque string token.
#[derive(Debug, PartialEq, Eq, PartialOrd, Ord, Hash)]
pub struct ProductId(pub String);

impl View for ProductId {
    type V = Seq<char>;

    open spec fn view(&self) -> Seq<char> {
        self.0@
    }
}

impl Clone for ProductId {
    fn clone(&self) -> (r: Self)
        ensures
            r == *self,
    {
        ProductId(self.0.clone())
    }
}

impl From<String> for ProductId {
    fn from(id: String) -> (r: Self) {
        ProductId(id)
    }
}

impl vstd::std_specs::convert::FromSpecImpl<String> for ProductId {
    open spec fn obeys_from_spec() -> bool {
        true
    }

    open spec fn from_spec(id: String) -> Self {
        ProductId(id)
    }
}

impl ProductId {
    pub fn new(id: &str) -> (r: Self)
        ensures
            r@ == id@,
    {
        ProductId(id.to_owned())
    }

    pub fn generate() -> (r: Self)
        ensures
            r@.len() == 36,
    {
        ProductId(new_uuid_string())
    }

    pub fn to_string(&self) -> (r: String)
        ensures
            r@ == self@,
    {
        self.0.clone()
    }
}

/// Identity of a customer, an opaque string token.
#[derive(Debug, PartialEq, Eq, PartialOrd, Ord, Hash)]
pub struct CustomerId(pub String);

impl View for CustomerId {
    type V = Seq<char>;

    open spec fn view(&self) -> Seq<char> {
        self.0@
    }
}

impl Clone for CustomerId {
    fn clone(&self) -> (r: Self)
        ensures
            r == *self,
    {
        CustomerId(self.0.clone())
    }
}

impl From<String> for CustomerId {
    fn from(id: String) -> (r: Self) {
        CustomerId(id)
    }
}

impl vstd::std_specs::convert::FromSpecImpl<String> for CustomerId {
    open spec fn obeys_from_spec() -> bool {
        true
    }

    open spec fn from_spec(id: String) -> Self {
        CustomerId(id)
    }
}

impl CustomerId {
    pub fn new(id: &str) -> (r: Self)
        ensures
            r@ == id@,
    {
        CustomerId(id.to_owned())
    }

    pub fn generate() -> (r: Self)
        ensures
            r@.len() == 36,
    {
        CustomerId(new_uuid_string())
    }

    pub fn to_string(&self) -> (r: String)
        ensures
            r@ == self@,
    {
        self.0.clone()
    }
}

/// Identity of an order, an opaque string token.
#[derive(Debug, PartialEq, Eq, Hash)]
pub struct OrderId(pub String);

impl View for OrderId {
    type V = Seq<char>;

    open spec fn view(&self) -> Seq<char> {
        self.0@
    }
}

impl Clone for OrderId {
    fn clone(&self) -> (r: Self)
        ensures
            r == *self,
    {
        OrderId(self.0.clone())
    }
}

impl OrderId {
    pub fn new(id: &str) -> (r: Self)
        ensures
            r@ == id@,
    {
        OrderId(id.to_owned())
    }

    pub fn generate() -> (r: Self)
        ensures
            r@.len() == 36,
    {
        OrderId(new_uuid_string())
    }

    pub fn to_string(&self) -> (r: String)
        ensures
            r@ == self@,
    {
        self.0.clone()
    }
}

/// Identity of a payment, an opaque string token.
#[derive(Debug, PartialEq, Eq, Hash)]
pub struct PaymentId(pub String);

impl View for PaymentId {
    type V = Seq<char>;

    open spec fn view(&self) -> Seq<char> {
        self.0@
    }
}

impl Clone for PaymentId {
    fn clone(&self) -> (r: Self)
        ensures
            r == *self,
    {
        PaymentId(self.0.clone())
    }
}

impl PaymentId {
    pub fn new(id: &str) -> (r: Self)
        ensures
            r@ == id@,
    {
        PaymentId(id.to_owned())
    }

    pub fn generate() -> (r: Self)
        ensures
            r@.len() == 36,
    {
        PaymentId(new_uuid_string())
    }

    pub fn to_string(&self) -> (r: String)
        ensures
            r@ == self@,
    {
        self.0.clone()
    }
}

} // verus!
