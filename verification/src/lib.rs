//! Verified core of a choreography-based order-fulfillment system.
//!
//! Three services — order, payment, inventory — cooperate only through
//! asynchronous events. The heart of the crate is the inventory
//! reservation state machine together with the saga rules that map
//! inbound business events to inventory operations, guarded against
//! duplicate delivery by an idempotency log.

pub mod clock;
pub mod events;
pub mod idempotency;
pub mod ids;
pub mod inventory;
pub mod order;
pub mod order_api;
pub mod order_service;
pub mod payment;
pub mod payment_service;
pub mod records;
pub mod repository;
pub mod retry;
pub mod saga;
pub mod service;
