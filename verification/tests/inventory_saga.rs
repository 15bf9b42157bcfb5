use fulfillment::events::{
    InventoryEvent, OrderEvent, PaymentEvent, SagaTrigger, trigger_from_order_event,
    trigger_from_payment_event,
};
use fulfillment::idempotency::{IdempotencyLog, OperationKind};
use fulfillment::ids::ProductId;
use fulfillment::inventory::{Inventory, InventoryError};
use fulfillment::saga::{derive_saga_state, SagaCoordinator, SagaState};

fn coordinator_with_stock(product: &str, available: u32, reserved: u32) -> SagaCoordinator {
    let mut coordinator = SagaCoordinator::new();
    coordinator.upsert_inventory(&Inventory::new(ProductId::new(product), available, reserved));
    coordinator
}

fn order_created(order: &str, product: &str, quantity: u32) -> SagaTrigger {
    SagaTrigger::OrderCreated {
        order_id: order.to_string(),
        product_id: product.to_string(),
        quantity,
        occurred_at: 500,
    }
}

fn stock_of(coordinator: &SagaCoordinator, product: &str) -> (u32, u32) {
    let inventory = coordinator.store.get(&ProductId::new(product)).unwrap();
    (inventory.available_quantity, inventory.reserved_quantity)
}

#[test]
fn test_reserve_moves_stock() {
    let mut inventory = Inventory::new(ProductId::new("p-1"), 10, 0);
    assert!(inventory.reserve(4).is_ok());
    assert_eq!(inventory.available_quantity, 6);
    assert_eq!(inventory.reserved_quantity, 4);
    assert!(inventory.release(4).is_ok());
    assert_eq!(inventory.available_quantity, 10);
    assert_eq!(inventory.reserved_quantity, 0);
}

#[test]
fn test_reserve_insufficient_stock_reports_request() {
    let mut inventory = Inventory::new(ProductId::new("p-1"), 3, 1);
    let err = inventory.reserve(5).unwrap_err();
    assert_eq!(inventory.available_quantity, 3);
    assert_eq!(inventory.reserved_quantity, 1);
    assert!(matches!(err, InventoryError::InsufficientStock { product_id, requested, available }
        if product_id == "p-1" && requested == 5 && available == 3));
}

#[test]
fn test_release_and_confirm_guard_on_reserved() {
    let mut inventory = Inventory::new(ProductId::new("p-1"), 2, 1);
    let err = inventory.release(2).unwrap_err();
    assert!(matches!(err, InventoryError::InsufficientStock { requested: 2, available: 2, .. }));
    let err = inventory.confirm(2).unwrap_err();
    assert!(matches!(err, InventoryError::InsufficientStock { requested: 2, .. }));
    assert!(inventory.confirm(1).is_ok());
    assert_eq!(inventory.available_quantity, 2);
    assert_eq!(inventory.reserved_quantity, 0);
}

#[test]
fn test_error_messages() {
    let insufficient = InventoryError::InsufficientStock {
        product_id: "p-1".to_string(),
        requested: 5,
        available: 3,
    };
    assert_eq!(insufficient.message(), "Insufficient stock");
    assert_eq!(
        InventoryError::ProductNotFound("p-2".to_string()).message(),
        "Product not found: p-2"
    );
    assert_eq!(
        InventoryError::Infrastructure("db down".to_string()).message(),
        "Infrastructure error: db down"
    );
}

#[test]
fn test_scenario_reserve_success() {
    let mut coordinator = coordinator_with_stock("product-1", 10, 0);
    let outcome = coordinator.handle_trigger(&order_created("order-1", "product-1", 3), 1_000);

    assert_eq!(stock_of(&coordinator, "product-1"), (7, 3));
    assert_eq!(
        outcome,
        Some(InventoryEvent::InventoryReserved {
            order_id: "order-1".to_string(),
            product_id: "product-1".to_string(),
            quantity: 3,
            reserved_at: 1_000,
        })
    );
}

#[test]
fn test_scenario_reserve_insufficient() {
    let mut coordinator = coordinator_with_stock("product-1", 10, 0);
    let outcome = coordinator.handle_trigger(&order_created("order-1", "product-1", 20), 1_000);

    assert_eq!(stock_of(&coordinator, "product-1"), (10, 0));
    match outcome {
        Some(InventoryEvent::InventoryFailed { order_id, product_id, reason, failed_at }) => {
            assert_eq!(order_id, "order-1");
            assert_eq!(product_id, "product-1");
            assert!(reason.contains("Insufficient"));
            assert_eq!(failed_at, 1_000);
        }
        other => panic!("expected a failure outcome, got {:?}", other),
    }
}

#[test]
fn test_scenario_payment_failed_compensates() {
    let mut coordinator = coordinator_with_stock("product-1", 10, 0);
    coordinator.handle_trigger(&order_created("order-1", "product-1", 3), 1_000);

    let trigger = SagaTrigger::PaymentFailed {
        order_id: "order-1".to_string(),
        product_id: "product-1".to_string(),
        quantity: 3,
        reason: "card declined".to_string(),
    };
    let outcome = coordinator.handle_trigger(&trigger, 2_000);

    assert_eq!(stock_of(&coordinator, "product-1"), (10, 0));
    assert_eq!(
        outcome,
        Some(InventoryEvent::InventoryReleased {
            order_id: "order-1".to_string(),
            product_id: "product-1".to_string(),
            quantity: 3,
            released_at: 2_000,
        })
    );
}

#[test]
fn test_scenario_payment_completed_confirms() {
    let mut coordinator = coordinator_with_stock("product-1", 10, 0);
    coordinator.handle_trigger(&order_created("order-1", "product-1", 3), 1_000);

    let trigger = SagaTrigger::PaymentCompleted {
        order_id: "order-1".to_string(),
        product_id: "product-1".to_string(),
        quantity: 3,
    };
    let outcome = coordinator.handle_trigger(&trigger, 2_000);

    let (available, reserved) = stock_of(&coordinator, "product-1");
    assert_eq!((available, reserved), (7, 0));
    assert_eq!(outcome, None);
    assert_eq!(available + reserved, 10 - 3);
}

#[test]
fn test_scenario_cancel_releases() {
    let mut coordinator = coordinator_with_stock("product-1", 10, 0);
    coordinator.handle_trigger(&order_created("order-1", "product-1", 3), 1_000);

    let trigger = SagaTrigger::OrderCancelled {
        order_id: "order-1".to_string(),
        product_id: "product-1".to_string(),
        quantity: 3,
    };
    let outcome = coordinator.handle_trigger(&trigger, 3_000);

    assert_eq!(stock_of(&coordinator, "product-1"), (10, 0));
    assert!(matches!(
        outcome,
        Some(InventoryEvent::InventoryReleased { quantity: 3, released_at: 3_000, .. })
    ));
}

#[test]
fn test_duplicate_delivery_is_idempotent() {
    let mut coordinator = coordinator_with_stock("product-1", 10, 0);
    let trigger = order_created("order-1", "product-1", 3);

    let first = coordinator.handle_trigger(&trigger, 1_000);
    let second = coordinator.handle_trigger(&trigger, 9_999);

    assert_eq!(stock_of(&coordinator, "product-1"), (7, 3));
    assert!(first.is_some());
    assert_eq!(first, second);
}

#[test]
fn test_failed_reserve_leaves_no_record_and_redelivery_recomputes() {
    let mut coordinator = coordinator_with_stock("product-1", 10, 0);
    let trigger = order_created("order-1", "product-1", 20);

    let first = coordinator.handle_trigger(&trigger, 1_000);
    assert_eq!(derive_saga_state(&coordinator.log, &"order-1".to_string()), SagaState::Idle);

    let second = coordinator.handle_trigger(&trigger, 2_000);
    assert_eq!(stock_of(&coordinator, "product-1"), (10, 0));
    assert!(matches!(first, Some(InventoryEvent::InventoryFailed { failed_at: 1_000, .. })));
    assert!(matches!(second, Some(InventoryEvent::InventoryFailed { failed_at: 2_000, .. })));
}

#[test]
fn test_unknown_product_fails_permanently() {
    let mut coordinator = SagaCoordinator::new();
    let outcome = coordinator.handle_trigger(&order_created("order-1", "ghost", 1), 1_000);
    match outcome {
        Some(InventoryEvent::InventoryFailed { reason, .. }) => {
            assert_eq!(reason, "Product not found: ghost");
        }
        other => panic!("expected a failure outcome, got {:?}", other),
    }
}

#[test]
fn test_out_of_order_release_is_reported() {
    let mut coordinator = coordinator_with_stock("product-1", 10, 0);
    let trigger = SagaTrigger::PaymentFailed {
        order_id: "order-1".to_string(),
        product_id: "product-1".to_string(),
        quantity: 3,
        reason: "card declined".to_string(),
    };
    let outcome = coordinator.handle_trigger(&trigger, 1_000);
    assert_eq!(stock_of(&coordinator, "product-1"), (10, 0));
    assert!(matches!(
        outcome,
        Some(InventoryEvent::InventoryFailed { .. })
    ));
}

#[test]
fn test_saga_state_is_derived_from_records() {
    let mut coordinator = coordinator_with_stock("product-1", 10, 0);
    let order = "order-1".to_string();

    assert_eq!(derive_saga_state(&coordinator.log, &order), SagaState::Idle);

    coordinator.handle_trigger(&order_created("order-1", "product-1", 3), 1_000);
    assert_eq!(derive_saga_state(&coordinator.log, &order), SagaState::Reserved);

    let confirm = SagaTrigger::PaymentCompleted {
        order_id: "order-1".to_string(),
        product_id: "product-1".to_string(),
        quantity: 3,
    };
    coordinator.handle_trigger(&confirm, 2_000);
    assert_eq!(derive_saga_state(&coordinator.log, &order), SagaState::Settled);

    let mut other = coordinator_with_stock("product-2", 5, 0);
    other.handle_trigger(&order_created("order-2", "product-2", 2), 1_000);
    let cancel = SagaTrigger::OrderCancelled {
        order_id: "order-2".to_string(),
        product_id: "product-2".to_string(),
        quantity: 2,
    };
    other.handle_trigger(&cancel, 2_000);
    assert_eq!(derive_saga_state(&other.log, &"order-2".to_string()), SagaState::Released);
}

#[test]
fn test_idempotency_log_tracks_pairs() {
    let mut log = IdempotencyLog::new();
    let order = "order-1".to_string();

    assert_eq!(log.lookup(&order, OperationKind::Reserve), None);
    log.record(&order, OperationKind::Reserve, 42);
    assert_eq!(log.lookup(&order, OperationKind::Reserve), Some(42));
    assert_eq!(log.lookup(&order, OperationKind::Release), None);
    assert_eq!(log.lookup(&"order-2".to_string(), OperationKind::Reserve), None);

    log.record(&order, OperationKind::Confirm, 43);
    assert_eq!(log.lookup(&order, OperationKind::Reserve), Some(42));
    assert_eq!(log.lookup(&order, OperationKind::Confirm), Some(43));
}

#[test]
fn test_trigger_classification() {
    let created = trigger_from_order_event(OrderEvent::OrderCreated {
        order_id: "o".to_string(),
        customer_id: "c".to_string(),
        product_id: "p".to_string(),
        quantity: 2,
        created_at: 7,
    });
    assert!(matches!(created, SagaTrigger::OrderCreated { quantity: 2, occurred_at: 7, .. }));
    assert_eq!(created.operation_kind(), OperationKind::Reserve);

    let cancelled = trigger_from_order_event(OrderEvent::OrderCancelled {
        order_id: "o".to_string(),
        product_id: "p".to_string(),
        quantity: 2,
    });
    assert_eq!(cancelled.operation_kind(), OperationKind::Release);

    let completed = trigger_from_payment_event(PaymentEvent::PaymentCompleted {
        order_id: "o".to_string(),
        payment_id: "pay".to_string(),
        amount: 100,
        product_id: "p".to_string(),
        quantity: 2,
    });
    assert_eq!(completed.operation_kind(), OperationKind::Confirm);
    assert_eq!(completed.order_id(), "o");
    assert_eq!(completed.product_id(), "p");
    assert_eq!(completed.quantity(), 2);

    let failed = trigger_from_payment_event(PaymentEvent::PaymentFailed {
        order_id: "o".to_string(),
        reason: "r".to_string(),
        product_id: "p".to_string(),
        quantity: 2,
    });
    assert_eq!(failed.operation_kind(), OperationKind::Release);
}

#[test]
fn test_inventory_event_partition_key_is_order_id() {
    let event = InventoryEvent::InventoryReserved {
        order_id: "order-9".to_string(),
        product_id: "p".to_string(),
        quantity: 1,
        reserved_at: 0,
    };
    assert_eq!(event.partition_key(), "order-9");

    let event = InventoryEvent::InventoryFailed {
        order_id: "order-8".to_string(),
        product_id: "p".to_string(),
        reason: "r".to_string(),
        failed_at: 0,
    };
    assert_eq!(event.partition_key(), "order-8");
}
