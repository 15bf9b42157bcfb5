use fulfillment::ids::{CustomerId, OrderId, PaymentId, ProductId};
use fulfillment::inventory::{Inventory, InventoryError};
use fulfillment::order::{OrderStatus, Product};
use fulfillment::order_service::{OrderRepository, OrderService, OrderServiceError, OrderStore};
use fulfillment::payment::{Payment, PaymentError, PaymentEvent, PaymentStatus};
use fulfillment::payment_service::{
    PaymentGateway, PaymentGatewayError, PaymentGatewayImpl, PaymentRepository, PaymentService,
    PaymentStore, settle_payment,
};
use fulfillment::records::{InventoryRecord, OrderRecord, PaymentRecord};
use fulfillment::retry::{next_retry, RetryDecision, RetryPolicy};
use fulfillment::repository::{InventoryRepository, InventoryStore};
use fulfillment::service::InventoryService;

#[test]
fn test_inventory_service_reserve_success() {
    let mut store = InventoryStore::new();
    store.upsert(&Inventory::new(ProductId::new("p-1"), 10, 0));
    let mut service = InventoryService::new(store);

    assert!(service.reserve_inventory(&ProductId::new("p-1"), 4).is_ok());

    let inventory = service.repository.get(&ProductId::new("p-1")).unwrap();
    assert_eq!(inventory.available_quantity, 6);
    assert_eq!(inventory.reserved_quantity, 4);
}

#[test]
fn test_inventory_service_reports_missing_product() {
    let mut service = InventoryService::new(InventoryStore::new());
    let err = service.reserve_inventory(&ProductId::new("ghost"), 1).unwrap_err();
    assert!(matches!(err, InventoryError::ProductNotFound(id) if id == "ghost"));
}

#[test]
fn test_inventory_service_insufficient_stock() {
    let mut store = InventoryStore::new();
    store.upsert(&Inventory::new(ProductId::new("p-1"), 3, 0));
    let mut service = InventoryService::new(store);

    let err = service.reserve_inventory(&ProductId::new("p-1"), 5).unwrap_err();
    assert!(matches!(err, InventoryError::InsufficientStock { requested: 5, available: 3, .. }));

    let inventory = service.repository.get(&ProductId::new("p-1")).unwrap();
    assert_eq!(inventory.available_quantity, 3);
}

#[test]
fn test_inventory_service_release_and_confirm() {
    let mut store = InventoryStore::new();
    store.upsert(&Inventory::new(ProductId::new("p-1"), 5, 5));
    let mut service = InventoryService::new(store);

    assert!(service.release_inventory(&ProductId::new("p-1"), 2).is_ok());
    assert!(service.confirm_inventory(&ProductId::new("p-1"), 3).is_ok());

    let inventory = service.repository.get(&ProductId::new("p-1")).unwrap();
    assert_eq!(inventory.available_quantity, 7);
    assert_eq!(inventory.reserved_quantity, 0);
}

#[test]
fn test_create_order_success() {
    let customer_id = CustomerId::new("customer-1");
    let mut service = OrderService::new(OrderStore::new());

    let actual = service.create_order(customer_id.clone());

    assert!(actual.is_ok());
    let order = actual.unwrap();
    assert_eq!(order.customer_id, customer_id);
    assert_eq!(order.status, OrderStatus::PendingPayment);
    assert!(order.products.is_empty());

    let stored = service.get_order(order.id.clone()).unwrap();
    assert_eq!(stored, Some(order));
}

#[test]
fn test_add_product_to_order_success() {
    let order_id = OrderId::new("order-1");
    let order = fulfillment::order::Order {
        id: order_id.clone(),
        customer_id: CustomerId::new("customer-1"),
        status: OrderStatus::PendingPayment,
        products: vec![],
    };
    let product = Product::generate("product-1", 100, 1);

    let mut store = OrderStore::new();
    store.save(&order).unwrap();
    let mut service = OrderService::new(store);

    let actual = service.add_product_to_order(order_id.clone(), product.clone());

    assert!(actual.is_ok());
    let stored = service.get_order(order_id).unwrap().unwrap();
    assert!(stored.products.contains(&product));
}

#[test]
fn test_add_product_to_paid_order_is_a_domain_error() {
    let order_id = OrderId::new("order-1");
    let order = fulfillment::order::Order {
        id: order_id.clone(),
        customer_id: CustomerId::new("customer-1"),
        status: OrderStatus::Paid,
        products: vec![],
    };
    let mut store = OrderStore::new();
    store.save(&order).unwrap();
    let mut service = OrderService::new(store);

    let err = service
        .add_product_to_order(order_id.clone(), Product::generate("p", 1, 1))
        .unwrap_err();
    assert!(matches!(
        err,
        OrderServiceError::Domain(fulfillment::order::OrderError::InvalidStatusTransition { .. })
    ));
    let stored = service.get_order(order_id).unwrap().unwrap();
    assert!(stored.products.is_empty());
}

#[test]
fn test_add_product_to_missing_order() {
    let mut service = OrderService::new(OrderStore::new());
    let err = service
        .add_product_to_order(OrderId::new("ghost"), Product::generate("p", 1, 1))
        .unwrap_err();
    assert!(matches!(err, OrderServiceError::NotFound));
}

#[test]
fn test_create_order_with_product() {
    let mut service = OrderService::new(OrderStore::new());
    let order = service
        .create_order_with_product(CustomerId::new("customer-1"), ProductId::new("product-1"), 2, 1000)
        .unwrap();

    assert_eq!(order.status, OrderStatus::PendingPayment);
    assert_eq!(order.products.len(), 1);
    assert_eq!(order.products[0].id, ProductId::new("product-1"));
    assert_eq!(order.products[0].quantity, 2);
    assert_eq!(order.products[0].price, 1000);
    assert_eq!(order.total_amount(), 2000);
}

#[test]
fn test_find_by_customer_id_filters() {
    let mut store = OrderStore::new();
    let mine = CustomerId::new("customer-1");
    let other = CustomerId::new("customer-2");
    for (id, customer) in [("o-1", &mine), ("o-2", &other), ("o-3", &mine)] {
        store
            .save(&fulfillment::order::Order {
                id: OrderId::new(id),
                customer_id: customer.clone(),
                status: OrderStatus::PendingPayment,
                products: vec![],
            })
            .unwrap();
    }
    let found = store.find_by_customer_id(mine).unwrap();
    assert_eq!(found.len(), 2);
    assert!(found.iter().all(|o| o.customer_id == CustomerId::new("customer-1")));
}

#[test]
fn test_payment_lifecycle() {
    let mut payment = Payment::new("order-1".to_string(), 500);
    assert_eq!(payment.status, PaymentStatus::Pending);
    assert_eq!(payment.external_transaction_id, None);
    assert_eq!(payment.created_at, payment.updated_at);

    assert!(payment.mark_as_completed("tx-1".to_string()).is_ok());
    assert_eq!(payment.status, PaymentStatus::Completed);
    assert_eq!(payment.external_transaction_id, Some("tx-1".to_string()));

    let err = payment.mark_as_completed("tx-2".to_string()).unwrap_err();
    assert_eq!(err, PaymentError::InvalidStateTransition);
    assert_eq!(payment.external_transaction_id, Some("tx-1".to_string()));

    assert!(payment.mark_as_failed("late".to_string()).is_ok());
    assert_eq!(payment.status, PaymentStatus::Failed("late".to_string()));
}

#[test]
fn test_process_payment_success() {
    let mut service = PaymentService::new(PaymentStore::new(), PaymentGatewayImpl::new());

    let (result, event) =
        service.process_payment("order-1".to_string(), 900, "customer-1".to_string());

    let payment = result.unwrap();
    assert_eq!(payment.order_id, "order-1");
    assert_eq!(payment.amount, 900);
    assert_eq!(payment.status, PaymentStatus::Completed);
    let transaction_id = payment.external_transaction_id.clone().unwrap();
    assert_eq!(transaction_id.len(), 36);

    match event {
        Some(PaymentEvent::PaymentCompleted { order_id, payment_id, amount, transaction_id: tx, .. }) => {
            assert_eq!(order_id, "order-1");
            assert_eq!(payment_id, payment.id.to_string());
            assert_eq!(amount, 900);
            assert_eq!(tx, transaction_id);
        }
        other => panic!("expected a completion event, got {:?}", other),
    }

    let stored = service.repository.find_by_id(&payment.id).unwrap();
    assert_eq!(stored, Some(payment));
}

#[test]
fn test_settle_payment_failure_path() {
    let mut payment = Payment::new("order-1".to_string(), 900);
    let verdict = Err(PaymentGatewayError::Declined("no funds".to_string()));

    let event = settle_payment(&mut payment, &verdict, 7_000);

    assert_eq!(payment.status, PaymentStatus::Failed("Payment declined: no funds".to_string()));
    match event {
        PaymentEvent::PaymentFailed { order_id, payment_id, reason, failed_at } => {
            assert_eq!(order_id, "order-1");
            assert_eq!(payment_id, payment.id.to_string());
            assert_eq!(reason, "Payment declined: no funds");
            assert_eq!(failed_at, 7_000);
        }
        other => panic!("expected a failure event, got {:?}", other),
    }
}

#[test]
fn test_gateway_error_messages() {
    assert_eq!(
        PaymentGatewayError::NetworkError("timeout".to_string()).message(),
        "Network error: timeout"
    );
    assert_eq!(
        PaymentGatewayError::InvalidRequest("bad".to_string()).message(),
        "Invalid request: bad"
    );
}

#[test]
fn test_gateway_impl_answers() {
    let gateway = PaymentGatewayImpl::new();
    let response = gateway
        .process_payment(100, "JPY", fulfillment::payment_service::PaymentMetadata {
            order_id: "o".to_string(),
            customer_id: "c".to_string(),
        })
        .unwrap();
    assert_eq!(response.status, "success");
    assert_eq!(response.transaction_id.len(), 36);

    let refund = gateway.refund("tx-1", 50).unwrap();
    assert_eq!(refund.transaction_id, "tx-1");
    assert_eq!(refund.status, "refunded");
    assert_eq!(refund.refund_id.len(), 36);
}

#[test]
fn test_payment_status_storage_round_trip() {
    for status in [
        PaymentStatus::Pending,
        PaymentStatus::Completed,
        PaymentStatus::Failed("boom".to_string()),
        PaymentStatus::Refunded,
    ] {
        let tag = status.as_str().to_string();
        let reason = status.fail_reason();
        let back = PaymentStatus::from_parts(&tag, reason).unwrap();
        assert_eq!(back, status);
    }
    assert_eq!(PaymentStatus::from_parts(&"bogus".to_string(), None), None);
    assert_eq!(
        PaymentStatus::from_parts(&"failed".to_string(), None),
        Some(PaymentStatus::Failed("Unknown error".to_string()))
    );
}

#[test]
fn test_payment_event_partition_key() {
    let event = PaymentEvent::PaymentRefunded {
        order_id: "order-3".to_string(),
        payment_id: "pay-1".to_string(),
        amount: 10,
        refunded_at: 1,
    };
    assert_eq!(event.partition_key(), "order-3");
}

#[test]
fn test_retry_backoff_doubles_until_parked() {
    let policy = RetryPolicy { max_attempts: 4, base_delay_ms: 100 };

    assert_eq!(next_retry(&policy, 1), RetryDecision::Retry { delay_ms: 100 });
    assert_eq!(next_retry(&policy, 2), RetryDecision::Retry { delay_ms: 200 });
    assert_eq!(next_retry(&policy, 3), RetryDecision::Retry { delay_ms: 400 });
    assert_eq!(next_retry(&policy, 4), RetryDecision::Park);
    assert_eq!(next_retry(&policy, 9), RetryDecision::Park);
}

#[test]
fn test_retry_backoff_saturates() {
    let policy = RetryPolicy { max_attempts: 100, base_delay_ms: u64::MAX - 1 };
    assert_eq!(
        next_retry(&policy, 3),
        RetryDecision::Retry { delay_ms: u64::MAX }
    );
}

#[test]
fn test_inventory_record_conversion() {
    let record = InventoryRecord {
        id: "p-1".to_string(),
        available_quantity: 9,
        reserved_quantity: 2,
        created_at: 1,
        updated_at: 2,
    };
    let inventory = record.into_inventory();
    assert_eq!(inventory.product_id, ProductId::new("p-1"));
    assert_eq!(inventory.available_quantity, 9);
    assert_eq!(inventory.reserved_quantity, 2);
}

#[test]
fn test_order_record_conversion() {
    let record = OrderRecord {
        id: "order-1".to_string(),
        customer_id: "customer-1".to_string(),
        status: "Paid".to_string(),
        total_amount: 100,
        created_at: 1,
        updated_at: 2,
    };
    assert!(record.has_valid_status());
    let order = record.into_order();
    assert_eq!(order.id, OrderId::new("order-1"));
    assert_eq!(order.customer_id, CustomerId::new("customer-1"));
    assert_eq!(order.status, OrderStatus::Paid);
    assert!(order.products.is_empty());

    let corrupt = OrderRecord {
        id: "order-2".to_string(),
        customer_id: "customer-2".to_string(),
        status: "Bogus".to_string(),
        total_amount: 0,
        created_at: 1,
        updated_at: 2,
    };
    assert!(!corrupt.has_valid_status());
}

#[test]
fn test_payment_record_conversion() {
    let record = PaymentRecord {
        id: "pay-1".to_string(),
        order_id: "order-1".to_string(),
        amount: 700,
        status: "completed".to_string(),
        fail_reason: None,
        external_transaction_id: Some("tx-9".to_string()),
        created_at: 5,
        updated_at: 6,
    };
    let payment = record.into_payment().unwrap();
    assert_eq!(payment.id, PaymentId::new("pay-1"));
    assert_eq!(payment.order_id, "order-1");
    assert_eq!(payment.amount, 700);
    assert_eq!(payment.status, PaymentStatus::Completed);
    assert_eq!(payment.external_transaction_id, Some("tx-9".to_string()));

    let corrupt = PaymentRecord {
        id: "pay-2".to_string(),
        order_id: "order-2".to_string(),
        amount: 0,
        status: "???".to_string(),
        fail_reason: None,
        external_transaction_id: None,
        created_at: 0,
        updated_at: 0,
    };
    assert!(corrupt.into_payment().is_none());
}
