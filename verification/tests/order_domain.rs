use fulfillment::ids::{CustomerId, OrderId, ProductId};
use fulfillment::order::{Order, OrderError, OrderStatus, Product};
use fulfillment::order_api::OrderResponse;

#[test]
fn test_add_product_when_pending_payment() {
    let order = Order::new(CustomerId::new("customer-11"));

    assert!(matches!(order.status, OrderStatus::PendingPayment));
    assert!(order.products().is_empty());
}

#[test]
fn test_add_product_success() {
    let mut order = Order {
        id: OrderId::new("order-1"),
        customer_id: CustomerId::new("customer-1"),
        status: OrderStatus::PendingPayment,
        products: Vec::new(),
    };

    let product = Product {
        id: ProductId::new("product-1"),
        name: "Product 1".to_string(),
        price: 100,
        quantity: 2,
    };

    let actual = order.add_product(product.clone());
    assert!(actual.is_ok());
    assert_eq!(order.products, vec![product]);
    assert_eq!(order.total_amount(), 200);
}

#[test]
fn test_add_product_when_paid() {
    let mut order = Order {
        id: OrderId::new("order-1"),
        customer_id: CustomerId::new("customer-1"),
        status: OrderStatus::PendingPayment,
        products: Vec::new(),
    };

    order.mark_as_paid().unwrap();

    let product = Product {
        id: ProductId::new("product-1"),
        name: "Product 1".to_string(),
        price: 100,
        quantity: 2,
    };

    let actual = order.add_product(product);
    assert!(actual.is_err());
}

#[test]
fn test_total_amount() {
    let mut order = Order {
        id: OrderId::new("order-1"),
        customer_id: CustomerId::new("customer-1"),
        status: OrderStatus::PendingPayment,
        products: Vec::new(),
    };

    let product1 = Product::generate("p1", 500, 2);
    let product2 = Product::generate("p2", 300, 3);

    order.add_product(product1).unwrap();
    order.add_product(product2).unwrap();

    let actual = order.total_amount();

    assert_eq!(actual, 1900);
}

#[test]
fn test_invalid_status_transition() {
    let mut order = Order {
        id: OrderId::new("order-1"),
        customer_id: CustomerId::new("customer-1"),
        status: OrderStatus::Paid,
        products: Vec::new(),
    };

    let actual = order.mark_as_paid();
    assert!(actual.is_err());

    let err = actual.unwrap_err();
    assert!(matches!(err, OrderError::InvalidStatusTransition { current, action }
      if current == "Paid" && action == "mark_as_paid"));
}

#[test]
fn test_add_product_error_details() {
    let mut order = Order {
        id: OrderId::new("order-2"),
        customer_id: CustomerId::new("customer-2"),
        status: OrderStatus::Cancelled,
        products: Vec::new(),
    };

    let err = order.add_product(Product::generate("p", 10, 1)).unwrap_err();
    assert!(matches!(err, OrderError::InvalidStatusTransition { current, action }
      if current == "Cancelled" && action == "add_product"));
    assert!(order.products().is_empty());
}

#[test]
fn test_order_status_names() {
    assert_eq!(OrderStatus::PendingPayment.as_str(), "PendingPayment");
    assert_eq!(OrderStatus::Paid.as_str(), "Paid");
    assert_eq!(OrderStatus::PaymentFailed("x".to_string()).as_str(), "PaymentFailed");
    assert_eq!(
        OrderStatus::Shipped { tracking_id: "t-1".to_string() }.as_str(),
        "Shipped"
    );
    assert_eq!(OrderStatus::Delivered.as_str(), "Delivered");
    assert_eq!(OrderStatus::Cancelled.as_str(), "Cancelled");

    assert_eq!(
        OrderStatus::from("Paid".to_string()),
        OrderStatus::Paid
    );
    assert_eq!(
        OrderStatus::from("PendingPayment".to_string()),
        OrderStatus::PendingPayment
    );
    assert_eq!(
        OrderStatus::from("Cancelled".to_string()),
        OrderStatus::Cancelled
    );
}

#[test]
fn test_order_status_permissions() {
    assert!(OrderStatus::PendingPayment.can_add_product());
    assert!(!OrderStatus::Paid.can_add_product());
    assert!(OrderStatus::PendingPayment.can_cancel());
    assert!(OrderStatus::Paid.can_cancel());
    assert!(!OrderStatus::Delivered.can_cancel());
}

#[test]
fn test_product_subtotal() {
    let product = Product::new(ProductId::new("p-9"), "Nine", 250, 4);
    assert_eq!(product.subtotal(), 1000);
    assert_eq!(product.name, "Nine");
}

#[test]
fn test_order_response_from_order() {
    let mut order = Order {
        id: OrderId::new("order-7"),
        customer_id: CustomerId::new("customer-7"),
        status: OrderStatus::PendingPayment,
        products: Vec::new(),
    };
    order
        .add_product(Product::new(ProductId::new("p-1"), "One", 100, 2))
        .unwrap();
    order
        .add_product(Product::new(ProductId::new("p-2"), "Two", 30, 3))
        .unwrap();

    let response = OrderResponse::from(&order);
    assert_eq!(response.id, "order-7");
    assert_eq!(response.customer_id, "customer-7");
    assert_eq!(response.status, "PendingPayment");
    assert_eq!(response.total_amount, 290);
    assert_eq!(response.items.len(), 2);
    assert_eq!(response.items[0].product_id, "p-1");
    assert_eq!(response.items[0].quantity, 2);
    assert_eq!(response.items[0].unit_price, 100);
    assert_eq!(response.items[1].product_id, "p-2");
}

#[test]
fn test_generated_ids_are_uuid_shaped() {
    assert_eq!(ProductId::generate().to_string().len(), 36);
    assert_eq!(CustomerId::generate().to_string().len(), 36);
    assert_eq!(OrderId::generate().to_string().len(), 36);
    let order = Order::new(CustomerId::new("c"));
    assert_eq!(order.id().to_string().len(), 36);
}

#[test]
fn test_ids_from_string() {
    let product_id: ProductId = ProductId::from("p-5".to_string());
    assert_eq!(product_id.to_string(), "p-5");
    let customer_id: CustomerId = CustomerId::from("c-5".to_string());
    assert_eq!(customer_id.to_string(), "c-5");
}
