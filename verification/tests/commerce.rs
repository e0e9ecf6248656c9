use rust_workbench::commerce::analytics::Analytics;
use rust_workbench::commerce::cache::ProductCache;
use rust_workbench::commerce::inventory::{find_sku, set_stock_at, upsert_product};
use rust_workbench::commerce::messaging::MessageBus;
use rust_workbench::commerce::checkout::CheckoutService;
use rust_workbench::commerce::domain::{Address, Customer, Money, Order, OrderLine, Product, Sku};
use rust_workbench::commerce::fulfillment::create_shipment;
use rust_workbench::commerce::messaging::publish_twice;
use rust_workbench::commerce::reports::{customer_summary, render_order, render_two_formats};
use rust_workbench::commerce::sample::{sample_order, seed_catalog};
use rust_workbench::commerce::catalog::Catalog;
use rust_workbench::stress_cases::{
    configure_defaults, method_not_available, return_local_reference, temporary_lifetime,
    type_mismatch, update_ledger,
};
use rust_workbench::valid_patterns::{
    closure_shape, conditional_shape, nested_wrapper_shape, read_heavy_configuration,
    runtime_checked_mutation, shared_local_state, shared_readers, synchronized_wrapper_shape,
    trait_object_shapes, CowText, Describe,
};

#[test]
fn the_sample_order_costs_book_plus_two_plushes() {
    let mut catalog = seed_catalog();
    let order = sample_order();
    let checkout = CheckoutService::new(&mut catalog);
    assert_eq!(checkout.preview(&order).cents(), 3999 + 2 * 2499);
    assert_eq!(order.total().cents(), 8997);
}

#[test]
fn reserving_takes_stock_only_when_enough_is_left() {
    let mut catalog = seed_catalog();
    let plush = Sku::new("FERRIS-PLUSH");
    assert!(catalog.reserve(&plush, 4));
    assert_eq!(catalog.get(&plush).unwrap().stock, 6);
    assert!(!catalog.reserve(&plush, 7));
    assert_eq!(catalog.get(&plush).unwrap().stock, 6);
    assert!(!catalog.reserve(&Sku::new("NOPE"), 1));
}

#[test]
fn quotes_price_the_listed_units_and_reserve_them() {
    let mut catalog = seed_catalog();
    let book = Sku::new("RUST-BOOK");
    assert_eq!(catalog.quote_and_reserve(&book, 3).map(Money::cents), Some(3 * 3999));
    assert_eq!(catalog.get(&book).unwrap().stock, 22);
    assert_eq!(catalog.quote_and_reserve(&book, 100).map(Money::cents), Some(100 * 3999));
    assert_eq!(catalog.get(&book).unwrap().stock, 22);
    assert!(catalog.quote_and_reserve(&Sku::new("NOPE"), 1).is_none());
}

#[test]
fn stock_moves_between_entries() {
    let mut catalog = seed_catalog();
    let book = Sku::new("RUST-BOOK");
    let plush = Sku::new("FERRIS-PLUSH");
    catalog.transfer_stock(&book, &plush, 5);
    assert_eq!(catalog.get(&book).unwrap().stock, 20);
    assert_eq!(catalog.get(&plush).unwrap().stock, 15);
}

#[test]
fn a_later_listing_replaces_an_earlier_one() {
    let catalog = Catalog::new(vec![
        Product::new(Sku::new("A"), "first", Money::usd(100), 1),
        Product::new(Sku::new("A"), "second", Money::usd(200), 2),
    ]);
    let entry = catalog.get(&Sku::new("A")).unwrap();
    assert_eq!(entry.name, "second");
    assert_eq!(entry.stock, 2);
}

#[test]
fn checkout_records_completed_orders_and_prices_detached_ones() {
    let mut catalog = seed_catalog();
    let mut checkout = CheckoutService::new(&mut catalog);
    assert_eq!(checkout.detach_customer_then_price(sample_order()).cents(), 8997);
    assert_eq!(checkout.archive_then_total(sample_order()).cents(), 8997);
    checkout.complete(sample_order());
}

#[test]
fn shipments_go_to_the_customer_address_with_a_standard_label() {
    let shipment = create_shipment(sample_order());
    assert_eq!(shipment.order_id, "ORDER-2026-0001");
    assert_eq!(shipment.destination.city, "London");
    assert_eq!(shipment.labels, ["standard"]);
}

#[test]
fn reports_name_the_customer_and_total() {
    let customer = Customer::new(7, "Grace", "grace@example.test", Address::new("1 Way", "York", "Y1"));
    assert_eq!(customer_summary(customer), "Grace <grace@example.test>");
    assert_eq!(
        render_order(sample_order()),
        "ORDER-2026-0001: Ada Lovelace <ada@example.test>; total=8997"
    );
    let (text, html) = render_two_formats(sample_order());
    assert_eq!(text, html);
    assert_eq!(publish_twice(sample_order()), ["delivering order ORDER-2026-0001", "delivering order ORDER-2026-0001"]);
}

#[test]
fn refunds_can_make_an_order_total_negative() {
    let customer = Customer::new(1, "A", "a@b", Address::new("s", "c", "p"));
    let order = Order::new(
        "R-1",
        customer,
        vec![OrderLine::new(Sku::new("X"), 2, Money::usd(-150))],
    );
    assert_eq!(order.total().cents(), -300);
    assert_eq!(render_order(order), "R-1: A <a@b>; total=-300");
}

#[test]
fn stress_cases_compute_their_repaired_results() {
    assert_eq!(update_ledger(), vec![100, 200, 300, -25, 25]);
    assert_eq!(configure_defaults(), vec![1, 2, 3, 0]);
    assert_eq!(type_mismatch(), 12);
    assert_eq!(temporary_lifetime(), "temporary");
    assert_eq!(return_local_reference(), "local");
    assert_eq!(method_not_available(), vec![3, 4]);
}

#[test]
fn valid_patterns_compute_their_shapes() {
    assert_eq!(nested_wrapper_shape(), 2);
    assert_eq!(synchronized_wrapper_shape(), 8);
    assert_eq!(shared_readers(), 6);
    assert_eq!(shared_local_state(), 15);
    assert_eq!(runtime_checked_mutation(), vec!["started", "finished"]);
    assert_eq!(read_heavy_configuration(), 5);
    assert!(matches!(conditional_shape("ferris", true), CowText::Owned(s) if s == "FERRIS"));
    assert!(matches!(conditional_shape("ferris", false), CowText::Borrowed("ferris")));
    let mut labeler = closure_shape("item".to_owned());
    assert_eq!(labeler.label(4), "item: 4 (call 1)");
    assert_eq!(labeler.label(9), "item: 9 (call 2)");
}

#[test]
fn money_adds_and_multiplies_in_cents() {
    assert_eq!(Money::zero().cents(), 0);
    assert_eq!(Money::usd(250).plus(Money::usd(199)).cents(), 449);
    assert_eq!(Money::usd(2499).times(3).cents(), 7497);
    assert!(Sku::new("A").same_as(&Sku::new("A")));
    assert!(!Sku::new("A").same_as(&Sku::new("B")));
}

#[test]
fn inventory_tables_find_and_replace_by_unit() {
    let mut products = Vec::new();
    upsert_product(&mut products, Product::new(Sku::new("A"), "a", Money::usd(1), 1));
    upsert_product(&mut products, Product::new(Sku::new("B"), "b", Money::usd(2), 2));
    upsert_product(&mut products, Product::new(Sku::new("A"), "a2", Money::usd(3), 3));
    assert_eq!(products.len(), 2);
    assert_eq!(find_sku(&products, &Sku::new("A")), Some(0));
    assert_eq!(products[0].name, "a2");
    assert_eq!(find_sku(&products, &Sku::new("C")), None);
    set_stock_at(&mut products, 1, 9);
    assert_eq!(products[1].stock, 9);
}

#[test]
fn caches_and_buses_accept_their_calls() {
    let mut cache = ProductCache::new();
    cache.insert(Product::new(Sku::new("A"), "a", Money::usd(1), 2));
    cache.decrement_cached_stock(&Sku::new("A"));
    cache.rename_shared_product(&Sku::new("A"));
    cache.overwrite_recent_ends();
    let mut bus = MessageBus::new();
    bus.subscribe("orders");
    bus.subscribe("stock");
    bus.unsubscribe("orders");
    let mut catalog = seed_catalog();
    catalog.rename_feature_ends();
}

#[test]
fn trait_objects_describe_themselves() {
    let text = String::from("borrowed");
    let (described, boxed) = trait_object_shapes(&text);
    assert_eq!(described, "borrowed");
    assert_eq!(boxed.describe(), "owned trait object");
    assert_eq!(String::from("plain").describe(), "plain");
}

#[test]
fn labels_take_any_unsigned_value() {
    let mut labeler = closure_shape("p".to_owned());
    assert_eq!(labeler.label(7), "p: 7 (call 1)");
    assert_eq!(labeler.label(usize::MAX), format!("p: {} (call 2)", usize::MAX));
}

#[test]
fn catalog_reads_back_reservations_and_transfers() {
    let mut catalog = seed_catalog();
    let book = Sku::new("RUST-BOOK");
    let plush = Sku::new("FERRIS-PLUSH");
    let book_before = catalog.get(&book).unwrap().clone();
    assert!(catalog.reserve(&plush, 3));
    assert_eq!(catalog.get(&plush).unwrap().stock, 7);
    assert_eq!(catalog.get(&book).unwrap().stock, book_before.stock);
    catalog.transfer_stock(&plush, &book, 2);
    assert_eq!(catalog.get(&plush).unwrap().stock, 5);
    assert_eq!(catalog.get(&book).unwrap().stock, book_before.stock + 2);
    assert_eq!(catalog.get(&book).unwrap().name, book_before.name);
}

#[test]
fn analytics_duplicates_and_redacts_the_latest_event() {
    let mut analytics = Analytics::new();
    analytics.track_order(&sample_order());
    assert_eq!(analytics.duplicate_latest(), "order:ORDER-2026-0001:8997");
    assert_eq!(analytics.redact_latest(), "order");
    assert_eq!(analytics.duplicate_latest(), "redacted");
    assert_eq!(analytics.redact_latest(), "redacted");
    analytics.clear_history();
}

#[test]
fn catalog_duplicates_its_first_feature_and_evicts_by_unit() {
    let mut catalog = seed_catalog();
    assert_eq!(catalog.duplicate_first_feature().0, "RUST-BOOK");
    assert_eq!(catalog.duplicate_first_feature().0, "RUST-BOOK");
    let book = Sku::new("RUST-BOOK");
    assert_eq!(catalog.evict_while_reporting(&book), "The Rust Programming Language");
    assert!(catalog.get(&book).is_none());
    assert_eq!(catalog.get(&Sku::new("FERRIS-PLUSH")).unwrap().stock, 10);
}

#[test]
fn cache_evicts_entries_and_compacts_recent_units() {
    let mut cache = ProductCache::new();
    cache.insert(Product::new(Sku::new("A"), "first", Money::usd(1), 2));
    cache.insert(Product::new(Sku::new("B"), "second", Money::usd(2), 3));
    assert_eq!(cache.evict_while_viewed(&Sku::new("A")), "first");
    assert_eq!(cache.compact_recent().0, "B");
    cache.overwrite_recent_ends();
    assert_eq!(cache.compact_recent().0, "B");
}

#[test]
fn reservations_keep_each_listing_on_the_seed_catalog() {
    let mut catalog = seed_catalog();
    let book = Sku::new("RUST-BOOK");
    let plush = Sku::new("FERRIS-PLUSH");
    for (sku, quantity) in [(&book, 5), (&plush, 11), (&plush, 4), (&book, 30), (&plush, 6)] {
        catalog.reserve(sku, quantity);
    }
    let b = catalog.get(&book).unwrap();
    assert_eq!(b.name, "The Rust Programming Language");
    assert_eq!(b.price.cents(), 3999);
    assert_eq!(b.stock, 20);
    let p = catalog.get(&plush).unwrap();
    assert_eq!(p.name, "Ferris plush toy");
    assert_eq!(p.price.cents(), 2499);
    assert_eq!(p.stock, 0);
    assert!(catalog.get(&Sku::new("NOPE")).is_none());
}
