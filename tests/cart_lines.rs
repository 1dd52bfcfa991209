use storefront::cart::{Cart, CartItem};
use storefront::product::{Product, ProductCategory, ProductType, RoastLevel};

fn product(id: u128, price_cents: i32) -> Product {
    Product {
        id,
        name: format!("coffee {}", id),
        slug: format!("coffee-{}", id),
        description: String::from("beans"),
        price_cents,
        category: ProductCategory::Featured,
        roast_level: Some(RoastLevel::Medium),
        weight_oz: 12,
        bean_type: String::from("arabica"),
        product_type: ProductType::OneTime,
        highlight_color: String::from("pink"),
        region_id: String::from("global"),
        in_stock: true,
    }
}

#[test]
fn adding_merges_lines_per_product() {
    let mut cart = Cart::new();
    cart.add_item(product(1, 2200), 2);
    cart.add_item(product(2, 1800), 1);
    cart.add_item(product(1, 2200), 3);
    cart.add_item(product(3, 1500), 4);
    cart.add_item(product(2, 1800), 5);
    assert_eq!(cart.items.len(), 3);
    assert_eq!(cart.items[0].product.id, 1);
    assert_eq!(cart.items[0].quantity, 5);
    assert_eq!(cart.items[1].product.id, 2);
    assert_eq!(cart.items[1].quantity, 6);
    assert_eq!(cart.items[2].product.id, 3);
    assert_eq!(cart.items[2].quantity, 4);
    assert_eq!(cart.total_items(), 15);
}

#[test]
fn new_lines_get_distinct_ids() {
    let mut cart = Cart::new();
    cart.add_item(product(1, 100), 1);
    cart.add_item(product(2, 100), 1);
    assert_ne!(cart.items[0].id, cart.items[1].id);
}

#[test]
fn decrement_reduces_then_removes() {
    let mut cart = Cart::new();
    cart.add_item(product(7, 1000), 2);
    cart.decrement_item(7);
    assert_eq!(cart.items.len(), 1);
    assert_eq!(cart.items[0].quantity, 1);
    cart.decrement_item(7);
    assert!(cart.is_empty());
    cart.decrement_item(7);
    assert!(cart.is_empty());
}

#[test]
fn increment_adds_one() {
    let mut cart = Cart::new();
    cart.add_item(product(4, 1000), 1);
    cart.increment_item(4);
    cart.increment_item(9);
    assert_eq!(cart.items.len(), 1);
    assert_eq!(cart.items[0].quantity, 2);
}

#[test]
fn update_quantity_sets_or_removes() {
    let mut cart = Cart::new();
    cart.add_item(product(1, 500), 1);
    cart.add_item(product(2, 500), 1);
    cart.update_quantity(1, 7);
    assert_eq!(cart.items[0].quantity, 7);
    cart.update_quantity(1, 0);
    assert_eq!(cart.items.len(), 1);
    assert_eq!(cart.items[0].product.id, 2);
    cart.update_quantity(2, -3);
    assert!(cart.is_empty());
    cart.update_quantity(5, 3);
    assert!(cart.is_empty());
}

#[test]
fn remove_is_idempotent() {
    let mut cart = Cart::new();
    cart.add_item(product(1, 500), 1);
    cart.add_item(product(2, 500), 2);
    cart.remove_item(1);
    cart.remove_item(1);
    assert_eq!(cart.items.len(), 1);
    assert_eq!(cart.items[0].product.id, 2);
    cart.clear();
    assert!(cart.is_empty());
    assert_eq!(cart.total_items(), 0);
}

#[test]
fn subtotal_is_exact() {
    let mut cart = Cart::new();
    cart.add_item(product(1, 1999), 3);
    cart.add_item(product(2, 1), 7);
    cart.add_item(product(3, 2_000_000_000), 2);
    assert_eq!(cart.subtotal_cents(), 1999 * 3 + 7 + 4_000_000_000);
    assert_eq!(cart.subtotal_display(), "$40000060");
    assert_eq!(Cart::new().subtotal_cents(), 0);
}

#[test]
fn line_totals_do_not_overflow() {
    let item = CartItem { id: 1, product: product(1, i32::MAX), quantity: i32::MAX };
    assert_eq!(item.total_cents(), (i32::MAX as i64) * (i32::MAX as i64));
    let small = CartItem { id: 2, product: product(2, 1850), quantity: 2 };
    assert_eq!(small.total_cents(), 3700);
    assert_eq!(small.total_display(), "$37");
}

#[test]
fn quantity_lookup() {
    let mut cart = Cart::new();
    cart.add_item(product(3, 10), 4);
    assert_eq!(cart.line_quantity(3), 4);
    assert_eq!(cart.line_quantity(4), 0);
}
