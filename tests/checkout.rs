use storefront::app::{App, CheckoutStep, LoadingState, PaymentMethod, ShippingMode, Tab};
use storefront::events::{handle_key_event, Action, KeyCode, KeyPress};
use storefront::fields::InputField;
use storefront::identity::SshIdentity;
use storefront::product::{Product, ProductCategory, ProductType};
use storefront::region::Region;
use storefront::user::SavedAddress;

fn session() -> App {
    let mut app = App::new(SshIdentity { fingerprint: String::from("fp0123456789"), short_id: String::from("fp012345") });
    app.show_splash = false;
    app
}

fn product(id: u128) -> Product {
    Product {
        id,
        name: format!("p{}", id),
        slug: String::new(),
        description: String::new(),
        price_cents: 1000,
        category: ProductCategory::Featured,
        roast_level: None,
        weight_oz: 12,
        bean_type: String::new(),
        product_type: ProductType::OneTime,
        highlight_color: String::new(),
        region_id: String::from("global"),
        in_stock: true,
    }
}

fn saved(name: &str, street: &str, city: &str, postal: &str) -> SavedAddress {
    SavedAddress {
        id: Some(42),
        user_fingerprint: String::from("fp0123456789"),
        name: name.into(),
        street_1: street.into(),
        street_2: String::new(),
        city: city.into(),
        state: String::new(),
        country: String::new(),
        phone: String::new(),
        postal_code: postal.into(),
        created_at: None,
    }
}

fn type_text(app: &mut App, s: &str) {
    for c in s.chars() {
        app.handle_input_char(c);
    }
}

fn in_shipping(app: &mut App) {
    app.products = vec![product(1)];
    app.add_to_cart();
    app.next_checkout_step();
}

#[test]
fn nonempty_cart_advances_to_address_selection() {
    let mut app = session();
    app.address_select_index = 2;
    app.active_input = InputField::Name;
    app.next_checkout_step();
    assert_eq!(app.checkout_step, CheckoutStep::Cart);
    app.active_input = InputField::NoInput;
    in_shipping(&mut app);
    assert_eq!(app.checkout_step, CheckoutStep::Shipping);
    assert_eq!(app.shipping_mode, ShippingMode::SelectAddress);
    assert_eq!(app.address_select_index, 0);
    assert_eq!(app.active_input, InputField::NoInput);
}

#[test]
fn add_new_sentinel_opens_blank_form() {
    let mut app = session();
    in_shipping(&mut app);
    app.saved_addresses = vec![saved("Jane", "1 Main St", "Springfield", "00000")];
    app.shipping_address.name = String::from("left over");
    app.address_select_index = 1;
    app.select_address_option();
    assert_eq!(app.shipping_mode, ShippingMode::AddNewAddress);
    assert_eq!(app.active_input, InputField::Name);
    assert_eq!(app.shipping_address.name, "");
    assert_eq!(app.shipping_address.postal_code, "");
    assert_eq!(app.checkout_step, CheckoutStep::Shipping);
}

#[test]
fn saved_address_jumps_to_payment() {
    let mut app = session();
    in_shipping(&mut app);
    app.saved_addresses = vec![saved("Jane", "1 Main St", "Springfield", "00000")];
    app.address_select_index = 0;
    app.select_address_option();
    assert_eq!(app.checkout_step, CheckoutStep::Payment);
    assert_eq!(app.active_input, InputField::NoInput);
    assert_eq!(app.shipping_address.name, "Jane");
    assert_eq!(app.shipping_address.street_1, "1 Main St");
    assert_eq!(app.shipping_address.city, "Springfield");
    assert_eq!(app.shipping_address.postal_code, "00000");
}

#[test]
fn empty_street_blocks_shipping() {
    let mut app = session();
    in_shipping(&mut app);
    app.address_select_index = 0;
    app.select_address_option();
    type_text(&mut app, "Jane");
    let r = app.next_checkout_step();
    assert!(r.is_none());
    assert_eq!(app.checkout_step, CheckoutStep::Shipping);
    assert_eq!(app.shipping_mode, ShippingMode::AddNewAddress);
    assert_eq!(app.notification.as_deref(), Some("street can't be empty"));
    app.handle_input_char('x');
    assert!(app.notification.is_none());
}

#[test]
fn complete_new_address_passes_and_is_offered_for_saving() {
    let mut app = session();
    in_shipping(&mut app);
    app.select_address_option();
    for (f, v) in [
        (InputField::Name, "Jane"),
        (InputField::Street1, "1 Main St"),
        (InputField::City, "Springfield"),
        (InputField::Country, "US"),
        (InputField::Phone, "555"),
    ] {
        app.active_input = f;
        type_text(&mut app, v);
    }
    app.active_input = InputField::PostalCode;
    app.next_checkout_step();
    assert_eq!(app.notification.as_deref(), Some("postal code can't be empty"));
    type_text(&mut app, "00000");
    let r = app.next_checkout_step().unwrap();
    assert_eq!(r.street_1, "1 Main St");
    assert_eq!(r.user_fingerprint, "fp0123456789");
    assert_eq!(app.checkout_step, CheckoutStep::Payment);
    assert_eq!(app.active_input, InputField::NoInput);
    app.record_saved_address(r);
    assert_eq!(app.saved_addresses.len(), 1);
    assert!(app.address_to_save().is_none());
}

#[test]
fn card_payment_reaches_confirmation_then_cart() {
    let mut app = session();
    in_shipping(&mut app);
    app.saved_addresses = vec![saved("Jane", "1 Main St", "Springfield", "00000")];
    app.select_address_option();
    app.next_checkout_step();
    assert_eq!(app.checkout_step, CheckoutStep::Payment);
    app.payment_option_index = 0;
    app.select_payment_method();
    assert_eq!(app.payment_method, Some(PaymentMethod::Ssh));
    assert_eq!(app.active_input, InputField::PaymentName);
    app.next_checkout_step();
    assert_eq!(app.notification.as_deref(), Some("name can't be empty"));
    for (f, v) in [
        (InputField::PaymentName, "Jane"),
        (InputField::PaymentEmail, "j@x.io"),
        (InputField::CardNumber, "4242 4242 4242 4242 99"),
        (InputField::ExpiryMonth, "123"),
        (InputField::ExpiryYear, "2030"),
        (InputField::Cvv, "12a3"),
    ] {
        app.active_input = f;
        type_text(&mut app, v);
    }
    assert_eq!(app.payment_info.card_number, "4242424242424242");
    assert_eq!(app.payment_info.expiry_month, "12");
    assert_eq!(app.payment_info.cvv, "123");
    app.next_checkout_step();
    assert_eq!(app.checkout_step, CheckoutStep::Confirmation);
    app.next_checkout_step();
    assert!(app.cart.is_empty());
    assert_eq!(app.checkout_step, CheckoutStep::Cart);
    assert_eq!(app.current_tab, Tab::Home);
}

#[test]
fn browser_payment_is_unconditional() {
    let mut app = session();
    app.checkout_step = CheckoutStep::Payment;
    app.next_checkout_step();
    assert_eq!(app.checkout_step, CheckoutStep::Payment);
    app.payment_option_index = 1;
    app.select_payment_method();
    assert_eq!(app.active_input, InputField::NoInput);
    app.next_checkout_step();
    assert_eq!(app.checkout_step, CheckoutStep::Confirmation);
}

#[test]
fn retreat_walks_back() {
    let mut app = session();
    app.checkout_step = CheckoutStep::Confirmation;
    app.payment_method = Some(PaymentMethod::Ssh);
    app.notification = Some(String::from("x"));
    app.prev_checkout_step();
    assert_eq!(app.checkout_step, CheckoutStep::Payment);
    assert_eq!(app.active_input, InputField::PaymentName);
    assert!(app.notification.is_none());
    app.prev_checkout_step();
    assert_eq!(app.checkout_step, CheckoutStep::Shipping);
    assert_eq!(app.payment_method, None);
    assert_eq!(app.shipping_mode, ShippingMode::SelectAddress);
    app.shipping_mode = ShippingMode::AddNewAddress;
    app.prev_checkout_step();
    assert_eq!(app.shipping_mode, ShippingMode::SelectAddress);
    assert_eq!(app.checkout_step, CheckoutStep::Shipping);
    app.prev_checkout_step();
    assert_eq!(app.checkout_step, CheckoutStep::Cart);
    app.prev_checkout_step();
    assert_eq!(app.current_tab, Tab::Shop);
}

#[test]
fn three_prev_actions_cycle_back() {
    let mut app = session();
    app.products = vec![product(1), product(2), product(3)];
    app.prev_product();
    assert_eq!(app.selected_product_index, 2);
    app.prev_product();
    assert_eq!(app.selected_product_index, 1);
    app.prev_product();
    assert_eq!(app.selected_product_index, 0);
    app.next_product();
    app.next_product();
    app.next_product();
    assert_eq!(app.selected_product_index, 0);
}

#[test]
fn navigation_on_empty_lists_does_nothing() {
    let mut app = session();
    app.next_product();
    app.prev_product();
    app.next_cart_item();
    app.prev_cart_item();
    assert_eq!(app.selected_product_index, 0);
    assert_eq!(app.cart_item_index, 0);
    app.prev_address_option();
    assert_eq!(app.address_select_index, 0);
    app.next_payment_option();
    assert_eq!(app.payment_option_index, 1);
    app.next_payment_option();
    assert_eq!(app.payment_option_index, 0);
    app.prev_payment_option();
    assert_eq!(app.payment_option_index, 1);
}

#[test]
fn selecting_a_product_resets_quantity() {
    let mut app = session();
    app.products = vec![product(1), product(2)];
    app.raise_quantity();
    app.raise_quantity();
    assert_eq!(app.product_quantity, 3);
    app.next_product();
    assert_eq!(app.product_quantity, 1);
    app.lower_quantity();
    assert_eq!(app.product_quantity, 1);
    app.product_quantity = 99;
    app.raise_quantity();
    assert_eq!(app.product_quantity, 99);
}

#[test]
fn decrementing_last_line_moves_selection() {
    let mut app = session();
    app.products = vec![product(1), product(2)];
    app.add_to_cart();
    app.next_product();
    app.add_to_cart();
    app.cart_item_index = 1;
    app.increment_selected_line();
    assert_eq!(app.cart.items[1].quantity, 2);
    app.decrement_selected_line();
    app.decrement_selected_line();
    assert_eq!(app.cart.items.len(), 1);
    assert_eq!(app.cart_item_index, 0);
}

#[test]
fn saved_addresses_keep_three_newest_first() {
    let mut app = session();
    for i in 0..4 {
        app.record_saved_address(saved(&format!("n{}", i), "s", "c", "p"));
    }
    assert_eq!(app.saved_addresses.len(), 3);
    assert_eq!(app.saved_addresses[0].name, "n3");
    app.address_select_index = 3;
    assert_eq!(app.forget_saved_address(2), Some(42));
    assert_eq!(app.saved_addresses.len(), 2);
    assert_eq!(app.address_select_index, 2);
    assert_eq!(app.forget_saved_address(9), None);
    app.address_select_index = 0;
    assert_eq!(app.remove_selected_address(), Some(42));
    assert_eq!(app.saved_addresses.len(), 1);
}

#[test]
fn region_loading_outcomes() {
    let mut app = session();
    assert!(!app.load_regions_cached());
    assert_eq!(app.loading, LoadingState::Loading);
    app.apply_regions(Err(String::from("timeout")));
    assert_eq!(app.loading, LoadingState::Error);
    assert_eq!(app.notification.as_deref(), Some("Failed to load regions: timeout"));
    assert_eq!(app.regions.len(), 1);
    let mut eu = Region::default();
    eu.id = String::from("eu");
    let mut us = Region::default();
    us.id = String::from("us");
    app.region.id = String::new();
    app.apply_regions(Ok(vec![eu.clone(), us.clone()]));
    assert_eq!(app.region.id, "eu");
    assert_eq!(app.loading, LoadingState::Idle);
    app.regions = Vec::new();
    assert!(app.load_regions_cached());
    assert_eq!(app.regions.len(), 2);
    assert!(app.cycle_region());
    assert_eq!(app.region.id, "us");
    assert!(app.cycle_region());
    assert_eq!(app.region.id, "eu");
}

#[test]
fn product_loading_outcomes() {
    let mut app = session();
    assert!(!app.load_products_cached());
    app.apply_products(Ok(vec![product(1)]));
    assert_eq!(app.products.len(), 1);
    app.products = Vec::new();
    assert!(app.load_products_cached());
    assert_eq!(app.products.len(), 1);
    app.apply_products(Err(String::from("500")));
    assert!(app.products.is_empty());
    assert_eq!(app.notification.as_deref(), Some("Failed to load products: 500"));
}

#[test]
fn keys_map_to_actions() {
    let mut app = session();
    let key = |c| KeyPress { code: KeyCode::Char(c), ctrl: false };
    assert_eq!(handle_key_event(&app, key('q')), Action::Quit);
    assert_eq!(handle_key_event(&app, KeyPress { code: KeyCode::Char('c'), ctrl: true }), Action::Quit);
    assert_eq!(handle_key_event(&app, key('c')), Action::ShowTab(Tab::Cart));
    assert_eq!(handle_key_event(&app, key('r')), Action::CycleRegion);
    app.current_tab = Tab::Shop;
    assert_eq!(handle_key_event(&app, key('k')), Action::PrevProduct);
    assert_eq!(handle_key_event(&app, key('+')), Action::RaiseQuantity);
    app.current_tab = Tab::Cart;
    assert_eq!(handle_key_event(&app, KeyPress { code: KeyCode::Enter, ctrl: false }), Action::Advance);
    app.checkout_step = CheckoutStep::Shipping;
    assert_eq!(handle_key_event(&app, key('x')), Action::RemoveAddress);
    app.active_input = InputField::Name;
    assert_eq!(handle_key_event(&app, key('q')), Action::TypeChar('q'));
    assert_eq!(handle_key_event(&app, KeyPress { code: KeyCode::Tab, ctrl: false }), Action::NextField);
    app.show_splash = true;
    assert_eq!(handle_key_event(&app, key('z')), Action::SkipSplash);
}

#[test]
fn tab_moves_through_fields() {
    let mut app = session();
    app.checkout_step = CheckoutStep::Shipping;
    app.active_input = InputField::PostalCode;
    app.notification = Some(String::from("n"));
    app.next_input_field();
    assert_eq!(app.active_input, InputField::Name);
    assert!(app.notification.is_none());
    app.checkout_step = CheckoutStep::Payment;
    app.payment_method = Some(PaymentMethod::Browser);
    app.next_input_field();
    assert_eq!(app.active_input, InputField::Name);
    app.payment_method = Some(PaymentMethod::Ssh);
    app.active_input = InputField::Cvv;
    app.next_input_field();
    assert_eq!(app.active_input, InputField::PaymentName);
}

#[test]
fn backspace_edits_active_field() {
    let mut app = session();
    app.active_input = InputField::City;
    type_text(&mut app, "Rome");
    app.handle_input_backspace();
    assert_eq!(app.shipping_address.city, "Rom");
    app.active_input = InputField::Cvv;
    app.handle_input_backspace();
    assert_eq!(app.payment_info.cvv, "");
    app.active_input = InputField::NoInput;
    app.handle_input_char('z');
    assert_eq!(app.shipping_address.city, "Rom");
}

#[test]
fn splash_times_out_after_five_seconds() {
    let mut app = session();
    app.show_splash = true;
    app.splash_elapsed(4_999);
    assert!(app.show_splash);
    app.splash_elapsed(5_000);
    assert!(!app.show_splash);
    app.show_splash = true;
    app.check_splash_timeout();
    assert!(app.show_splash);
    app.skip_splash();
    assert!(!app.show_splash);
}

#[test]
fn shipping_is_free_from_threshold() {
    let mut app = session();
    let mut p = product(1);
    p.price_cents = 3999;
    app.products = vec![p];
    app.add_to_cart();
    assert_eq!(app.region.free_shipping_threshold, 40);
    assert_eq!(app.shipping_cents(), 800);
    assert_eq!(app.order_total_cents(), 4799);
    let mut q = product(2);
    q.price_cents = 1;
    app.products = vec![q];
    app.selected_product_index = 0;
    app.add_to_cart();
    assert_eq!(app.cart.subtotal_cents(), 4000);
    assert_eq!(app.shipping_cents(), 0);
    assert_eq!(app.order_total_cents(), 4000);
}

fn region(id: &str) -> Region {
    let mut r = Region::default();
    r.id = id.to_string();
    r.name = id.to_uppercase();
    r
}

#[test]
fn loaded_regions_hold_the_current_one() {
    let mut app = session();
    assert_eq!(app.region.id, "global");
    app.apply_regions(Ok(vec![region("eu"), region("us")]));
    assert_eq!(app.region.id, "eu");
    assert!(app.regions.iter().any(|r| r.id == app.region.id));
    app.region = region("us");
    app.region.name = String::from("stale");
    app.apply_regions(Ok(vec![region("eu"), region("us")]));
    assert_eq!(app.region.id, "us");
    assert_eq!(app.region.name, "US");
}

#[test]
fn cached_regions_replace_an_unlisted_current_one() {
    let mut app = session();
    app.apply_regions(Ok(vec![region("eu"), region("us")]));
    app.region = region("jp");
    assert!(app.load_regions_cached());
    assert_eq!(app.region.id, "eu");
    app.region = region("us");
    assert!(app.load_regions_cached());
    assert_eq!(app.region.id, "us");
}

#[test]
fn failed_or_empty_region_load_uses_the_built_in_region() {
    let mut app = session();
    app.region = region("eu");
    app.apply_regions(Ok(Vec::new()));
    assert_eq!(app.region.id, "global");
    assert_eq!(app.regions.len(), 1);
    app.region = region("eu");
    app.apply_regions(Err(String::from("down")));
    assert_eq!(app.region.id, "global");
    assert_eq!(app.regions[0].id, "global");
}
