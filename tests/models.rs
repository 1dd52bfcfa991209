use storefront::fields::InputField;
use storefront::order::{Order, OrderStatus, SubscriptionStatus};
use storefront::product::{Product, ProductCategory, ProductType, RoastLevel};
use storefront::region::Region;
use storefront::user::{PaymentInfo, SavedAddress, ShippingAddress};

fn address(name: &str, street: &str, city: &str, postal: &str) -> ShippingAddress {
    ShippingAddress {
        name: name.to_string(),
        street_1: street.to_string(),
        street_2: String::new(),
        city: city.to_string(),
        state: String::new(),
        country: String::new(),
        phone: String::new(),
        postal_code: postal.to_string(),
    }
}

#[test]
fn shipping_field_order_cycles() {
    assert_eq!(InputField::shipping_fields().len(), 8);
    assert_eq!(InputField::Name.next_shipping(), InputField::Street1);
    assert_eq!(InputField::City.next_shipping(), InputField::State);
    assert_eq!(InputField::PostalCode.next_shipping(), InputField::Name);
    assert_eq!(InputField::NoInput.next_shipping(), InputField::Street1);
}

#[test]
fn payment_field_order_cycles() {
    assert_eq!(InputField::payment_fields()[0], InputField::PaymentName);
    assert_eq!(InputField::PaymentName.next_payment(), InputField::PaymentEmail);
    assert_eq!(InputField::Cvv.next_payment(), InputField::PaymentName);
    assert_eq!(InputField::Name.next_payment(), InputField::PaymentEmail);
}

#[test]
fn address_line_skips_empty_parts() {
    let a = address("Jane", "1 Main St", "Springfield", "00000");
    assert_eq!(a.display_line(), "1 Main St, Springfield, 00000");
    assert_eq!(address("", "", "", "").display_line(), "");
    let mut b = address("Jo", "", "Paris", "");
    b.country = String::from("France");
    assert_eq!(b.display_line(), "Paris, France");
}

#[test]
fn address_completeness_ignores_phone() {
    let mut a = address("Jane", "1 Main St", "Springfield", "00000");
    assert!(!a.is_complete());
    a.country = String::from("US");
    assert!(a.is_complete());
    a.street_1 = String::new();
    assert!(!a.is_complete());
}

#[test]
fn saved_address_round_trip() {
    let mut a = address("Jane", "1 Main St", "Springfield", "00000");
    a.phone = String::from("555");
    let s = SavedAddress::from_shipping(&a, "abc123");
    assert_eq!(s.user_fingerprint, "abc123");
    assert!(s.id.is_none() && s.created_at.is_none());
    assert_eq!(s.display_line(), "1 Main St, Springfield, 00000");
    let back = s.to_shipping();
    assert_eq!(back.name, "Jane");
    assert_eq!(back.phone, "555");
    assert_eq!(back.postal_code, "00000");
}

#[test]
fn payment_completeness_and_mask() {
    let mut p = PaymentInfo::default();
    assert!(!p.is_complete());
    assert_eq!(p.masked_card(), "****");
    p.name = "Jane".into();
    p.email = "j@x.io".into();
    p.card_number = "4242424242421234".into();
    p.expiry_month = "12".into();
    p.expiry_year = "2030".into();
    p.cvv = "123".into();
    assert!(p.is_complete());
    assert_eq!(p.masked_card(), "**** **** **** 1234");
    p.card_number = "123".into();
    assert_eq!(p.masked_card(), "****");
}

#[test]
fn product_texts() {
    let mut p = Product {
        id: 1,
        name: "Cron".into(),
        slug: "cron".into(),
        description: String::new(),
        price_cents: 2250,
        category: ProductCategory::Originals,
        roast_level: Some(RoastLevel::Dark),
        weight_oz: 12,
        bean_type: "arabica".into(),
        product_type: ProductType::OneTime,
        highlight_color: String::new(),
        region_id: "global".into(),
        in_stock: true,
    };
    assert_eq!(p.price_display(), "$22");
    assert_eq!(p.details_line(), "dark roast | 12oz | arabica");
    p.roast_level = None;
    assert_eq!(p.details_line(), "12oz");
    p.price_cents = -150;
    assert_eq!(p.price_display(), "$-1");
    assert_eq!(ProductCategory::Featured.label(), "~ featured ~");
    assert_eq!(RoastLevel::Light.label(), "light roast");
}

#[test]
fn order_amounts_have_two_decimals() {
    let o = Order {
        id: 1,
        user_id: 2,
        items: Vec::new(),
        shipping_address: address("", "", "", ""),
        subtotal_cents: 1234,
        shipping_cents: 5,
        total_cents: -5,
        status: OrderStatus::Shipped,
        created_at: 0,
        updated_at: 0,
    };
    assert_eq!(o.subtotal_display(), "$12.34");
    assert_eq!(o.shipping_display(), "$0.05");
    assert_eq!(o.total_display(), "$-0.05");
    assert_eq!(o.subtotal_display(), format!("${:.2}", 1234 as f64 / 100.0));
    assert_eq!(OrderStatus::Shipped.label(), "shipped");
    assert_eq!(SubscriptionStatus::Paused.label(), "paused");
}

#[test]
fn default_region_is_global() {
    let r = Region::default();
    assert_eq!(r.id, "global");
    assert_eq!(r.code, "Global");
    assert_eq!(r.currency, "USD");
    assert_eq!(r.free_shipping_threshold, 40);
}
