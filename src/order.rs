//! Placed orders and subscriptions, and how their amounts are shown.

use vstd::prelude::*;
use crate::cart::CartItem;
use crate::text::{digit_char, nat_text, push_nat, text};
use crate::user::ShippingAddress;

verus! {

#[derive(Debug, Clone, Copy, PartialEq, Eq, Structural)]
pub enum OrderStatus {
    Pending,
    Processing,
    Shipped,
    Delivered,
    Cancelled,
}

#[derive(Debug, Clone, Copy, PartialEq, Eq, Structural)]
pub enum SubscriptionStatus {
    Active,
    Paused,
    Cancelled,
}

impl OrderStatus {
    pub open spec fn label_spec(self) -> Seq<char> {
        match self {
            OrderStatus::Pending => "pending"@,
            OrderStatus::Processing => "processing"@,
            OrderStatus::Shipped => "shipped"@,
            OrderStatus::Delivered => "delivered"@,
            OrderStatus::Cancelled => "cancelled"@,
        }
    }

    pub fn label(&self) -> (r: String)
        ensures
            r@ == self.label_spec(),
    {
        match self {
            OrderStatus::Pending => text("pending"),
            OrderStatus::Processing => text("processing"),
            OrderStatus::Shipped => text("shipped"),
            OrderStatus::Delivered => text("delivered"),
            OrderStatus::Cancelled => text("cancelled"),
        }
    }
}

impl SubscriptionStatus {
    pub open spec fn label_spec(self) -> Seq<char> {
        match self {
            SubscriptionStatus::Active => "active"@,
            SubscriptionStatus::Paused => "paused"@,
            SubscriptionStatus::Cancelled => "cancelled"@,
        }
    }

    pub fn label(&self) -> (r: String)
        ensures
            r@ == self.label_spec(),
    {
        match self {
            SubscriptionStatus::Active => text("active"),
            SubscriptionStatus::Paused => text("paused"),
            SubscriptionStatus::Cancelled => text("cancelled"),
        }
    }
}

/// An amount in hundredths as `$`, a minus sign when negative, the whole
/// units and two decimals.
pub open spec fn money_text(cents: int) -> Seq<char> {
    let m = if cents < 0 { -cents } else { cents };
    let sign = if cents < 0 { seq!['-'] } else { Seq::<char>::empty() };
    seq!['$'] + sign + nat_text((m / 100) as nat) + seq!['.', digit_char((m % 100) / 10), digit_char(m % 10)]
}

fn money(cents: i32) -> (r: String)
    ensures
        r@ == money_text(cents as int),
{
    let mut s = text("$");
    let m: u64 = if cents < 0 {
        s.push('-');
        (-(cents as i64)) as u64
    } else {
        cents as u64
    };
    push_nat(&mut s, (m / 100) as u128);
    s.push('.');
    let c: u64 = m % 100;
    s.push((48u8 + (c / 10) as u8) as char);
    s.push((48u8 + (c % 10) as u8) as char);
    proof {
        reveal_strlit("$");
        assert((m % 100) % 10 == m % 10) by (nonlinear_arith);
    }
    assert(s@ =~= money_text(cents as int));
    s
}

/// A placed order. Times are milliseconds since the Unix epoch.
#[derive(Debug)]
pub struct Order {
    pub id: u128,
    pub user_id: u128,
    pub items: Vec<CartItem>,
    pub shipping_address: ShippingAddress,
    pub subtotal_cents: i32,
    pub shipping_cents: i32,
    pub total_cents: i32,
    pub status: OrderStatus,
    pub created_at: i64,
    pub updated_at: i64,
}

impl Order {
    pub fn total_display(&self) -> (r: String)
        ensures
            r@ == money_text(self.total_cents as int),
    {
        money(self.total_cents)
    }

    pub fn subtotal_display(&self) -> (r: String)
        ensures
            r@ == money_text(self.subtotal_cents as int),
    {
        money(self.subtotal_cents)
    }

    pub fn shipping_display(&self) -> (r: String)
        ensures
            r@ == money_text(self.shipping_cents as int),
    {
        money(self.shipping_cents)
    }
}

/// A recurring delivery of one product. Times are milliseconds since the
/// Unix epoch.
#[derive(Debug)]
pub struct Subscription {
    pub id: u128,
    pub user_id: u128,
    pub product_id: u128,
    pub product_name: String,
    pub status: SubscriptionStatus,
    pub next_delivery: Option<i64>,
    pub created_at: i64,
}

} // verus!
