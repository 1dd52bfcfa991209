//! The session: checkout state machine, form editing, navigation, and
//! the steps of loading data around the backend calls.

use vstd::prelude::*;
use std::time::Instant;
use crate::cache::{products_key, regions_key, DataCache};
use crate::cart::{added, lemma_subtotal_bound, line_total_limit, subtotal_of, Cart};
use crate::clock::{clock_start, millis_since};
use crate::fields::{next_in, payment_order, shipping_order, InputField};
use crate::identity::SshIdentity;
use crate::order::{Order, Subscription};
use crate::product::Product;
use crate::region::Region;
use crate::text::text;
use crate::user::{PaymentInfo, SavedAddress, ShippingAddress};

verus! {

/// Main screens.
#[derive(Debug, Clone, Copy, PartialEq, Eq, Structural)]
pub enum Tab {
    Home,
    Shop,
    Account,
    Cart,
}

/// Sections of the account screen.
#[derive(Debug, Clone, Copy, PartialEq, Eq, Structural)]
pub enum AccountSection {
    OrderHistory,
    Subscriptions,
    Faq,
    About,
}

/// Coarse stage of a checkout.
#[derive(Debug, Clone, Copy, PartialEq, Eq, Structural)]
pub enum CheckoutStep {
    Cart,
    Shipping,
    Payment,
    Confirmation,
}

/// Within the shipping step: picking a saved address or typing a new one.
#[derive(Debug, Clone, Copy, PartialEq, Eq, Structural)]
pub enum ShippingMode {
    SelectAddress,
    AddNewAddress,
}

/// How the order is paid: with the card form, or handed to a browser.
#[derive(Debug, Clone, Copy, PartialEq, Eq, Structural)]
pub enum PaymentMethod {
    Ssh,
    Browser,
}

/// Progress of the last backend load.
#[derive(Debug, Clone, Copy, PartialEq, Eq, Structural)]
pub enum LoadingState {
    Idle,
    Loading,
    Error,
}

/// Most addresses kept per user.
pub const MAX_SAVED_ADDRESSES: usize = 3;

/// Shipping charge, in hundredths, for orders below the free-shipping
/// threshold.
pub const SHIPPING_FEE_CENTS: i128 = 800;

/// Shipping is free from the region's threshold, in whole units, on.
pub open spec fn shipping_fee(subtotal: int, threshold: int) -> int {
    if subtotal >= threshold * 100 {
        0
    } else {
        SHIPPING_FEE_CENTS as int
    }
}

/// Seconds the splash screen stays up.
pub const SPLASH_SECONDS: u64 = 5;

/// The state of one shopping session: what is shown and selected, the cart,
/// the forms being filled in and the data loaded from the backend. Backend
/// calls are made by the caller, which hands their results back.
pub struct App {
    pub running: bool,
    pub current_tab: Tab,
    pub region: Region,
    pub regions: Vec<Region>,
    pub products: Vec<Product>,
    pub cart: Cart,
    pub orders: Vec<Order>,
    pub subscriptions: Vec<Subscription>,
    pub selected_product_index: usize,
    pub product_quantity: i32,
    pub account_section: AccountSection,
    pub checkout_step: CheckoutStep,
    pub cart_item_index: usize,
    pub payment_option_index: usize,
    pub payment_method: Option<PaymentMethod>,
    pub shipping_address: ShippingAddress,
    pub saved_addresses: Vec<SavedAddress>,
    pub shipping_mode: ShippingMode,
    pub address_select_index: usize,
    pub payment_info: PaymentInfo,
    pub active_input: InputField,
    pub notification: Option<String>,
    pub loading: LoadingState,
    pub show_splash: bool,
    pub splash_start: Instant,
    pub identity: SshIdentity,
    pub cache: DataCache,
}

/// The label of the first empty field that the shipping validation asks for, in
/// the order name, street, city, country, phone, postal code. Validation asks
/// for a phone number so the carrier can reach the buyer, although a saved
/// address is complete without one.
pub open spec fn missing_shipping_field(a: ShippingAddress) -> Option<Seq<char>> {
    if a.name@.len() == 0 {
        Some("name"@)
    } else if a.street_1@.len() == 0 {
        Some("street"@)
    } else if a.city@.len() == 0 {
        Some("city"@)
    } else if a.country@.len() == 0 {
        Some("country"@)
    } else if a.phone@.len() == 0 {
        Some("phone"@)
    } else if a.postal_code@.len() == 0 {
        Some("postal code"@)
    } else {
        None
    }
}

/// The label of the first empty payment field.
pub open spec fn missing_payment_field(p: PaymentInfo) -> Option<Seq<char>> {
    if p.name@.len() == 0 {
        Some("name"@)
    } else if p.email@.len() == 0 {
        Some("email"@)
    } else if p.card_number@.len() == 0 {
        Some("card number"@)
    } else if p.expiry_month@.len() == 0 {
        Some("expiry month"@)
    } else if p.expiry_year@.len() == 0 {
        Some("expiry year"@)
    } else if p.cvv@.len() == 0 {
        Some("cvv"@)
    } else {
        None
    }
}

/// The notification for an empty field.
pub open spec fn empty_field_message(label: Seq<char>) -> Seq<char> {
    label + " can't be empty"@
}

pub open spec fn is_digit(c: char) -> bool {
    '0' <= c && c <= '9'
}

/// Fields that take digits only, with their length limit.
pub open spec fn digit_limit(f: InputField) -> Option<nat> {
    match f {
        InputField::CardNumber => Some(16),
        InputField::ExpiryMonth => Some(2),
        InputField::ExpiryYear => Some(4),
        InputField::Cvv => Some(3),
        _ => None,
    }
}

/// Whether typing `c` into field `f` holding `t` adds it.
pub open spec fn accepts(f: InputField, t: Seq<char>, c: char) -> bool {
    f != InputField::NoInput && match digit_limit(f) {
        Some(cap) => is_digit(c) && t.len() < cap,
        None => true,
    }
}

/// Index after `i` in a list of `n`, cycling.
pub open spec fn cycle_next(i: int, n: int) -> int {
    (i + 1) % n
}

/// Index before `i` in a list of `n`, cycling from the first to the last.
pub open spec fn cycle_prev(i: int, n: int) -> int {
    if i == 0 {
        n - 1
    } else {
        i - 1
    }
}

/// `cur` is where the current region stands in `regions`: the first one with
/// its id, or the first of all when none has it.
pub open spec fn current_region_index(regions: Seq<Region>, id: Seq<char>, cur: int) -> bool {
    ||| (0 <= cur < regions.len() && regions[cur].id@ == id && forall|j: int|
        0 <= j < cur ==> (#[trigger] regions[j]).id@ != id)
    ||| (cur == 0 && forall|j: int| 0 <= j < regions.len() ==> (#[trigger] regions[j]).id@ != id)
}

/// `region` is what stays current once `regions` is loaded, the current
/// one having id `id`: the listed region with that id, else the first
/// listed; the built-in region when the list is empty.
pub open spec fn region_after_load(regions: Seq<Region>, id: Seq<char>, region: Region) -> bool {
    if regions.len() == 0 {
        region.is_global()
    } else {
        exists|cur: int| current_region_index(regions, id, cur) && region == regions[cur]
    }
}

/// Where the region with id `id` stands in `regions`, or 0 when none has it.
fn region_position(regions: &Vec<Region>, id: &String) -> (cur: usize)
    requires
        regions@.len() > 0,
    ensures
        cur < regions@.len(),
        current_region_index(regions@, id@, cur as int),
{
    let mut i: usize = 0;
    while i < regions.len()
        invariant
            0 <= i <= regions@.len(),
            forall|j: int| 0 <= j < i ==> (#[trigger] regions@[j]).id@ != id@,
        decreases regions@.len() - i,
    {
        if regions[i].id == *id {
            return i;
        }
        i = i + 1;
    }
    0
}

fn cycle_forward(i: usize, n: u128) -> (r: usize)
    requires
        0 < n <= usize::MAX as int + 1,
    ensures
        r == cycle_next(i as int, n as int),
{
    (((i as u128) + 1) % n) as usize
}

fn push_limited(s: &mut String, c: char, cap: usize)
    ensures
        final(s)@ == if is_digit(c) && old(s)@.len() < cap {
            old(s)@.push(c)
        } else {
            old(s)@
        },
{
    if '0' <= c && c <= '9' && s.as_str().unicode_len() < cap {
        s.push(c);
    }
}

fn pop_last(s: &mut String)
    ensures
        final(s)@ == if old(s)@.len() > 0 {
            old(s)@.drop_last()
        } else {
            old(s)@
        },
{
    s.pop();
}

fn message_for(label: &str) -> (r: String)
    ensures
        r@ == empty_field_message(label@),
{
    let mut s = label.to_owned();
    s.append(" can't be empty");
    s
}

impl App {
    pub open spec fn wf(&self) -> bool {
        self.cart.wf() && self.cache.wf()
    }

    /// The text held by field `f`; empty for no field.
    pub open spec fn field_text(&self, f: InputField) -> Seq<char> {
        match f {
            InputField::NoInput => Seq::empty(),
            InputField::Name => self.shipping_address.name@,
            InputField::Street1 => self.shipping_address.street_1@,
            InputField::Street2 => self.shipping_address.street_2@,
            InputField::City => self.shipping_address.city@,
            InputField::State => self.shipping_address.state@,
            InputField::Country => self.shipping_address.country@,
            InputField::Phone => self.shipping_address.phone@,
            InputField::PostalCode => self.shipping_address.postal_code@,
            InputField::PaymentName => self.payment_info.name@,
            InputField::PaymentEmail => self.payment_info.email@,
            InputField::CardNumber => self.payment_info.card_number@,
            InputField::ExpiryMonth => self.payment_info.expiry_month@,
            InputField::ExpiryYear => self.payment_info.expiry_year@,
            InputField::Cvv => self.payment_info.cvv@,
        }
    }

    /// The current address is to be stored: it is complete, fewer than three
    /// are kept, and none kept has its street, city and postal code.
    pub open spec fn should_save_address(&self) -> bool {
        &&& self.shipping_address.complete()
        &&& self.saved_addresses@.len() < MAX_SAVED_ADDRESSES
        &&& !exists|i: int|
            0 <= i < self.saved_addresses@.len() && {
                let a = #[trigger] self.saved_addresses@[i];
                &&& a.street_1@ == self.shipping_address.street_1@
                &&& a.city@ == self.shipping_address.city@
                &&& a.postal_code@ == self.shipping_address.postal_code@
            }
    }

    /// `r` is what is to be stored for the current address: the address of
    /// this user, not yet stored, when it should be saved, else nothing.
    pub open spec fn save_request(&self, r: Option<SavedAddress>) -> bool {
        &&& r is Some <==> self.should_save_address()
        &&& r is Some ==> {
            let a = r->0;
            &&& a.same_fields(self.shipping_address)
            &&& a.user_fingerprint@ == self.identity.fingerprint@
            &&& a.id is None
            &&& a.created_at is None
        }
    }

    /// A session on the home tab with the splash screen up, an empty cart, the
    /// built-in region and nothing loaded.
    pub fn new(identity: SshIdentity) -> (r: App)
        ensures
            r.wf(),
            r.running,
            r.current_tab == Tab::Home,
            r.region.is_global(),
            r.regions@.len() == 0,
            r.products@.len() == 0,
            r.cart.items@.len() == 0,
            r.orders@.len() == 0,
            r.subscriptions@.len() == 0,
            r.selected_product_index == 0,
            r.product_quantity == 1,
            r.account_section == AccountSection::OrderHistory,
            r.checkout_step == CheckoutStep::Cart,
            r.cart_item_index == 0,
            r.payment_option_index == 0,
            r.payment_method is None,
            r.shipping_address.is_blank(),
            r.saved_addresses@.len() == 0,
            r.shipping_mode == ShippingMode::SelectAddress,
            r.address_select_index == 0,
            r.payment_info.is_blank(),
            r.active_input == InputField::NoInput,
            r.notification is None,
            r.loading == LoadingState::Idle,
            r.show_splash,
            r.identity == identity,
            r.cache.products@.len() == 0,
            r.cache.regions@.len() == 0,
    {
        App {
            running: true,
            current_tab: Tab::Home,
            region: Region::default(),
            regions: Vec::new(),
            products: Vec::new(),
            cart: Cart::new(),
            orders: Vec::new(),
            subscriptions: Vec::new(),
            selected_product_index: 0,
            product_quantity: 1,
            account_section: AccountSection::OrderHistory,
            checkout_step: CheckoutStep::Cart,
            cart_item_index: 0,
            payment_option_index: 0,
            payment_method: None,
            shipping_address: ShippingAddress::default(),
            saved_addresses: Vec::new(),
            shipping_mode: ShippingMode::SelectAddress,
            address_select_index: 0,
            payment_info: PaymentInfo::default(),
            active_input: InputField::NoInput,
            notification: None,
            loading: LoadingState::Idle,
            show_splash: true,
            splash_start: clock_start(),
            identity,
            cache: DataCache::new(),
        }
    }

    /// Takes the splash screen down once it has been up for five seconds;
    /// `elapsed_ms` is how long it has been up.
    pub fn splash_elapsed(&mut self, elapsed_ms: u64)
        ensures
            *final(self) == (App {
                show_splash: old(self).show_splash && elapsed_ms < SPLASH_SECONDS * 1000,
                ..*old(self)
            }),
    {
        if self.show_splash && elapsed_ms >= SPLASH_SECONDS * 1000 {
            self.show_splash = false;
        }
    }

    /// Takes the splash screen down once it has been up for five seconds.
    pub fn check_splash_timeout(&mut self)
        ensures
            *final(self) == (App { show_splash: final(self).show_splash, ..*old(self) }),
            final(self).show_splash ==> old(self).show_splash,
    {
        let elapsed = millis_since(&self.splash_start);
        self.splash_elapsed(elapsed);
    }

    /// Shipping charge for the cart in the current region.
    pub fn shipping_cents(&self) -> (r: i128)
        ensures
            r == shipping_fee(subtotal_of(self.cart.items@), self.region.free_shipping_threshold as int),
    {
        let subtotal = self.cart.subtotal_cents();
        if subtotal >= self.region.free_shipping_threshold as i128 * 100 {
            0
        } else {
            SHIPPING_FEE_CENTS
        }
    }

    /// Subtotal plus shipping.
    pub fn order_total_cents(&self) -> (r: i128)
        ensures
            r == subtotal_of(self.cart.items@) + shipping_fee(
                subtotal_of(self.cart.items@),
                self.region.free_shipping_threshold as int,
            ),
    {
        let lines = self.cart.items.len();
        proof {
            lemma_subtotal_bound(self.cart.items@);
            assert(lines <= 0x1_0000_0000_0000_0000);
            assert(self.cart.items@.len() * line_total_limit() <= 0x1_0000_0000_0000_0000 * line_total_limit()) by (nonlinear_arith)
                requires
                    self.cart.items@.len() <= 0x1_0000_0000_0000_0000,
            ;
        }
        self.cart.subtotal_cents() + self.shipping_cents()
    }

    pub fn skip_splash(&mut self)
        ensures
            *final(self) == (App { show_splash: false, ..*old(self) }),
    {
        self.show_splash = false;
    }
}


impl App {
    /// Types `c` into the active field. Digit-only fields drop other
    /// characters and ignore typing past their length limit. Clears the
    /// notification.
    pub fn handle_input_char(&mut self, c: char)
        ensures
            *final(self) == (App {
                shipping_address: final(self).shipping_address,
                payment_info: final(self).payment_info,
                notification: None,
                ..*old(self)
            }),
            forall|f: InputField|
                f != old(self).active_input ==> #[trigger] final(self).field_text(f)
                    == old(self).field_text(f),
            final(self).field_text(old(self).active_input) == if accepts(
                old(self).active_input,
                old(self).field_text(old(self).active_input),
                c,
            ) {
                old(self).field_text(old(self).active_input).push(c)
            } else {
                old(self).field_text(old(self).active_input)
            },
    {
        self.notification = None;
        match self.active_input {
            InputField::NoInput => {},
            InputField::Name => self.shipping_address.name.push(c),
            InputField::Street1 => self.shipping_address.street_1.push(c),
            InputField::Street2 => self.shipping_address.street_2.push(c),
            InputField::City => self.shipping_address.city.push(c),
            InputField::State => self.shipping_address.state.push(c),
            InputField::Country => self.shipping_address.country.push(c),
            InputField::Phone => self.shipping_address.phone.push(c),
            InputField::PostalCode => self.shipping_address.postal_code.push(c),
            InputField::PaymentName => self.payment_info.name.push(c),
            InputField::PaymentEmail => self.payment_info.email.push(c),
            InputField::CardNumber => push_limited(&mut self.payment_info.card_number, c, 16),
            InputField::ExpiryMonth => push_limited(&mut self.payment_info.expiry_month, c, 2),
            InputField::ExpiryYear => push_limited(&mut self.payment_info.expiry_year, c, 4),
            InputField::Cvv => push_limited(&mut self.payment_info.cvv, c, 3),
        }
    }

    /// Removes the last character of the active field, if it has one.
    pub fn handle_input_backspace(&mut self)
        ensures
            *final(self) == (App {
                shipping_address: final(self).shipping_address,
                payment_info: final(self).payment_info,
                ..*old(self)
            }),
            forall|f: InputField|
                f != old(self).active_input ==> #[trigger] final(self).field_text(f)
                    == old(self).field_text(f),
            final(self).field_text(old(self).active_input) == if old(self).field_text(
                old(self).active_input,
            ).len() > 0 {
                old(self).field_text(old(self).active_input).drop_last()
            } else {
                old(self).field_text(old(self).active_input)
            },
    {
        match self.active_input {
            InputField::NoInput => {},
            InputField::Name => pop_last(&mut self.shipping_address.name),
            InputField::Street1 => pop_last(&mut self.shipping_address.street_1),
            InputField::Street2 => pop_last(&mut self.shipping_address.street_2),
            InputField::City => pop_last(&mut self.shipping_address.city),
            InputField::State => pop_last(&mut self.shipping_address.state),
            InputField::Country => pop_last(&mut self.shipping_address.country),
            InputField::Phone => pop_last(&mut self.shipping_address.phone),
            InputField::PostalCode => pop_last(&mut self.shipping_address.postal_code),
            InputField::PaymentName => pop_last(&mut self.payment_info.name),
            InputField::PaymentEmail => pop_last(&mut self.payment_info.email),
            InputField::CardNumber => pop_last(&mut self.payment_info.card_number),
            InputField::ExpiryMonth => pop_last(&mut self.payment_info.expiry_month),
            InputField::ExpiryYear => pop_last(&mut self.payment_info.expiry_year),
            InputField::Cvv => pop_last(&mut self.payment_info.cvv),
        }
    }

    /// Moves to the next field of the form on screen, cycling: the shipping
    /// form, or the card form once card payment is chosen. Clears the
    /// notification.
    pub fn next_input_field(&mut self)
        ensures
            *final(self) == (App {
                active_input: if old(self).checkout_step == CheckoutStep::Shipping {
                    next_in(shipping_order(), old(self).active_input)
                } else if old(self).checkout_step == CheckoutStep::Payment
                    && old(self).payment_method == Some(PaymentMethod::Ssh) {
                    next_in(payment_order(), old(self).active_input)
                } else {
                    old(self).active_input
                },
                notification: None,
                ..*old(self)
            }),
    {
        self.notification = None;
        match self.checkout_step {
            CheckoutStep::Shipping => {
                self.active_input = self.active_input.next_shipping();
            },
            CheckoutStep::Payment => {
                if self.payment_method == Some(PaymentMethod::Ssh) {
                    self.active_input = self.active_input.next_payment();
                }
            },
            _ => {},
        }
    }

    /// Selects the next product, cycling, and resets the quantity to one.
    pub fn next_product(&mut self)
        ensures
            old(self).products@.len() == 0 ==> *final(self) == *old(self),
            old(self).products@.len() > 0 ==> *final(self) == (App {
                selected_product_index: cycle_next(
                    old(self).selected_product_index as int,
                    old(self).products@.len() as int,
                ) as usize,
                product_quantity: 1,
                ..*old(self)
            }),
    {
        if !self.products.is_empty() {
            self.selected_product_index = cycle_forward(self.selected_product_index, self.products.len() as u128);
            self.product_quantity = 1;
        }
    }

    /// Selects the previous product, cycling, and resets the quantity to one.
    pub fn prev_product(&mut self)
        ensures
            old(self).products@.len() == 0 ==> *final(self) == *old(self),
            old(self).products@.len() > 0 ==> *final(self) == (App {
                selected_product_index: cycle_prev(
                    old(self).selected_product_index as int,
                    old(self).products@.len() as int,
                ) as usize,
                product_quantity: 1,
                ..*old(self)
            }),
    {
        if !self.products.is_empty() {
            self.selected_product_index = if self.selected_product_index == 0 {
                self.products.len() - 1
            } else {
                self.selected_product_index - 1
            };
            self.product_quantity = 1;
        }
    }

    pub fn next_account_section(&mut self)
        ensures
            *final(self) == (App {
                account_section: match old(self).account_section {
                    AccountSection::OrderHistory => AccountSection::Subscriptions,
                    AccountSection::Subscriptions => AccountSection::Faq,
                    AccountSection::Faq => AccountSection::About,
                    AccountSection::About => AccountSection::OrderHistory,
                },
                ..*old(self)
            }),
    {
        self.account_section = match self.account_section {
            AccountSection::OrderHistory => AccountSection::Subscriptions,
            AccountSection::Subscriptions => AccountSection::Faq,
            AccountSection::Faq => AccountSection::About,
            AccountSection::About => AccountSection::OrderHistory,
        };
    }

    pub fn prev_account_section(&mut self)
        ensures
            *final(self) == (App {
                account_section: match old(self).account_section {
                    AccountSection::OrderHistory => AccountSection::About,
                    AccountSection::Subscriptions => AccountSection::OrderHistory,
                    AccountSection::Faq => AccountSection::Subscriptions,
                    AccountSection::About => AccountSection::Faq,
                },
                ..*old(self)
            }),
    {
        self.account_section = match self.account_section {
            AccountSection::OrderHistory => AccountSection::About,
            AccountSection::Subscriptions => AccountSection::OrderHistory,
            AccountSection::Faq => AccountSection::Subscriptions,
            AccountSection::About => AccountSection::Faq,
        };
    }

    pub fn next_cart_item(&mut self)
        ensures
            old(self).cart.items@.len() == 0 ==> *final(self) == *old(self),
            old(self).cart.items@.len() > 0 ==> *final(self) == (App {
                cart_item_index: cycle_next(
                    old(self).cart_item_index as int,
                    old(self).cart.items@.len() as int,
                ) as usize,
                ..*old(self)
            }),
    {
        if !self.cart.items.is_empty() {
            self.cart_item_index = cycle_forward(self.cart_item_index, self.cart.items.len() as u128);
        }
    }

    pub fn prev_cart_item(&mut self)
        ensures
            old(self).cart.items@.len() == 0 ==> *final(self) == *old(self),
            old(self).cart.items@.len() > 0 ==> *final(self) == (App {
                cart_item_index: cycle_prev(
                    old(self).cart_item_index as int,
                    old(self).cart.items@.len() as int,
                ) as usize,
                ..*old(self)
            }),
    {
        if !self.cart.items.is_empty() {
            self.cart_item_index = if self.cart_item_index == 0 {
                self.cart.items.len() - 1
            } else {
                self.cart_item_index - 1
            };
        }
    }

    /// Two payment options: card form and browser.
    pub fn next_payment_option(&mut self)
        ensures
            *final(self) == (App {
                payment_option_index: cycle_next(old(self).payment_option_index as int, 2) as usize,
                ..*old(self)
            }),
    {
        self.payment_option_index = cycle_forward(self.payment_option_index, 2);
    }

    pub fn prev_payment_option(&mut self)
        ensures
            *final(self) == (App {
                payment_option_index: cycle_prev(old(self).payment_option_index as int, 2) as usize,
                ..*old(self)
            }),
    {
        self.payment_option_index = if self.payment_option_index == 0 {
            1
        } else {
            self.payment_option_index - 1
        };
    }

    /// The address options are the saved addresses and, last, "add new".
    pub fn next_address_option(&mut self)
        ensures
            *final(self) == (App {
                address_select_index: cycle_next(
                    old(self).address_select_index as int,
                    old(self).saved_addresses@.len() as int + 1,
                ) as usize,
                ..*old(self)
            }),
    {
        let total: u128 = self.saved_addresses.len() as u128 + 1;
        self.address_select_index = cycle_forward(self.address_select_index, total);
    }

    pub fn prev_address_option(&mut self)
        ensures
            *final(self) == (App {
                address_select_index: cycle_prev(
                    old(self).address_select_index as int,
                    old(self).saved_addresses@.len() as int + 1,
                ) as usize,
                ..*old(self)
            }),
    {
        self.address_select_index = if self.address_select_index == 0 {
            self.saved_addresses.len()
        } else {
            self.address_select_index - 1
        };
    }

    /// Whether the shipping step is showing the saved addresses.
    pub fn is_selecting_address(&self) -> (r: bool)
        ensures
            r == (self.checkout_step == CheckoutStep::Shipping && self.shipping_mode
                == ShippingMode::SelectAddress),
    {
        self.checkout_step == CheckoutStep::Shipping && self.shipping_mode == ShippingMode::SelectAddress
    }

    pub fn clear_notification(&mut self)
        ensures
            *final(self) == (App { notification: None, ..*old(self) }),
    {
        self.notification = None;
    }

    pub fn quit(&mut self)
        ensures
            *final(self) == (App { running: false, ..*old(self) }),
    {
        self.running = false;
    }
}


impl App {
    fn empty_shipping_field(&self) -> (r: Option<&'static str>)
        ensures
            r is Some <==> missing_shipping_field(self.shipping_address) is Some,
            r is Some ==> r->0@ == missing_shipping_field(self.shipping_address)->0,
    {
        let a = &self.shipping_address;
        if a.name.as_str().is_empty() {
            Some("name")
        } else if a.street_1.as_str().is_empty() {
            Some("street")
        } else if a.city.as_str().is_empty() {
            Some("city")
        } else if a.country.as_str().is_empty() {
            Some("country")
        } else if a.phone.as_str().is_empty() {
            Some("phone")
        } else if a.postal_code.as_str().is_empty() {
            Some("postal code")
        } else {
            None
        }
    }

    fn empty_payment_field(&self) -> (r: Option<&'static str>)
        ensures
            r is Some <==> missing_payment_field(self.payment_info) is Some,
            r is Some ==> r->0@ == missing_payment_field(self.payment_info)->0,
    {
        let p = &self.payment_info;
        if p.name.as_str().is_empty() {
            Some("name")
        } else if p.email.as_str().is_empty() {
            Some("email")
        } else if p.card_number.as_str().is_empty() {
            Some("card number")
        } else if p.expiry_month.as_str().is_empty() {
            Some("expiry month")
        } else if p.expiry_year.as_str().is_empty() {
            Some("expiry year")
        } else if p.cvv.as_str().is_empty() {
            Some("cvv")
        } else {
            None
        }
    }

    /// The address to store for this user after a new address passed the
    /// shipping validation, if it should be stored.
    pub fn address_to_save(&self) -> (r: Option<SavedAddress>)
        ensures
            self.save_request(r),
    {
        if !self.shipping_address.is_complete() || self.saved_addresses.len() >= MAX_SAVED_ADDRESSES {
            return None;
        }
        let mut i: usize = 0;
        while i < self.saved_addresses.len()
            invariant
                0 <= i <= self.saved_addresses@.len(),
                forall|j: int|
                    0 <= j < i ==> !{
                        let a = #[trigger] self.saved_addresses@[j];
                        &&& a.street_1@ == self.shipping_address.street_1@
                        &&& a.city@ == self.shipping_address.city@
                        &&& a.postal_code@ == self.shipping_address.postal_code@
                    },
            decreases self.saved_addresses@.len() - i,
        {
            let a = &self.saved_addresses[i];
            if a.street_1 == self.shipping_address.street_1 && a.city == self.shipping_address.city
                && a.postal_code == self.shipping_address.postal_code {
                return None;
            }
            i = i + 1;
        }
        Some(SavedAddress::from_shipping(&self.shipping_address, self.identity.fingerprint.as_str()))
    }

    /// Puts an address the backend stored first in the list, keeping three.
    pub fn record_saved_address(&mut self, created: SavedAddress)
        ensures
            *final(self) == (App { saved_addresses: final(self).saved_addresses, ..*old(self) }),
            final(self).saved_addresses@ == if old(self).saved_addresses@.len() + 1 > MAX_SAVED_ADDRESSES {
                (seq![created] + old(self).saved_addresses@).subrange(0, MAX_SAVED_ADDRESSES as int)
            } else {
                seq![created] + old(self).saved_addresses@
            },
    {
        let ghost c = created;
        self.saved_addresses.insert(0, created);
        assert(self.saved_addresses@ =~= seq![c] + old(self).saved_addresses@);
        if self.saved_addresses.len() > MAX_SAVED_ADDRESSES {
            self.saved_addresses.truncate(MAX_SAVED_ADDRESSES);
            assert(self.saved_addresses@ =~= (seq![c] + old(self).saved_addresses@).subrange(0, MAX_SAVED_ADDRESSES as int));
        }
    }

    /// Drops the saved address at `index`, keeping the selection within the
    /// options, and gives the backend id to delete. Nothing happens past the
    /// end of the list.
    pub fn forget_saved_address(&mut self, index: usize) -> (r: Option<u128>)
        ensures
            index >= old(self).saved_addresses@.len() ==> r is None && *final(self) == *old(self),
            index < old(self).saved_addresses@.len() ==> {
                &&& r == old(self).saved_addresses@[index as int].id
                &&& final(self).saved_addresses@ == old(self).saved_addresses@.remove(index as int)
                &&& *final(self) == (App {
                    saved_addresses: final(self).saved_addresses,
                    address_select_index: if old(self).address_select_index
                        >= old(self).saved_addresses@.len() && old(self).address_select_index > 0 {
                        (old(self).address_select_index - 1) as usize
                    } else {
                        old(self).address_select_index
                    },
                    ..*old(self)
                })
            },
    {
        if index >= self.saved_addresses.len() {
            return None;
        }
        let id = self.saved_addresses[index].id;
        self.saved_addresses.remove(index);
        if self.address_select_index >= self.saved_addresses.len() + 1 && self.address_select_index > 0 {
            self.address_select_index = self.address_select_index - 1;
        }
        id
    }

    /// Drops the highlighted saved address, if one is highlighted, and gives
    /// the backend id to delete.
    pub fn remove_selected_address(&mut self) -> (r: Option<u128>)
        ensures
            old(self).address_select_index >= old(self).saved_addresses@.len() ==> r is None
                && *final(self) == *old(self),
            old(self).address_select_index < old(self).saved_addresses@.len() ==> {
                let i = old(self).address_select_index as int;
                &&& r == old(self).saved_addresses@[i].id
                &&& final(self).saved_addresses@ == old(self).saved_addresses@.remove(i)
                &&& *final(self) == (App {
                    saved_addresses: final(self).saved_addresses,
                    ..*old(self)
                })
            },
    {
        if self.address_select_index < self.saved_addresses.len() {
            self.forget_saved_address(self.address_select_index)
        } else {
            None
        }
    }

    /// Takes the highlighted address option: a saved address is copied into
    /// the shipping form and checkout moves on to payment; "add new" opens an
    /// empty form on its name field.
    pub fn select_address_option(&mut self)
        ensures
            old(self).address_select_index < old(self).saved_addresses@.len() ==> {
                &&& old(self).saved_addresses@[old(self).address_select_index as int].same_fields(
                    final(self).shipping_address,
                )
                &&& *final(self) == (App {
                    shipping_address: final(self).shipping_address,
                    active_input: InputField::NoInput,
                    checkout_step: CheckoutStep::Payment,
                    ..*old(self)
                })
            },
            old(self).address_select_index >= old(self).saved_addresses@.len() ==> {
                &&& final(self).shipping_address.is_blank()
                &&& *final(self) == (App {
                    shipping_address: final(self).shipping_address,
                    shipping_mode: ShippingMode::AddNewAddress,
                    active_input: InputField::Name,
                    ..*old(self)
                })
            },
    {
        if self.address_select_index < self.saved_addresses.len() {
            self.shipping_address = self.saved_addresses[self.address_select_index].to_shipping();
            self.active_input = InputField::NoInput;
            self.checkout_step = CheckoutStep::Payment;
        } else {
            self.shipping_mode = ShippingMode::AddNewAddress;
            self.shipping_address = ShippingAddress::default();
            self.active_input = InputField::Name;
        }
    }

    /// Takes the highlighted payment option: the first is the card form,
    /// which gets the name field active; the other hands payment to a
    /// browser.
    pub fn select_payment_method(&mut self)
        ensures
            *final(self) == (App {
                payment_method: Some(
                    if old(self).payment_option_index == 0 {
                        PaymentMethod::Ssh
                    } else {
                        PaymentMethod::Browser
                    },
                ),
                active_input: if old(self).payment_option_index == 0 {
                    InputField::PaymentName
                } else {
                    InputField::NoInput
                },
                ..*old(self)
            }),
    {
        if self.payment_option_index == 0 {
            self.active_input = InputField::PaymentName;
            self.payment_method = Some(PaymentMethod::Ssh);
        } else {
            self.active_input = InputField::NoInput;
            self.payment_method = Some(PaymentMethod::Browser);
        }
    }

    /// Advances the checkout one step, clearing the notification first:
    /// - cart to shipping when the cart is not empty, on the saved
    ///   addresses with the first highlighted and no field active;
    /// - a new address to payment once every field validation asks for is
    ///   filled, giving back the address to store, if any; else the
    ///   notification names the first empty field;
    /// - card payment to confirmation once all six fields are filled, same
    ///   validation; browser payment to confirmation at once;
    /// - confirmation back to an empty cart on the home tab.
    /// Picking a saved address and picking a payment method are actions of
    /// their own; here they do nothing.
    pub fn next_checkout_step(&mut self) -> (r: Option<SavedAddress>)
        requires
            old(self).wf(),
        ensures
            final(self).wf(),
            ({
                let o = *old(self);
                let unchanged = (App { notification: None, ..o });
                match o.checkout_step {
                    CheckoutStep::Cart => r is None && if o.cart.items@.len() > 0 {
                        *final(self) == (App {
                            notification: None,
                            shipping_mode: ShippingMode::SelectAddress,
                            address_select_index: 0,
                            active_input: InputField::NoInput,
                            checkout_step: CheckoutStep::Shipping,
                            ..o
                        })
                    } else {
                        *final(self) == unchanged
                    },
                    CheckoutStep::Shipping => match o.shipping_mode {
                        ShippingMode::SelectAddress => r is None && *final(self) == unchanged,
                        ShippingMode::AddNewAddress => match missing_shipping_field(
                            o.shipping_address,
                        ) {
                            Some(label) => {
                                &&& r is None
                                &&& *final(self) == (App {
                                    notification: final(self).notification,
                                    ..o
                                })
                                &&& final(self).notification is Some
                                &&& final(self).notification->0@ == empty_field_message(label)
                            },
                            None => {
                                &&& o.save_request(r)
                                &&& *final(self) == (App {
                                    notification: None,
                                    active_input: InputField::NoInput,
                                    checkout_step: CheckoutStep::Payment,
                                    ..o
                                })
                            },
                        },
                    },
                    CheckoutStep::Payment => r is None && match o.payment_method {
                        Some(PaymentMethod::Ssh) => match missing_payment_field(o.payment_info) {
                            Some(label) => {
                                &&& *final(self) == (App {
                                    notification: final(self).notification,
                                    ..o
                                })
                                &&& final(self).notification is Some
                                &&& final(self).notification->0@ == empty_field_message(label)
                            },
                            None => *final(self) == (App {
                                notification: None,
                                checkout_step: CheckoutStep::Confirmation,
                                ..o
                            }),
                        },
                        Some(PaymentMethod::Browser) => *final(self) == (App {
                            notification: None,
                            checkout_step: CheckoutStep::Confirmation,
                            ..o
                        }),
                        None => *final(self) == unchanged,
                    },
                    CheckoutStep::Confirmation => {
                        &&& r is None
                        &&& final(self).cart.items@.len() == 0
                        &&& *final(self) == (App {
                            notification: None,
                            cart: final(self).cart,
                            current_tab: Tab::Home,
                            checkout_step: CheckoutStep::Cart,
                            ..o
                        })
                    },
                }
            }),
    {
        self.notification = None;
        match self.checkout_step {
            CheckoutStep::Cart => {
                if !self.cart.is_empty() {
                    self.shipping_mode = ShippingMode::SelectAddress;
                    self.address_select_index = 0;
                    self.active_input = InputField::NoInput;
                    self.checkout_step = CheckoutStep::Shipping;
                }
                None
            },
            CheckoutStep::Shipping => {
                match self.shipping_mode {
                    ShippingMode::SelectAddress => None,
                    ShippingMode::AddNewAddress => {
                        if let Some(label) = self.empty_shipping_field() {
                            self.notification = Some(message_for(label));
                            return None;
                        }
                        let to_save = self.address_to_save();
                        self.active_input = InputField::NoInput;
                        self.checkout_step = CheckoutStep::Payment;
                        to_save
                    },
                }
            },
            CheckoutStep::Payment => {
                match self.payment_method {
                    Some(PaymentMethod::Ssh) => {
                        if let Some(label) = self.empty_payment_field() {
                            self.notification = Some(message_for(label));
                            return None;
                        }
                        self.checkout_step = CheckoutStep::Confirmation;
                    },
                    Some(PaymentMethod::Browser) => {
                        self.checkout_step = CheckoutStep::Confirmation;
                    },
                    None => {},
                }
                None
            },
            CheckoutStep::Confirmation => {
                self.cart.clear();
                self.current_tab = Tab::Home;
                self.checkout_step = CheckoutStep::Cart;
                None
            },
        }
    }

    /// Goes back one step, clearing the notification: from the cart to the
    /// shop; from a new address to the saved ones; from the saved addresses
    /// to the cart; from payment to the saved addresses, forgetting the
    /// payment method; from confirmation to payment, with the card form's
    /// name field active when paying by card.
    pub fn prev_checkout_step(&mut self)
        ensures
            ({
                let o = *old(self);
                *final(self) == match o.checkout_step {
                    CheckoutStep::Cart => App { notification: None, current_tab: Tab::Shop, ..o },
                    CheckoutStep::Shipping => match o.shipping_mode {
                        ShippingMode::AddNewAddress => App {
                            notification: None,
                            shipping_mode: ShippingMode::SelectAddress,
                            active_input: InputField::NoInput,
                            ..o
                        },
                        ShippingMode::SelectAddress => App {
                            notification: None,
                            active_input: InputField::NoInput,
                            checkout_step: CheckoutStep::Cart,
                            ..o
                        },
                    },
                    CheckoutStep::Payment => App {
                        notification: None,
                        payment_method: None,
                        shipping_mode: ShippingMode::SelectAddress,
                        active_input: InputField::NoInput,
                        checkout_step: CheckoutStep::Shipping,
                        ..o
                    },
                    CheckoutStep::Confirmation => App {
                        notification: None,
                        active_input: if o.payment_method == Some(PaymentMethod::Ssh) {
                            InputField::PaymentName
                        } else {
                            InputField::NoInput
                        },
                        checkout_step: CheckoutStep::Payment,
                        ..o
                    },
                }
            }),
    {
        self.notification = None;
        match self.checkout_step {
            CheckoutStep::Cart => {
                self.current_tab = Tab::Shop;
            },
            CheckoutStep::Shipping => {
                match self.shipping_mode {
                    ShippingMode::AddNewAddress => {
                        self.shipping_mode = ShippingMode::SelectAddress;
                        self.active_input = InputField::NoInput;
                    },
                    ShippingMode::SelectAddress => {
                        self.active_input = InputField::NoInput;
                        self.checkout_step = CheckoutStep::Cart;
                    },
                }
            },
            CheckoutStep::Payment => {
                self.payment_method = None;
                self.shipping_mode = ShippingMode::SelectAddress;
                self.active_input = InputField::NoInput;
                self.checkout_step = CheckoutStep::Shipping;
            },
            CheckoutStep::Confirmation => {
                self.active_input = if self.payment_method == Some(PaymentMethod::Ssh) {
                    InputField::PaymentName
                } else {
                    InputField::NoInput
                };
                self.checkout_step = CheckoutStep::Payment;
            },
        }
    }
}


impl App {
    /// Adds the pending quantity of the selected product to the cart and
    /// resets the pending quantity to one. Nothing happens when no product is
    /// selected, the pending quantity is below one, or the line's quantity
    /// would pass the largest `i32`.
    pub fn add_to_cart(&mut self)
        requires
            old(self).wf(),
        ensures
            final(self).wf(),
            ({
                let o = *old(self);
                let i = o.selected_product_index as int;
                if i < o.products@.len() && o.product_quantity >= 1 && o.cart.quantity(
                    o.products@[i].id,
                ) + o.product_quantity <= i32::MAX {
                    &&& added(
                        o.cart.items@,
                        final(self).cart.items@,
                        o.products@[i],
                        o.product_quantity as int,
                    )
                    &&& *final(self) == (App { cart: final(self).cart, product_quantity: 1, ..o })
                } else {
                    *final(self) == o
                }
            }),
    {
        if self.selected_product_index < self.products.len() && self.product_quantity >= 1 {
            let product = self.products[self.selected_product_index].clone();
            let have = self.cart.line_quantity(product.id);
            if have <= i32::MAX - self.product_quantity {
                self.cart.add_item(product, self.product_quantity);
                self.product_quantity = 1;
            }
        }
    }

    /// Switches to `region` with the first product selected; its products
    /// are to be loaded next.
    pub fn change_region(&mut self, region: Region)
        ensures
            *final(self) == (App { region, selected_product_index: 0, ..*old(self) }),
    {
        self.region = region;
        self.selected_product_index = 0;
    }

    /// The region after the current one in the list, cycling; none when no
    /// regions are loaded.
    pub fn next_region(&self) -> (r: Option<Region>)
        ensures
            self.regions@.len() == 0 ==> r is None,
            self.regions@.len() > 0 ==> exists|cur: int|
                current_region_index(self.regions@, self.region.id@, cur) && r == Some(
                    self.regions@[cycle_next(cur, self.regions@.len() as int)],
                ),
    {
        if self.regions.is_empty() {
            return None;
        }
        let cur = region_position(&self.regions, &self.region.id);
        assert(current_region_index(self.regions@, self.region.id@, cur as int));
        let next = cycle_forward(cur, self.regions.len() as u128);
        let r = Some(self.regions[next].clone());
        assert(r == Some(self.regions@[cycle_next(cur as int, self.regions@.len() as int)]));
        r
    }

    /// Makes the current region one of the loaded list: the listed region
    /// with its id, else the first listed; the built-in region when the list
    /// is empty.
    fn settle_region(&mut self)
        ensures
            *final(self) == (App { region: final(self).region, ..*old(self) }),
            region_after_load(old(self).regions@, old(self).region.id@, final(self).region),
            old(self).regions@.len() > 0 ==> old(self).regions@.contains(final(self).region),
    {
        if self.regions.is_empty() {
            self.region = Region::default();
        } else {
            let cur = region_position(&self.regions, &self.region.id);
            self.region = self.regions[cur].clone();
            assert(self.regions@[cur as int] == self.region);
        }
    }

    /// Serves the region list from the cache when it holds a live one,
    /// keeping the current region if listed, else taking the first listed,
    /// and gives true. Else
    /// marks the session as loading and gives false: the list is to be
    /// fetched and handed to `apply_regions`.
    pub fn load_regions_cached(&mut self) -> (r: bool)
        requires
            old(self).wf(),
        ensures
            final(self).wf(),
            r ==> {
                &&& old(self).cache.regions@.contains_key(regions_key())
                &&& final(self).regions@ == old(self).cache.regions@[regions_key()].0@
                &&& region_after_load(final(self).regions@, old(self).region.id@, final(self).region)
                &&& final(self).regions@.len() > 0 ==> final(self).regions@.contains(final(self).region)
                &&& *final(self) == (App {
                    regions: final(self).regions,
                    region: final(self).region,
                    ..*old(self)
                })
            },
            !r ==> *final(self) == (App { loading: LoadingState::Loading, ..*old(self) }),
    {
        match self.cache.get_regions() {
            Some(regions) => {
                self.regions = regions;
                self.settle_region();
                true
            },
            None => {
                self.loading = LoadingState::Loading;
                false
            },
        }
    }

    /// Takes the outcome of fetching the regions. A non-empty list is cached
    /// and used, keeping the current region if listed, else taking the first
    /// listed; an empty list or a failure leaves only the built-in region,
    /// and a failure is reported in the notification. Either way the current
    /// region is one of the list.
    pub fn apply_regions(&mut self, fetched: Result<Vec<Region>, String>)
        requires
            old(self).wf(),
        ensures
            final(self).wf(),
            final(self).regions@.contains(final(self).region),
            match fetched {
                Ok(v) => if v@.len() > 0 {
                    &&& final(self).regions@ == v@
                    &&& region_after_load(v@, old(self).region.id@, final(self).region)
                    &&& final(self).cache.regions@ == old(self).cache.regions@.insert(
                        regions_key(),
                        final(self).cache.regions@[regions_key()],
                    )
                    &&& final(self).cache.regions@[regions_key()].0@ == v@
                    &&& *final(self) == (App {
                        regions: final(self).regions,
                        region: final(self).region,
                        cache: final(self).cache,
                        loading: LoadingState::Idle,
                        ..*old(self)
                    })
                    &&& final(self).cache.products == old(self).cache.products
                } else {
                    &&& final(self).regions@.len() == 1
                    &&& final(self).regions@[0].is_global()
                    &&& final(self).region.is_global()
                    &&& *final(self) == (App {
                        regions: final(self).regions,
                        region: final(self).region,
                        loading: LoadingState::Idle,
                        ..*old(self)
                    })
                },
                Err(e) => {
                    &&& final(self).regions@.len() == 1
                    &&& final(self).regions@[0].is_global()
                    &&& final(self).region.is_global()
                    &&& final(self).notification is Some
                    &&& final(self).notification->0@ == "Failed to load regions: "@ + e@
                    &&& *final(self) == (App {
                        regions: final(self).regions,
                        region: final(self).region,
                        notification: final(self).notification,
                        loading: LoadingState::Error,
                        ..*old(self)
                    })
                },
            },
    {
        match fetched {
            Ok(regions) => {
                if !regions.is_empty() {
                    let copy = regions.clone();
                    assert(copy@ =~= regions@);
                    self.cache.set_regions(copy);
                    self.regions = regions;
                    self.settle_region();
                } else {
                    self.regions = vec![Region::default()];
                    self.region = self.regions[0].clone();
                }
                self.loading = LoadingState::Idle;
            },
            Err(e) => {
                self.loading = LoadingState::Error;
                let mut n = text("Failed to load regions: ");
                n.append(e.as_str());
                self.notification = Some(n);
                self.regions = vec![Region::default()];
                self.region = self.regions[0].clone();
            },
        }
    }

    /// Serves the products of the current region from the cache when it
    /// holds a live list and gives true. Else marks the session as loading
    /// and gives false: the list is to be fetched and handed to
    /// `apply_products`.
    pub fn load_products_cached(&mut self) -> (r: bool)
        requires
            old(self).wf(),
        ensures
            final(self).wf(),
            r ==> {
                let key = products_key(old(self).region.id@);
                &&& old(self).cache.products@.contains_key(key)
                &&& final(self).products@ == old(self).cache.products@[key].0@
                &&& *final(self) == (App { products: final(self).products, ..*old(self) })
            },
            !r ==> *final(self) == (App { loading: LoadingState::Loading, ..*old(self) }),
    {
        match self.cache.get_products(self.region.id.as_str()) {
            Some(products) => {
                self.products = products;
                true
            },
            None => {
                self.loading = LoadingState::Loading;
                false
            },
        }
    }

    /// Takes the outcome of fetching the current region's products: a list
    /// is cached and used; a failure leaves the catalog empty and is
    /// reported in the notification.
    pub fn apply_products(&mut self, fetched: Result<Vec<Product>, String>)
        requires
            old(self).wf(),
        ensures
            final(self).wf(),
            match fetched {
                Ok(v) => {
                    let key = products_key(old(self).region.id@);
                    &&& final(self).products@ == v@
                    &&& final(self).cache.products@ == old(self).cache.products@.insert(
                        key,
                        final(self).cache.products@[key],
                    )
                    &&& final(self).cache.products@[key].0@ == v@
                    &&& final(self).cache.regions == old(self).cache.regions
                    &&& *final(self) == (App {
                        products: final(self).products,
                        cache: final(self).cache,
                        loading: LoadingState::Idle,
                        ..*old(self)
                    })
                },
                Err(e) => {
                    &&& final(self).products@.len() == 0
                    &&& final(self).notification is Some
                    &&& final(self).notification->0@ == "Failed to load products: "@ + e@
                    &&& *final(self) == (App {
                        products: final(self).products,
                        notification: final(self).notification,
                        loading: LoadingState::Error,
                        ..*old(self)
                    })
                },
            },
    {
        match fetched {
            Ok(products) => {
                let copy = products.clone();
                assert(copy@ =~= products@);
                self.cache.set_products(self.region.id.as_str(), copy);
                self.products = products;
                self.loading = LoadingState::Idle;
            },
            Err(e) => {
                self.loading = LoadingState::Error;
                let mut n = text("Failed to load products: ");
                n.append(e.as_str());
                self.notification = Some(n);
                self.products = Vec::new();
            },
        }
    }

    /// Takes the outcome of fetching the user's saved addresses; on failure
    /// there are none, and nothing is reported.
    pub fn apply_saved_addresses(&mut self, fetched: Result<Vec<SavedAddress>, String>)
        ensures
            *final(self) == (App { saved_addresses: final(self).saved_addresses, ..*old(self) }),
            match fetched {
                Ok(v) => final(self).saved_addresses == v,
                Err(_) => final(self).saved_addresses@.len() == 0,
            },
    {
        match fetched {
            Ok(addresses) => {
                self.saved_addresses = addresses;
            },
            Err(_) => {
                self.saved_addresses = Vec::new();
            },
        }
    }
}


impl App {
    /// Moves to the next region and selects its first product; gives true
    /// when it did, and the new region's products are to be loaded.
    pub fn cycle_region(&mut self) -> (r: bool)
        ensures
            r == (old(self).regions@.len() > 0),
            !r ==> *final(self) == *old(self),
            r ==> exists|cur: int|
                current_region_index(old(self).regions@, old(self).region.id@, cur)
                    && *final(self) == (App {
                    region: old(self).regions@[cycle_next(cur, old(self).regions@.len() as int)],
                    selected_product_index: 0,
                    ..*old(self)
                }),
    {
        match self.next_region() {
            Some(region) => {
                self.change_region(region);
                true
            },
            None => false,
        }
    }

    /// One more of the pending quantity, up to 99.
    pub fn raise_quantity(&mut self)
        ensures
            *final(self) == (App {
                product_quantity: if old(self).product_quantity >= 99 {
                    99
                } else {
                    (old(self).product_quantity + 1) as i32
                },
                ..*old(self)
            }),
    {
        self.product_quantity = if self.product_quantity >= 99 {
            99
        } else {
            self.product_quantity + 1
        };
    }

    /// One fewer of the pending quantity, down to 1.
    pub fn lower_quantity(&mut self)
        ensures
            *final(self) == (App {
                product_quantity: if old(self).product_quantity <= 2 {
                    1
                } else {
                    (old(self).product_quantity - 1) as i32
                },
                ..*old(self)
            }),
    {
        self.product_quantity = if self.product_quantity <= 2 {
            1
        } else {
            self.product_quantity - 1
        };
    }

    /// One more of the highlighted cart line. Nothing happens when no line
    /// is highlighted or its quantity is the largest `i32`.
    pub fn increment_selected_line(&mut self)
        requires
            old(self).wf(),
        ensures
            final(self).wf(),
            ({
                let o = *old(self);
                let i = o.cart_item_index as int;
                if i < o.cart.items@.len() && o.cart.items@[i].quantity < i32::MAX {
                    &&& final(self).cart.items@ == o.cart.items@.update(
                        i,
                        o.cart.items@[i].with_quantity(o.cart.items@[i].quantity + 1),
                    )
                    &&& *final(self) == (App { cart: final(self).cart, ..o })
                } else {
                    *final(self) == o
                }
            }),
    {
        if self.cart_item_index < self.cart.items.len() {
            let id = self.cart.items[self.cart_item_index].product.id;
            let have = self.cart.line_quantity(id);
            proof {
                crate::cart::lemma_line_index_unique(self.cart.items@, id, self.cart_item_index as int);
                crate::cart::lemma_count_and_quantity(self.cart.items@, id);
            }
            if have < i32::MAX {
                self.cart.increment_item(id);
            }
        }
    }

    /// One fewer of the highlighted cart line, removing it at one; when the
    /// last line goes, the one before it is highlighted.
    pub fn decrement_selected_line(&mut self)
        requires
            old(self).wf(),
        ensures
            final(self).wf(),
            ({
                let o = *old(self);
                let i = o.cart_item_index as int;
                let lines = o.cart.items@;
                if i < lines.len() {
                    &&& final(self).cart.items@ == if lines[i].quantity > 1 {
                        lines.update(i, lines[i].with_quantity(lines[i].quantity - 1))
                    } else {
                        lines.remove(i)
                    }
                    &&& *final(self) == (App {
                        cart: final(self).cart,
                        cart_item_index: if i >= final(self).cart.items@.len()
                            && final(self).cart.items@.len() > 0 {
                            (final(self).cart.items@.len() - 1) as usize
                        } else {
                            o.cart_item_index
                        },
                        ..o
                    })
                } else {
                    *final(self) == o
                }
            }),
    {
        if self.cart_item_index < self.cart.items.len() {
            let id = self.cart.items[self.cart_item_index].product.id;
            proof {
                crate::cart::lemma_line_index_unique(self.cart.items@, id, self.cart_item_index as int);
            }
            self.cart.decrement_item(id);
            if self.cart_item_index >= self.cart.items.len() && !self.cart.items.is_empty() {
                self.cart_item_index = self.cart.items.len() - 1;
            }
        }
    }
}


/// With the name given and the first street line empty, the shipping validation
/// stops on the street, with the notification "street can't be empty".
pub proof fn lemma_shipping_street_required(a: ShippingAddress)
    requires
        a.name@.len() > 0,
        a.street_1@.len() == 0,
    ensures
        missing_shipping_field(a) == Some("street"@),
        empty_field_message("street"@) == "street can't be empty"@,
{
    reveal_strlit("street");
    reveal_strlit(" can't be empty");
    reveal_strlit("street can't be empty");
    assert(empty_field_message("street"@) =~= "street can't be empty"@);
}

/// A shipping address whose every field validation asks for is filled passes
/// validation.
pub proof fn lemma_shipping_validation_passes(a: ShippingAddress)
    requires
        a.complete(),
        a.phone@.len() > 0,
    ensures
        missing_shipping_field(a) is None,
{
}

/// Card details with all six fields filled pass the payment validation.
pub proof fn lemma_payment_validation_passes(p: PaymentInfo)
    requires
        p.complete(),
    ensures
        missing_payment_field(p) is None,
{
}

/// The index reached from `i` by `k` steps back in a list of `n`.
pub open spec fn prev_times(i: int, n: int, k: nat) -> int
    decreases k,
{
    if k == 0 {
        i
    } else {
        cycle_prev(prev_times(i, n, (k - 1) as nat), n)
    }
}

/// The index reached from `i` by `k` steps forward in a list of `n`.
pub open spec fn next_times(i: int, n: int, k: nat) -> int
    decreases k,
{
    if k == 0 {
        i
    } else {
        cycle_next(next_times(i, n, (k - 1) as nat), n)
    }
}

proof fn lemma_prev_steps(i: int, n: int, k: nat)
    requires
        0 <= i < n,
        k <= n,
    ensures
        prev_times(i, n, k) == if k <= i { i - k } else { i - k + n },
    decreases k,
{
    if k > 0 {
        lemma_prev_steps(i, n, (k - 1) as nat);
    }
}

proof fn lemma_next_steps(i: int, n: int, k: nat)
    requires
        0 <= i < n,
        k <= n,
    ensures
        next_times(i, n, k) == if i + k < n { i + k } else { i + k - n },
    decreases k,
{
    if k > 0 {
        lemma_next_steps(i, n, (k - 1) as nat);
        let v = next_times(i, n, (k - 1) as nat);
        assert(0 <= v < n);
        if v + 1 < n {
            assert((v + 1) % n == v + 1) by (nonlinear_arith)
                requires
                    0 <= v + 1 < n,
            ;
        } else {
            assert((v + 1) % n == 0) by (nonlinear_arith)
                requires
                    v + 1 == n,
                    n > 0,
            ;
        }
    }
}

/// In a list of `n`, as many steps back as there are entries lead from any
/// index back to it, and so do as many steps forward.
pub proof fn lemma_cycle_returns(i: int, n: int)
    requires
        0 <= i < n,
    ensures
        prev_times(i, n, n as nat) == i,
        next_times(i, n, n as nat) == i,
{
    lemma_prev_steps(i, n, n as nat);
    lemma_next_steps(i, n, n as nat);
}

} // verus!
