//! Which action each key press asks for, by session state.

use vstd::prelude::*;
use crate::app::{App, CheckoutStep, ShippingMode, Tab};
use crate::fields::InputField;

verus! {

/// The key of a key press.
#[derive(Debug, Clone, Copy, PartialEq, Eq, Structural)]
pub enum KeyCode {
    Char(char),
    Backspace,
    Delete,
    Tab,
    Enter,
    Esc,
    Up,
    Down,
    Other,
}

/// A key press, with whether Control was held.
#[derive(Debug, Clone, Copy, PartialEq, Eq, Structural)]
pub struct KeyPress {
    pub code: KeyCode,
    pub ctrl: bool,
}

/// What a key press asks of the session. Each names the `App` method that
/// carries it out; `Ignore` asks for nothing.
#[derive(Debug, Clone, Copy, PartialEq, Eq, Structural)]
pub enum Action {
    Quit,
    SkipSplash,
    TypeChar(char),
    Backspace,
    NextField,
    Advance,
    Retreat,
    CycleRegion,
    ShowTab(Tab),
    PrevProduct,
    NextProduct,
    RaiseQuantity,
    LowerQuantity,
    AddToCart,
    PrevSection,
    NextSection,
    PrevCartItem,
    NextCartItem,
    IncrementLine,
    DecrementLine,
    PrevAddress,
    NextAddress,
    SelectAddress,
    RemoveAddress,
    PrevPaymentOption,
    NextPaymentOption,
    SelectPayment,
    Ignore,
}

pub open spec fn is_up(k: KeyCode) -> bool {
    k == KeyCode::Up || k == KeyCode::Char('k')
}

pub open spec fn is_down(k: KeyCode) -> bool {
    k == KeyCode::Down || k == KeyCode::Char('j')
}

pub open spec fn is_plus(k: KeyCode) -> bool {
    k == KeyCode::Char('+') || k == KeyCode::Char('=')
}

pub open spec fn is_minus(k: KeyCode) -> bool {
    k == KeyCode::Char('-') || k == KeyCode::Char('_')
}

/// While a field is being edited, keys edit it, move between fields, or go
/// forward or back.
pub open spec fn input_action(k: KeyCode) -> Action {
    match k {
        KeyCode::Char(c) => Action::TypeChar(c),
        KeyCode::Backspace => Action::Backspace,
        KeyCode::Tab => Action::NextField,
        KeyCode::Enter => Action::Advance,
        KeyCode::Esc => Action::Retreat,
        _ => Action::Ignore,
    }
}

/// Keys of the cart tab, by checkout step.
pub open spec fn cart_action(app: App, k: KeyCode) -> Action {
    match app.checkout_step {
        CheckoutStep::Cart => if is_up(k) {
            Action::PrevCartItem
        } else if is_down(k) {
            Action::NextCartItem
        } else if is_plus(k) {
            Action::IncrementLine
        } else if is_minus(k) {
            Action::DecrementLine
        } else if k == KeyCode::Enter || k == KeyCode::Char('c') {
            Action::Advance
        } else if k == KeyCode::Esc {
            Action::ShowTab(Tab::Shop)
        } else {
            Action::Ignore
        },
        CheckoutStep::Shipping if app.shipping_mode == ShippingMode::SelectAddress => if is_up(k) {
            Action::PrevAddress
        } else if is_down(k) {
            Action::NextAddress
        } else if k == KeyCode::Enter {
            Action::SelectAddress
        } else if k == KeyCode::Backspace || k == KeyCode::Delete || k == KeyCode::Char('x') {
            Action::RemoveAddress
        } else if k == KeyCode::Esc {
            Action::Retreat
        } else {
            Action::Ignore
        },
        CheckoutStep::Payment if app.payment_method is None => if is_up(k) {
            Action::PrevPaymentOption
        } else if is_down(k) {
            Action::NextPaymentOption
        } else if k == KeyCode::Enter {
            Action::SelectPayment
        } else if k == KeyCode::Esc {
            Action::Retreat
        } else {
            Action::Ignore
        },
        _ => if k == KeyCode::Esc {
            Action::Retreat
        } else {
            Action::Ignore
        },
    }
}

/// Keys of the current tab.
pub open spec fn tab_action(app: App, k: KeyCode) -> Action {
    match app.current_tab {
        Tab::Home => if (k == KeyCode::Enter || k == KeyCode::Char('s')) && app.products@.len() > 0 {
            Action::ShowTab(Tab::Shop)
        } else {
            Action::Ignore
        },
        Tab::Shop => if is_up(k) {
            Action::PrevProduct
        } else if is_down(k) {
            Action::NextProduct
        } else if is_plus(k) {
            Action::RaiseQuantity
        } else if is_minus(k) {
            Action::LowerQuantity
        } else if k == KeyCode::Enter {
            Action::AddToCart
        } else {
            Action::Ignore
        },
        Tab::Account => if is_up(k) {
            Action::PrevSection
        } else if is_down(k) {
            Action::NextSection
        } else {
            Action::Ignore
        },
        Tab::Cart => cart_action(app, k),
    }
}

/// What a key press asks of the session: during the splash screen any key
/// but quit skips it; while a field is active keys go to the form; else
/// the shortcuts q, Control-c, r, s, a and c, then the keys of the tab.
pub open spec fn key_action(app: App, key: KeyPress) -> Action {
    let k = key.code;
    let quits = k == KeyCode::Char('q') || (k == KeyCode::Char('c') && key.ctrl);
    if app.show_splash {
        if quits {
            Action::Quit
        } else {
            Action::SkipSplash
        }
    } else if app.active_input != InputField::NoInput {
        input_action(k)
    } else if quits {
        Action::Quit
    } else if k == KeyCode::Char('r') {
        Action::CycleRegion
    } else if k == KeyCode::Char('s') {
        Action::ShowTab(Tab::Shop)
    } else if k == KeyCode::Char('a') {
        Action::ShowTab(Tab::Account)
    } else if k == KeyCode::Char('c') {
        Action::ShowTab(Tab::Cart)
    } else {
        tab_action(app, k)
    }
}

fn up(k: KeyCode) -> (r: bool)
    ensures
        r == is_up(k),
{
    k == KeyCode::Up || k == KeyCode::Char('k')
}

fn down(k: KeyCode) -> (r: bool)
    ensures
        r == is_down(k),
{
    k == KeyCode::Down || k == KeyCode::Char('j')
}

fn plus(k: KeyCode) -> (r: bool)
    ensures
        r == is_plus(k),
{
    k == KeyCode::Char('+') || k == KeyCode::Char('=')
}

fn minus(k: KeyCode) -> (r: bool)
    ensures
        r == is_minus(k),
{
    k == KeyCode::Char('-') || k == KeyCode::Char('_')
}

fn handle_input_mode(k: KeyCode) -> (r: Action)
    ensures
        r == input_action(k),
{
    match k {
        KeyCode::Char(c) => Action::TypeChar(c),
        KeyCode::Backspace => Action::Backspace,
        KeyCode::Tab => Action::NextField,
        KeyCode::Enter => Action::Advance,
        KeyCode::Esc => Action::Retreat,
        _ => Action::Ignore,
    }
}

fn handle_cart_keys(app: &App, k: KeyCode) -> (r: Action)
    ensures
        r == cart_action(*app, k),
{
    match app.checkout_step {
        CheckoutStep::Cart => {
            if up(k) {
                Action::PrevCartItem
            } else if down(k) {
                Action::NextCartItem
            } else if plus(k) {
                Action::IncrementLine
            } else if minus(k) {
                Action::DecrementLine
            } else if k == KeyCode::Enter || k == KeyCode::Char('c') {
                Action::Advance
            } else if k == KeyCode::Esc {
                Action::ShowTab(Tab::Shop)
            } else {
                Action::Ignore
            }
        },
        CheckoutStep::Shipping if app.shipping_mode == ShippingMode::SelectAddress => {
            if up(k) {
                Action::PrevAddress
            } else if down(k) {
                Action::NextAddress
            } else if k == KeyCode::Enter {
                Action::SelectAddress
            } else if k == KeyCode::Backspace || k == KeyCode::Delete || k == KeyCode::Char('x') {
                Action::RemoveAddress
            } else if k == KeyCode::Esc {
                Action::Retreat
            } else {
                Action::Ignore
            }
        },
        CheckoutStep::Payment if app.payment_method.is_none() => {
            if up(k) {
                Action::PrevPaymentOption
            } else if down(k) {
                Action::NextPaymentOption
            } else if k == KeyCode::Enter {
                Action::SelectPayment
            } else if k == KeyCode::Esc {
                Action::Retreat
            } else {
                Action::Ignore
            }
        },
        _ => {
            if k == KeyCode::Esc {
                Action::Retreat
            } else {
                Action::Ignore
            }
        },
    }
}

fn handle_tab_keys(app: &App, k: KeyCode) -> (r: Action)
    ensures
        r == tab_action(*app, k),
{
    match app.current_tab {
        Tab::Home => {
            if (k == KeyCode::Enter || k == KeyCode::Char('s')) && !app.products.is_empty() {
                Action::ShowTab(Tab::Shop)
            } else {
                Action::Ignore
            }
        },
        Tab::Shop => {
            if up(k) {
                Action::PrevProduct
            } else if down(k) {
                Action::NextProduct
            } else if plus(k) {
                Action::RaiseQuantity
            } else if minus(k) {
                Action::LowerQuantity
            } else if k == KeyCode::Enter {
                Action::AddToCart
            } else {
                Action::Ignore
            }
        },
        Tab::Account => {
            if up(k) {
                Action::PrevSection
            } else if down(k) {
                Action::NextSection
            } else {
                Action::Ignore
            }
        },
        Tab::Cart => handle_cart_keys(app, k),
    }
}

/// What `key` asks of the session in its present state.
pub fn handle_key_event(app: &App, key: KeyPress) -> (r: Action)
    ensures
        r == key_action(*app, key),
{
    let k = key.code;
    let quits = k == KeyCode::Char('q') || (k == KeyCode::Char('c') && key.ctrl);
    if app.show_splash {
        if quits {
            Action::Quit
        } else {
            Action::SkipSplash
        }
    } else if app.active_input != InputField::NoInput {
        handle_input_mode(k)
    } else if quits {
        Action::Quit
    } else if k == KeyCode::Char('r') {
        Action::CycleRegion
    } else if k == KeyCode::Char('s') {
        Action::ShowTab(Tab::Shop)
    } else if k == KeyCode::Char('a') {
        Action::ShowTab(Tab::Account)
    } else if k == KeyCode::Char('c') {
        Action::ShowTab(Tab::Cart)
    } else {
        handle_tab_keys(app, k)
    }
}

} // verus!
