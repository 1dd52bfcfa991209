//! The checkout and cart workflow of a terminal storefront: the cart model,
//! the checkout state machine, the form-field model and a time-to-live cache.

pub mod fields;
pub mod text;
pub mod product;
pub mod region;
pub mod user;
pub mod cart;
pub mod cache;
pub mod clock;
pub mod order;
pub mod identity;
pub mod app;
pub mod events;
