//! Checkout preferences: hosted payment pages. Creating one returns the
//! address of the page where the buyer pays.
pub mod requests;
pub mod responses;
