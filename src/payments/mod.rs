//! Payments: what is sent to create one, and what comes back.
//!
//! Card payments carry a card token instead of the card's own data.
pub mod requests;
pub mod responses;
