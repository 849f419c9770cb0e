//! Card tokens: one-time references that stand in for a card's number and
//! security code, so that payments never carry the card's own data.
pub mod requests;
pub mod responses;
