//! The three offer-escrow operations and the transfer helpers they share.

pub mod cancel_offer;
pub mod make_offer;
pub mod shared;
pub mod take_offer;
