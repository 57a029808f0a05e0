//! The persistent record of one open offer.

pub mod nft_offer;

pub use nft_offer::NftOffer;
