//! Two independent custodial-escrow state machines on a shared ledger model:
//! an NFT-for-token offer escrow and a per-user deposit/lock vault.
//!
//! Both components keep value under a *derived custodial authority*: an
//! address with no key, whose right to move funds is proven by reproducing
//! its derivation seeds and cached disambiguation byte rather than by a
//! signature.  The [`ledger`] module models that boundary — holdings,
//! derived addresses, the checked transfer and close primitives — and the
//! [`nft_escrow`] and [`vault`] modules verify the handlers against it.
//!
//! Every handler is a function from the accounts it runs against to the
//! complete write-set of the operation.  The surrounding runtime applies a
//! returned write-set atomically; when a handler returns an error nothing
//! is written, so a failed invocation leaves every record and holding
//! exactly as it was.

pub mod ledger;
pub mod nft_escrow;
pub mod vault;
