//! A verified registry and marketplace for uniquely identified digital
//! assets ("kitties").
//!
//! The crate models the domain state machine of a ledger module: a
//! monotonic identifier allocator, a deterministic pseudo-random genome
//! derivation, a genetic-combination rule for deriving child assets from
//! two parents, an ownership ledger with authorization checks, a
//! two-phase marketplace (list, then buy with an escrow-style currency
//! transfer), and a one-shot storage-schema migration.
//!
//! All state lives in an explicit [`pallet::Pallet`] container passed by
//! exclusive reference into each operation; collaborators that the
//! surrounding ledger provides (chain randomness, extrinsic index,
//! currency transfer) enter as plain values or through the
//! [`currency::Currency`] trait, so every operation is a deterministic
//! function of its inputs.

pub mod currency;
pub mod laws;
pub mod migrations;
pub mod pallet;
pub mod randomness;
pub mod types;

pub use currency::{Currency, CurrencyError};
pub use pallet::Pallet;
pub use types::{AccountId, Balance, ChainContext, Error, Event, Kitty, KittyId, KITTY_PRICE};
