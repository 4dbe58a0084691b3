//! Core data model: identifiers, assets, errors, events, and the chain
//! context that feeds the deterministic randomness derivation.

use vstd::prelude::*;

verus! {

/// Identifier of a kitty. Allocated monotonically, starting at 0, and
/// never reused.
pub type KittyId = u32;

/// Opaque caller identity, supplied already authenticated by the
/// surrounding ledger.
pub type AccountId = u64;

/// Currency amount used by the marketplace.
pub type Balance = u128;

/// Fixed module-wide sale price of a kitty. Listings carry no price of
/// their own; every sale settles at this amount.
pub const KITTY_PRICE: Balance = 10;

/// An asset record: a 16-byte genome, opaque to its owner, and an
/// 8-byte display label that is never validated. Immutable once stored.
#[derive(Clone, Copy, Debug, PartialEq, Eq)]
pub struct Kitty {
    pub dna: [u8; 16],
    pub name: [u8; 8],
}

/// Mathematical image of a [`Kitty`]: both fixed-size byte arrays as
/// sequences.
pub ghost struct KittyView {
    pub dna: Seq<u8>,
    pub name: Seq<u8>,
}

impl View for Kitty {
    type V = KittyView;

    open spec fn view(&self) -> KittyView {
        KittyView { dna: self.dna@, name: self.name@ }
    }
}

/// Everything that can go wrong in a public operation. Each operation's
/// contract states exactly which inputs produce which variant.
#[derive(Clone, Copy, Debug, PartialEq, Eq)]
pub enum Error {
    /// The named kitty id has no record.
    InvalidKittyId,
    /// A combination was requested with both parents the same id.
    SameKittyId,
    /// The caller is not the current owner of the kitty.
    NotOwner,
    /// The kitty is already listed for sale.
    AlreadyOnSale,
    /// The kitty is not currently listed for sale.
    NotOnSale,
    /// The buyer already owns the kitty.
    AlreadyOwned,
    /// The identifier counter cannot be advanced any further.
    IdSpaceExhausted,
    /// The currency collaborator refused the sale settlement.
    InsufficientFunds,
}

/// Domain event deposited by each successful operation; exactly one per
/// success, none on failure.
#[derive(Clone, Copy, Debug, PartialEq, Eq)]
pub enum Event {
    KittyCreated { who: AccountId, kitty_id: KittyId, kitty: Kitty },
    KittyBred { who: AccountId, kitty_id: KittyId, kitty: Kitty },
    KittyTransferred { who: AccountId, recipient: AccountId, kitty_id: KittyId },
    KittyOnSale { who: AccountId, kitty_id: KittyId },
    KittyBought { who: AccountId, kitty_id: KittyId },
}

/// Mathematical image of an [`Event`].
pub ghost enum EventView {
    KittyCreated { who: AccountId, kitty_id: KittyId, kitty: KittyView },
    KittyBred { who: AccountId, kitty_id: KittyId, kitty: KittyView },
    KittyTransferred { who: AccountId, recipient: AccountId, kitty_id: KittyId },
    KittyOnSale { who: AccountId, kitty_id: KittyId },
    KittyBought { who: AccountId, kitty_id: KittyId },
}

impl View for Event {
    type V = EventView;

    open spec fn view(&self) -> EventView {
        match *self {
            Event::KittyCreated { who, kitty_id, kitty } => EventView::KittyCreated {
                who,
                kitty_id,
                kitty: kitty@,
            },
            Event::KittyBred { who, kitty_id, kitty } => EventView::KittyBred {
                who,
                kitty_id,
                kitty: kitty@,
            },
            Event::KittyTransferred { who, recipient, kitty_id } => EventView::KittyTransferred {
                who,
                recipient,
                kitty_id,
            },
            Event::KittyOnSale { who, kitty_id } => EventView::KittyOnSale { who, kitty_id },
            Event::KittyBought { who, kitty_id } => EventView::KittyBought { who, kitty_id },
        }
    }
}

/// The per-execution chain context: the chain randomness seed and the
/// index of the extrinsic being executed. The surrounding ledger reads
/// both and hands them in; within one logical step they are fixed, which
/// makes every derivation from them replayable.
#[derive(Clone, Copy, Debug)]
pub struct ChainContext {
    pub randomness_seed: [u8; 32],
    pub extrinsic_index: u32,
}

} // verus!
