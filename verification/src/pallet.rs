//! The domain state machine: asset registry, ownership ledger, and
//! marketplace, held in one explicit state container.
//!
//! Every public operation takes the container by exclusive reference,
//! runs to completion, and either applies its whole effect or — on any
//! error — leaves the state exactly as it was. Each operation's
//! contract states the result as a pure transition on [`StateView`],
//! the mathematical image of the container.

use std::collections::HashMap;

use vstd::prelude::*;

use crate::currency::{Currency, CurrencyError};
use crate::randomness::{derive_random_value, spec_random_value};
use crate::types::{AccountId, ChainContext, Error, Event, EventView, Kitty, KittyId, KittyView, KITTY_PRICE};

verus! {

/// Mathematical image of one kitty table.
pub open spec fn kitty_views(m: Map<KittyId, Kitty>) -> Map<KittyId, KittyView> {
    m.map_values(|k: Kitty| k@)
}

/// Mathematical image of the event log.
pub open spec fn event_views(s: Seq<Event>) -> Seq<EventView> {
    s.map_values(|e: Event| e@)
}

/// Mathematical image of the whole module state.
#[verifier::ext_equal]
pub ghost struct StateView {
    /// The identifier the next successful creation will use.
    pub next_kitty_id: KittyId,
    /// Asset table: every kitty ever created, keyed by id.
    pub kitties: Map<KittyId, KittyView>,
    /// Ownership ledger: exactly one owner per existing kitty.
    pub owners: Map<KittyId, AccountId>,
    /// Parentage table: present exactly for kitties produced by `bred`.
    pub parents: Map<KittyId, (KittyId, KittyId)>,
    /// Marketplace listings: membership means "on sale".
    pub on_sale: Set<KittyId>,
    /// Domain events, oldest first; one per successful operation.
    pub events: Seq<EventView>,
}

/// The byte-wise genetic combination: each bit of the child comes from
/// parent `a` where the selector bit is 1, else from parent `b`.
pub open spec fn spec_mix_dna(a: Seq<u8>, b: Seq<u8>, selector: Seq<u8>) -> Seq<u8> {
    Seq::new(16, |i: int| (a[i] & selector[i]) | (b[i] & !selector[i]))
}

impl StateView {
    /// The state of a freshly initialized module: nothing created,
    /// nothing owned, nothing listed, no events.
    pub open spec fn initial() -> StateView {
        StateView {
            next_kitty_id: 0,
            kitties: Map::empty(),
            owners: Map::empty(),
            parents: Map::empty(),
            on_sale: Set::empty(),
            events: Seq::empty(),
        }
    }

    /// Structural invariant of the module state:
    /// an ownership entry exists if and only if the asset exists;
    /// parentage and listings refer only to existing assets;
    /// every allocated id lies below the counter.
    pub open spec fn inv(self) -> bool {
        &&& self.owners.dom() == self.kitties.dom()
        &&& self.parents.dom().subset_of(self.kitties.dom())
        &&& self.on_sale.subset_of(self.kitties.dom())
        &&& forall|id: KittyId| #[trigger] self.kitties.contains_key(id) ==> id < self.next_kitty_id
    }

    /// Identifier allocation: returns the counter and advances it by
    /// exactly one; fails, changing nothing, when the counter cannot
    /// be advanced.
    pub open spec fn allocate_step(self) -> (StateView, Result<KittyId, Error>) {
        if self.next_kitty_id == u32::MAX {
            (self, Err(Error::IdSpaceExhausted))
        } else {
            (
                StateView { next_kitty_id: (self.next_kitty_id + 1) as KittyId, ..self },
                Ok(self.next_kitty_id),
            )
        }
    }

    /// Creation of a root kitty for `who`: allocates an id, derives the
    /// genome from the chain context and the caller, stores the asset
    /// and its ownership, and deposits one `KittyCreated` event.
    pub open spec fn create_step(
        self,
        seed: Seq<u8>,
        extrinsic_index: u32,
        who: AccountId,
        name: Seq<u8>,
    ) -> (StateView, Result<KittyId, Error>) {
        let (allocated, alloc_result) = self.allocate_step();
        match alloc_result {
            Err(e) => (self, Err(e)),
            Ok(kitty_id) => {
                let kitty = KittyView {
                    dna: spec_random_value(seed, extrinsic_index, who),
                    name: name,
                };
                (
                    StateView {
                        kitties: self.kitties.insert(kitty_id, kitty),
                        owners: self.owners.insert(kitty_id, who),
                        events: self.events.push(
                            EventView::KittyCreated { who, kitty_id, kitty },
                        ),
                        ..allocated
                    },
                    Ok(kitty_id),
                )
            },
        }
    }

    /// Combination of two existing, distinct parents into a child for
    /// `who`. The same-parent check strictly precedes the existence
    /// check; on success the child genome obeys the bit law of
    /// [`spec_mix_dna`] with the derived selector, and the parentage
    /// table records the pair.
    pub open spec fn bred_step(
        self,
        seed: Seq<u8>,
        extrinsic_index: u32,
        who: AccountId,
        kitty_id_1: KittyId,
        kitty_id_2: KittyId,
        name: Seq<u8>,
    ) -> (StateView, Result<KittyId, Error>) {
        if kitty_id_1 == kitty_id_2 {
            (self, Err(Error::SameKittyId))
        } else if !self.kitties.contains_key(kitty_id_1) || !self.kitties.contains_key(kitty_id_2) {
            (self, Err(Error::InvalidKittyId))
        } else {
            let (allocated, alloc_result) = self.allocate_step();
            match alloc_result {
                Err(e) => (self, Err(e)),
                Ok(kitty_id) => {
                    let selector = spec_random_value(seed, extrinsic_index, who);
                    let kitty = KittyView {
                        dna: spec_mix_dna(
                            self.kitties[kitty_id_1].dna,
                            self.kitties[kitty_id_2].dna,
                            selector,
                        ),
                        name: name,
                    };
                    (
                        StateView {
                            kitties: self.kitties.insert(kitty_id, kitty),
                            owners: self.owners.insert(kitty_id, who),
                            parents: self.parents.insert(kitty_id, (kitty_id_1, kitty_id_2)),
                            events: self.events.push(
                                EventView::KittyBred { who, kitty_id, kitty },
                            ),
                            ..allocated
                        },
                        Ok(kitty_id),
                    )
                },
            }
        }
    }

    /// Ownership transfer by the current owner to `recipient`; the
    /// recipient may equal the caller, and the same event is deposited
    /// in that case.
    pub open spec fn transfer_step(
        self,
        who: AccountId,
        kitty_id: KittyId,
        recipient: AccountId,
    ) -> (StateView, Result<(), Error>) {
        if !self.owners.contains_key(kitty_id) {
            (self, Err(Error::InvalidKittyId))
        } else if self.owners[kitty_id] != who {
            (self, Err(Error::NotOwner))
        } else {
            (
                StateView {
                    owners: self.owners.insert(kitty_id, recipient),
                    events: self.events.push(
                        EventView::KittyTransferred { who, recipient, kitty_id },
                    ),
                    ..self
                },
                Ok(()),
            )
        }
    }

    /// Listing by the current owner of an existing, not yet listed
    /// kitty.
    pub open spec fn sale_step(self, who: AccountId, kitty_id: KittyId) -> (
        StateView,
        Result<(), Error>,
    ) {
        if !self.kitties.contains_key(kitty_id) {
            (self, Err(Error::InvalidKittyId))
        } else if !(self.owners.contains_key(kitty_id) && self.owners[kitty_id] == who) {
            (self, Err(Error::NotOwner))
        } else if self.on_sale.contains(kitty_id) {
            (self, Err(Error::AlreadyOnSale))
        } else {
            (
                StateView {
                    on_sale: self.on_sale.insert(kitty_id),
                    events: self.events.push(EventView::KittyOnSale { who, kitty_id }),
                    ..self
                },
                Ok(()),
            )
        }
    }

    /// The validation phase of `buy`: the error it reports for `who`
    /// and `kitty_id`, or `None` when every precondition of a purchase
    /// holds and the currency transfer will be attempted.
    pub open spec fn buy_check(self, who: AccountId, kitty_id: KittyId) -> Option<Error> {
        if !self.kitties.contains_key(kitty_id) {
            Some(Error::InvalidKittyId)
        } else if !self.owners.contains_key(kitty_id) {
            Some(Error::NotOwner)
        } else if self.owners[kitty_id] == who {
            Some(Error::AlreadyOwned)
        } else if !self.on_sale.contains(kitty_id) {
            Some(Error::NotOnSale)
        } else {
            None
        }
    }

    /// The commit phase of `buy`, applied only after the currency
    /// transfer succeeded: ownership moves to the buyer and the listing
    /// disappears in the same step, with one `KittyBought` event.
    pub open spec fn buy_commit(self, who: AccountId, kitty_id: KittyId) -> StateView {
        StateView {
            owners: self.owners.insert(kitty_id, who),
            on_sale: self.on_sale.remove(kitty_id),
            events: self.events.push(EventView::KittyBought { who, kitty_id }),
            ..self
        }
    }
}

/// A request entering the module: the closed set of operations, with
/// the caller identity kept separate because the surrounding ledger
/// authenticates it.
#[derive(Clone, Copy, Debug, PartialEq, Eq)]
pub enum Call {
    Create { name: [u8; 8] },
    Bred { kitty_id_1: KittyId, kitty_id_2: KittyId, name: [u8; 8] },
    Transfer { kitty_id: KittyId, recipient: AccountId },
    Sale { kitty_id: KittyId },
    Buy { kitty_id: KittyId },
}

/// The module's state container: identifier counter, asset table,
/// ownership ledger, parentage table, listings, and the event log.
pub struct Pallet {
    next_kitty_id: KittyId,
    kitties: HashMap<KittyId, Kitty>,
    kitty_owner: HashMap<KittyId, AccountId>,
    kitty_parents: HashMap<KittyId, (KittyId, KittyId)>,
    kitty_on_sale: HashMap<KittyId, ()>,
    events: Vec<Event>,
}

impl View for Pallet {
    type V = StateView;

    closed spec fn view(&self) -> StateView {
        StateView {
            next_kitty_id: self.next_kitty_id,
            kitties: kitty_views(self.kitties@),
            owners: self.kitty_owner@,
            parents: self.kitty_parents@,
            on_sale: self.kitty_on_sale@.dom(),
            events: event_views(self.events@),
        }
    }
}

/// Computes the child genome byte by byte, following the bit law of
/// [`spec_mix_dna`].
fn mix_dna(a: &[u8; 16], b: &[u8; 16], selector: &[u8; 16]) -> (r: [u8; 16])
    ensures
        r@ == spec_mix_dna(a@, b@, selector@),
{
    let mut r = [0u8; 16];
    for i in 0..16
        invariant
            forall|j: int| 0 <= j < i ==> r@[j] == ((a@[j] & selector@[j]) | (b@[j] & !selector@[j])),
    {
        r[i] = (a[i] & selector[i]) | (b[i] & !selector[i]);
    }
    proof {
        assert(r@ =~= spec_mix_dna(a@, b@, selector@));
    }
    r
}

proof fn lemma_kitty_views_insert(m: Map<KittyId, Kitty>, id: KittyId, k: Kitty)
    ensures
        kitty_views(m.insert(id, k)) =~= kitty_views(m).insert(id, k@),
{
}

proof fn lemma_event_views_push(s: Seq<Event>, e: Event)
    ensures
        event_views(s.push(e)) =~= event_views(s).push(e@),
{
    assert forall|i: int| 0 <= i < s.len() + 1 implies event_views(s.push(e))[i] == event_views(
        s,
    ).push(e@)[i] by {
        if i < s.len() {
            assert(s.push(e)[i] == s[i]);
        } else {
            assert(s.push(e)[i] == e);
        }
    }
}

impl Pallet {
    /// Well-formedness of the container: its mathematical image
    /// satisfies the structural invariant.
    pub open spec fn wf(&self) -> bool {
        self@.inv()
    }

    /// A freshly initialized module.
    pub fn new() -> (p: Pallet)
        ensures
            p@ == StateView::initial(),
            p.wf(),
    {
        let p = Pallet {
            next_kitty_id: 0,
            kitties: HashMap::new(),
            kitty_owner: HashMap::new(),
            kitty_parents: HashMap::new(),
            kitty_on_sale: HashMap::new(),
            events: Vec::new(),
        };
        proof {
            assert(p@.kitties =~= StateView::initial().kitties);
            assert(p@.on_sale =~= StateView::initial().on_sale);
            assert(p@.events =~= StateView::initial().events);
            assert(p@ =~= StateView::initial());
        }
        p
    }

    /// The id the next successful creation will use.
    pub fn next_kitty_id(&self) -> (r: KittyId)
        ensures
            r == self@.next_kitty_id,
    {
        self.next_kitty_id
    }

    /// Pure lookup in the asset table.
    pub fn kitties(&self, kitty_id: KittyId) -> (r: Option<Kitty>)
        ensures
            match r {
                Some(k) => self@.kitties.contains_key(kitty_id) && k@ == self@.kitties[kitty_id],
                None => !self@.kitties.contains_key(kitty_id),
            },
    {
        match self.kitties.get(&kitty_id) {
            Some(k) => Some(*k),
            None => None,
        }
    }

    /// Pure lookup in the ownership ledger.
    pub fn kitty_owner(&self, kitty_id: KittyId) -> (r: Option<AccountId>)
        ensures
            match r {
                Some(owner) => self@.owners.contains_key(kitty_id) && owner == self@.owners[kitty_id],
                None => !self@.owners.contains_key(kitty_id),
            },
    {
        match self.kitty_owner.get(&kitty_id) {
            Some(owner) => Some(*owner),
            None => None,
        }
    }

    /// Pure lookup in the parentage table.
    pub fn kitty_parents(&self, kitty_id: KittyId) -> (r: Option<(KittyId, KittyId)>)
        ensures
            match r {
                Some(parents) => self@.parents.contains_key(kitty_id) && parents
                    == self@.parents[kitty_id],
                None => !self@.parents.contains_key(kitty_id),
            },
    {
        match self.kitty_parents.get(&kitty_id) {
            Some(parents) => Some(*parents),
            None => None,
        }
    }

    /// Pure lookup in the listing table: `Some(())` means on sale.
    pub fn kitty_on_sale(&self, kitty_id: KittyId) -> (r: Option<()>)
        ensures
            r is Some <==> self@.on_sale.contains(kitty_id),
    {
        match self.kitty_on_sale.get(&kitty_id) {
            Some(_) => Some(()),
            None => None,
        }
    }

    /// The events deposited so far, oldest first.
    pub fn events(&self) -> (r: &Vec<Event>)
        ensures
            event_views(r@) == self@.events,
    {
        &self.events
    }

    /// Overwrites the identifier counter. This models the surrounding
    /// ledger poking the stored counter directly; the new value must
    /// stay above every allocated id.
    pub fn set_next_kitty_id(&mut self, next: KittyId)
        requires
            old(self).wf(),
            forall|id: KittyId| #[trigger] old(self)@.kitties.contains_key(id) ==> id < next,
        ensures
            final(self).wf(),
            final(self)@ == (StateView { next_kitty_id: next, ..old(self)@ }),
    {
        self.next_kitty_id = next;
    }

    /// Derives the 16-byte pseudo-random value for `sender` in `ctx`:
    /// the Blake2b-128 digest of the canonical encoding of the chain
    /// randomness seed, the sender, and the extrinsic index. A pure
    /// function of those three inputs.
    pub fn random_value(ctx: &ChainContext, sender: AccountId) -> (r: [u8; 16])
        ensures
            r@ == spec_random_value(ctx.randomness_seed@, ctx.extrinsic_index, sender),
    {
        derive_random_value(ctx, sender)
    }

    /// Allocates the next identifier: returns the counter and advances
    /// it by exactly one, or fails with `IdSpaceExhausted` — changing
    /// nothing — when the counter has reached its maximum.
    pub fn get_next_id(&mut self) -> (r: Result<KittyId, Error>)
        requires
            old(self).wf(),
        ensures
            final(self).wf(),
            ({
                let (post, result) = old(self)@.allocate_step();
                final(self)@ == post && r == result
            }),
    {
        if self.next_kitty_id == u32::MAX {
            Err(Error::IdSpaceExhausted)
        } else {
            let current_id = self.next_kitty_id;
            self.next_kitty_id = self.next_kitty_id + 1;
            Ok(current_id)
        }
    }

    /// Creates a root kitty owned by `who`, with a genome derived from
    /// the chain context and the caller. Fails only when the identifier
    /// space is exhausted, and then changes nothing.
    pub fn create(&mut self, ctx: &ChainContext, who: AccountId, name: [u8; 8]) -> (r: Result<
        KittyId,
        Error,
    >)
        requires
            old(self).wf(),
        ensures
            final(self).wf(),
            ({
                let (post, result) = old(self)@.create_step(
                    ctx.randomness_seed@,
                    ctx.extrinsic_index,
                    who,
                    name@,
                );
                final(self)@ == post && r == result
            }),
    {
        let kitty_id = match self.get_next_id() {
            Ok(id) => id,
            Err(e) => {
                return Err(e);
            },
        };
        let dna = derive_random_value(ctx, who);
        let kitty = Kitty { dna, name };
        self.kitties.insert(kitty_id, kitty);
        self.kitty_owner.insert(kitty_id, who);
        self.events.push(Event::KittyCreated { who, kitty_id, kitty });
        proof {
            lemma_kitty_views_insert(old(self).kitties@, kitty_id, kitty);
            lemma_event_views_push(old(self).events@, Event::KittyCreated { who, kitty_id, kitty });
            let (post, result) = old(self)@.create_step(
                ctx.randomness_seed@,
                ctx.extrinsic_index,
                who,
                name@,
            );
            assert(self@ =~= post);
        }
        Ok(kitty_id)
    }

    /// Combines two existing, distinct parents owned by anyone into a
    /// child owned by `who`. The child genome takes, at every bit
    /// position, the bit of the first parent where the derived selector
    /// bit is 1 and the bit of the second parent otherwise; the
    /// parentage table records `(kitty_id_1, kitty_id_2)` under the new
    /// id. The same-parent error takes precedence over the existence
    /// check, and every failure leaves the state unchanged.
    pub fn bred(
        &mut self,
        ctx: &ChainContext,
        who: AccountId,
        kitty_id_1: KittyId,
        kitty_id_2: KittyId,
        name: [u8; 8],
    ) -> (r: Result<KittyId, Error>)
        requires
            old(self).wf(),
        ensures
            final(self).wf(),
            ({
                let (post, result) = old(self)@.bred_step(
                    ctx.randomness_seed@,
                    ctx.extrinsic_index,
                    who,
                    kitty_id_1,
                    kitty_id_2,
                    name@,
                );
                final(self)@ == post && r == result
            }),
    {
        if kitty_id_1 == kitty_id_2 {
            return Err(Error::SameKittyId);
        }
        if !self.kitties.contains_key(&kitty_id_1) {
            return Err(Error::InvalidKittyId);
        }
        if !self.kitties.contains_key(&kitty_id_2) {
            return Err(Error::InvalidKittyId);
        }
        let kitty_id = match self.get_next_id() {
            Ok(id) => id,
            Err(e) => {
                return Err(e);
            },
        };
        let kitty_1 = match self.kitties(kitty_id_1) {
            Some(k) => k,
            None => {
                return Err(Error::InvalidKittyId);
            },
        };
        let kitty_2 = match self.kitties(kitty_id_2) {
            Some(k) => k,
            None => {
                return Err(Error::InvalidKittyId);
            },
        };
        let selector = derive_random_value(ctx, who);
        let dna = mix_dna(&kitty_1.dna, &kitty_2.dna, &selector);
        let kitty = Kitty { dna, name };
        self.kitties.insert(kitty_id, kitty);
        self.kitty_owner.insert(kitty_id, who);
        self.kitty_parents.insert(kitty_id, (kitty_id_1, kitty_id_2));
        self.events.push(Event::KittyBred { who, kitty_id, kitty });
        proof {
            lemma_kitty_views_insert(old(self).kitties@, kitty_id, kitty);
            lemma_event_views_push(old(self).events@, Event::KittyBred { who, kitty_id, kitty });
            let (post, result) = old(self)@.bred_step(
                ctx.randomness_seed@,
                ctx.extrinsic_index,
                who,
                kitty_id_1,
                kitty_id_2,
                name@,
            );
            assert(self@ =~= post);
        }
        Ok(kitty_id)
    }

    /// Transfers ownership of `kitty_id` from the caller to
    /// `recipient`. Fails with `InvalidKittyId` when no ownership
    /// record exists and with `NotOwner` when the caller is not the
    /// current owner; self-transfer is legal and deposits the same
    /// event.
    pub fn transfer(&mut self, who: AccountId, kitty_id: KittyId, recipient: AccountId) -> (r:
        Result<(), Error>)
        requires
            old(self).wf(),
        ensures
            final(self).wf(),
            ({
                let (post, result) = old(self)@.transfer_step(who, kitty_id, recipient);
                final(self)@ == post && r == result
            }),
    {
        if !self.kitty_owner.contains_key(&kitty_id) {
            return Err(Error::InvalidKittyId);
        }
        let owner = match self.kitty_owner(kitty_id) {
            Some(owner) => owner,
            None => {
                return Err(Error::InvalidKittyId);
            },
        };
        if owner != who {
            return Err(Error::NotOwner);
        }
        self.kitty_owner.insert(kitty_id, recipient);
        self.events.push(Event::KittyTransferred { who, recipient, kitty_id });
        proof {
            lemma_event_views_push(
                old(self).events@,
                Event::KittyTransferred { who, recipient, kitty_id },
            );
            let (post, result) = old(self)@.transfer_step(who, kitty_id, recipient);
            assert(self@ =~= post);
            assert(self@.owners.dom() =~= self@.kitties.dom());
        }
        Ok(())
    }

    /// Lists `kitty_id` for sale at the fixed module price. The kitty
    /// must exist, the caller must be its current owner, and it must
    /// not already be listed; every failure leaves the state unchanged.
    pub fn sale(&mut self, who: AccountId, kitty_id: KittyId) -> (r: Result<(), Error>)
        requires
            old(self).wf(),
        ensures
            final(self).wf(),
            ({
                let (post, result) = old(self)@.sale_step(who, kitty_id);
                final(self)@ == post && r == result
            }),
    {
        if !self.kitties.contains_key(&kitty_id) {
            return Err(Error::InvalidKittyId);
        }
        let is_owner = match self.kitty_owner(kitty_id) {
            Some(owner) => owner == who,
            None => false,
        };
        if !is_owner {
            return Err(Error::NotOwner);
        }
        if self.kitty_on_sale.contains_key(&kitty_id) {
            return Err(Error::AlreadyOnSale);
        }
        self.kitty_on_sale.insert(kitty_id, ());
        self.events.push(Event::KittyOnSale { who, kitty_id });
        proof {
            lemma_event_views_push(old(self).events@, Event::KittyOnSale { who, kitty_id });
            let (post, result) = old(self)@.sale_step(who, kitty_id);
            assert(self@.on_sale =~= post.on_sale);
            assert(self@ =~= post);
        }
        Ok(())
    }

    /// Buys a listed kitty from its current owner at the fixed module
    /// price. All validations run first; only when every one of them
    /// holds is the currency collaborator asked to move the price from
    /// the buyer to the seller, with the keep-alive requirement. A
    /// refused transfer aborts the purchase with `InsufficientFunds`
    /// and no state change, so the listing and the ownership stay as
    /// they were; a successful transfer moves ownership to the buyer
    /// and removes the listing in the same step.
    pub fn buy<C: Currency>(
        &mut self,
        currency: &mut C,
        who: AccountId,
        kitty_id: KittyId,
    ) -> (r: Result<(), Error>)
        requires
            old(self).wf(),
        ensures
            final(self).wf(),
            match old(self)@.buy_check(who, kitty_id) {
                Some(e) => r == Err::<(), Error>(e) && final(self)@ == old(self)@,
                None => match r {
                    Ok(_) => final(self)@ == old(self)@.buy_commit(who, kitty_id),
                    Err(e) => e == Error::InsufficientFunds && final(self)@ == old(self)@,
                },
            },
    {
        if !self.kitties.contains_key(&kitty_id) {
            return Err(Error::InvalidKittyId);
        }
        let owner = match self.kitty_owner(kitty_id) {
            Some(owner) => owner,
            None => {
                return Err(Error::NotOwner);
            },
        };
        if owner == who {
            return Err(Error::AlreadyOwned);
        }
        if !self.kitty_on_sale.contains_key(&kitty_id) {
            return Err(Error::NotOnSale);
        }
        let payment = currency.transfer(who, owner, KITTY_PRICE, true);
        self.buy_settle(who, kitty_id, payment)
    }

    /// Settles a fully validated purchase around the currency
    /// collaborator's answer: a successful payment commits — ownership
    /// to the buyer and the listing removed in the same step, with one
    /// bought event — and a refused payment aborts with
    /// `InsufficientFunds` and no state change at all.
    pub fn buy_settle(
        &mut self,
        who: AccountId,
        kitty_id: KittyId,
        payment: Result<(), CurrencyError>,
    ) -> (r: Result<(), Error>)
        requires
            old(self).wf(),
            old(self)@.buy_check(who, kitty_id) is None,
        ensures
            final(self).wf(),
            payment is Ok ==> r == Ok::<(), Error>(()) && final(self)@ == old(self)@.buy_commit(
                who,
                kitty_id,
            ),
            payment is Err ==> r == Err::<(), Error>(Error::InsufficientFunds) && final(self)@
                == old(self)@,
    {
        match payment {
            Ok(_) => {},
            Err(_) => {
                return Err(Error::InsufficientFunds);
            },
        }
        self.kitty_owner.insert(kitty_id, who);
        self.kitty_on_sale.remove(&kitty_id);
        self.events.push(Event::KittyBought { who, kitty_id });
        proof {
            lemma_event_views_push(old(self).events@, Event::KittyBought { who, kitty_id });
            assert(self@.on_sale =~= old(self)@.buy_commit(who, kitty_id).on_sale);
            assert(self@ =~= old(self)@.buy_commit(who, kitty_id));
            assert(self@.owners.dom() =~= self@.kitties.dom());
        }
        Ok(())
    }

    /// The single dispatcher: routes an authenticated request to its
    /// handler. Requests that allocate report success without the new
    /// id, as the surrounding ledger's dispatch does.
    pub fn dispatch<C: Currency>(
        &mut self,
        ctx: &ChainContext,
        currency: &mut C,
        who: AccountId,
        call: Call,
    ) -> (r: Result<(), Error>)
        requires
            old(self).wf(),
        ensures
            final(self).wf(),
            match call {
                Call::Create { name } => {
                    let (post, result) = old(self)@.create_step(
                        ctx.randomness_seed@,
                        ctx.extrinsic_index,
                        who,
                        name@,
                    );
                    &&& final(self)@ == post
                    &&& (result is Ok ==> r == Ok::<(), Error>(()))
                    &&& (result matches Err(e) ==> r == Err::<(), Error>(e))
                },
                Call::Bred { kitty_id_1, kitty_id_2, name } => {
                    let (post, result) = old(self)@.bred_step(
                        ctx.randomness_seed@,
                        ctx.extrinsic_index,
                        who,
                        kitty_id_1,
                        kitty_id_2,
                        name@,
                    );
                    &&& final(self)@ == post
                    &&& (result is Ok ==> r == Ok::<(), Error>(()))
                    &&& (result matches Err(e) ==> r == Err::<(), Error>(e))
                },
                Call::Transfer { kitty_id, recipient } => {
                    let (post, result) = old(self)@.transfer_step(who, kitty_id, recipient);
                    final(self)@ == post && r == result
                },
                Call::Sale { kitty_id } => {
                    let (post, result) = old(self)@.sale_step(who, kitty_id);
                    final(self)@ == post && r == result
                },
                Call::Buy { kitty_id } => match old(self)@.buy_check(who, kitty_id) {
                    Some(e) => r == Err::<(), Error>(e) && final(self)@ == old(self)@,
                    None => match r {
                        Ok(_) => final(self)@ == old(self)@.buy_commit(who, kitty_id),
                        Err(e) => e == Error::InsufficientFunds && final(self)@ == old(self)@,
                    },
                },
            },
    {
        match call {
            Call::Create { name } => match self.create(ctx, who, name) {
                Ok(_) => Ok(()),
                Err(e) => Err(e),
            },
            Call::Bred { kitty_id_1, kitty_id_2, name } => {
                match self.bred(ctx, who, kitty_id_1, kitty_id_2, name) {
                    Ok(_) => Ok(()),
                    Err(e) => Err(e),
                }
            },
            Call::Transfer { kitty_id, recipient } => self.transfer(who, kitty_id, recipient),
            Call::Sale { kitty_id } => self.sale(who, kitty_id),
            Call::Buy { kitty_id } => self.buy(currency, who, kitty_id),
        }
    }
}

} // verus!
