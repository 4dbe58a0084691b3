//! Laws of the state machine, stated and proved once over the spec
//! transitions that the operations' contracts are written in.

use vstd::prelude::*;

use crate::pallet::StateView;
use crate::randomness::spec_random_value;
use crate::types::{AccountId, Error, EventView, KittyId};

verus! {

/// One allocating call — a creation or a combination — with its inputs.
pub ghost enum AllocatingCall {
    Create { who: AccountId, name: Seq<u8> },
    Bred { who: AccountId, kitty_id_1: KittyId, kitty_id_2: KittyId, name: Seq<u8> },
}

/// The transition an allocating call makes from `s` in context
/// `(seed, extrinsic_index)`.
pub open spec fn allocating_step(
    s: StateView,
    seed: Seq<u8>,
    extrinsic_index: u32,
    call: AllocatingCall,
) -> (StateView, Result<KittyId, Error>) {
    match call {
        AllocatingCall::Create { who, name } => s.create_step(seed, extrinsic_index, who, name),
        AllocatingCall::Bred { who, kitty_id_1, kitty_id_2, name } => s.bred_step(
            seed,
            extrinsic_index,
            who,
            kitty_id_1,
            kitty_id_2,
            name,
        ),
    }
}

/// Law: every successful creation or combination returns exactly the
/// pre-state counter and advances it by one, and every failure leaves
/// the counter unchanged — so an id, once returned, is never reused.
pub proof fn lemma_allocation_counter(
    s: StateView,
    seed: Seq<u8>,
    extrinsic_index: u32,
    call: AllocatingCall,
)
    ensures
        ({
            let (post, result) = allocating_step(s, seed, extrinsic_index, call);
            match result {
                Ok(id) => id == s.next_kitty_id && post.next_kitty_id == id + 1,
                Err(_) => post.next_kitty_id == s.next_kitty_id,
            }
        }),
{
}

/// Law: the non-allocating operations — transfer, listing, and the
/// commit of a purchase — never move the identifier counter, so the
/// ids handed out by consecutive successful creations stay consecutive
/// across any interleaving of operation types.
pub proof fn lemma_non_allocating_counter(
    s: StateView,
    who: AccountId,
    kitty_id: KittyId,
    recipient: AccountId,
)
    ensures
        s.transfer_step(who, kitty_id, recipient).0.next_kitty_id == s.next_kitty_id,
        s.sale_step(who, kitty_id).0.next_kitty_id == s.next_kitty_id,
        s.buy_commit(who, kitty_id).next_kitty_id == s.next_kitty_id,
{
}

/// Law (identifier monotonicity): two consecutive successful allocating
/// calls, in any combination of create and combine, return consecutive
/// ids: the second id is exactly the first plus one.
pub proof fn lemma_id_monotonic(
    s: StateView,
    seed_1: Seq<u8>,
    extrinsic_index_1: u32,
    call_1: AllocatingCall,
    seed_2: Seq<u8>,
    extrinsic_index_2: u32,
    call_2: AllocatingCall,
)
    ensures
        ({
            let (s1, r1) = allocating_step(s, seed_1, extrinsic_index_1, call_1);
            let (s2, r2) = allocating_step(s1, seed_2, extrinsic_index_2, call_2);
            (r1 is Ok && r2 is Ok) ==> r2->Ok_0 == r1->Ok_0 + 1
        }),
{
}

/// Law (determinism): combining parents with byte-identical stored
/// genomes, for the same caller and the same injected randomness and
/// extrinsic index, yields byte-identical child genomes — whatever
/// states the parents live in, whatever their ids, and whatever labels
/// the children get.
pub proof fn lemma_bred_deterministic(
    s1: StateView,
    s2: StateView,
    seed: Seq<u8>,
    extrinsic_index: u32,
    who: AccountId,
    a1: KittyId,
    b1: KittyId,
    a2: KittyId,
    b2: KittyId,
    name_1: Seq<u8>,
    name_2: Seq<u8>,
)
    requires
        s1.kitties.contains_key(a1),
        s1.kitties.contains_key(b1),
        s2.kitties.contains_key(a2),
        s2.kitties.contains_key(b2),
        s1.kitties[a1].dna == s2.kitties[a2].dna,
        s1.kitties[b1].dna == s2.kitties[b2].dna,
    ensures
        ({
            let (t1, r1) = s1.bred_step(seed, extrinsic_index, who, a1, b1, name_1);
            let (t2, r2) = s2.bred_step(seed, extrinsic_index, who, a2, b2, name_2);
            (r1 is Ok && r2 is Ok) ==> t1.kitties[r1->Ok_0].dna == t2.kitties[r2->Ok_0].dna
        }),
{
}

/// Law (genetic combination bit law): for every successful combination
/// and every byte position, the child byte is the first parent's byte
/// masked by the selector, or-ed with the second parent's byte masked
/// by the selector's complement.
pub proof fn lemma_bred_bit_law(
    s: StateView,
    seed: Seq<u8>,
    extrinsic_index: u32,
    who: AccountId,
    kitty_id_1: KittyId,
    kitty_id_2: KittyId,
    name: Seq<u8>,
)
    ensures
        ({
            let (t, r) = s.bred_step(seed, extrinsic_index, who, kitty_id_1, kitty_id_2, name);
            let selector = spec_random_value(seed, extrinsic_index, who);
            r is Ok ==> {
                let child = t.kitties[r->Ok_0].dna;
                &&& child.len() == 16
                &&& forall|i: int|
                    0 <= i < 16 ==> (#[trigger] child[i]) == ((s.kitties[kitty_id_1].dna[i]
                        & selector[i]) | (s.kitties[kitty_id_2].dna[i] & !selector[i]))
            }
        }),
{
}

/// Law (ownership invariant): an allocating step from a state where
/// every asset has exactly one owner and vice versa reaches such a
/// state again.
pub proof fn lemma_inv_preserved_allocating(
    s: StateView,
    seed: Seq<u8>,
    extrinsic_index: u32,
    call: AllocatingCall,
)
    requires
        s.inv(),
    ensures
        allocating_step(s, seed, extrinsic_index, call).0.inv(),
{
    let post = allocating_step(s, seed, extrinsic_index, call).0;
    assert(post.owners.dom() =~= post.kitties.dom());
}

/// Law (ownership invariant): transfer, listing, and the commit of a
/// purchase preserve the ownership invariant as well.
pub proof fn lemma_inv_preserved_non_allocating(
    s: StateView,
    who: AccountId,
    kitty_id: KittyId,
    recipient: AccountId,
)
    requires
        s.inv(),
    ensures
        s.transfer_step(who, kitty_id, recipient).0.inv(),
        s.sale_step(who, kitty_id).0.inv(),
        s.buy_check(who, kitty_id) is None ==> s.buy_commit(who, kitty_id).inv(),
{
    let t = s.transfer_step(who, kitty_id, recipient).0;
    assert(t.owners.dom() =~= t.kitties.dom());
    let u = s.sale_step(who, kitty_id).0;
    assert(u.owners.dom() =~= u.kitties.dom());
    if s.buy_check(who, kitty_id) is None {
        let v = s.buy_commit(who, kitty_id);
        assert(v.owners.dom() =~= v.kitties.dom());
    }
}

/// Law (authorization, success half): a self-transfer by the current
/// owner succeeds, leaves every table — the owner map included —
/// unchanged, and deposits the same transfer event an ordinary
/// transfer would. The failure half — any caller other than the
/// current owner is refused with `NotOwner` and nothing changes — is
/// part of `transfer_step` and `sale_step` themselves.
pub proof fn lemma_self_transfer(s: StateView, who: AccountId, kitty_id: KittyId)
    requires
        s.owners.contains_key(kitty_id),
        s.owners[kitty_id] == who,
    ensures
        ({
            let (t, r) = s.transfer_step(who, kitty_id, who);
            &&& r is Ok
            &&& t.owners == s.owners
            &&& t.kitties == s.kitties
            &&& t.parents == s.parents
            &&& t.on_sale == s.on_sale
            &&& t.next_kitty_id == s.next_kitty_id
            &&& t.events == s.events.push(
                EventView::KittyTransferred { who, recipient: who, kitty_id },
            )
        }),
{
    assert(s.owners.insert(kitty_id, who) =~= s.owners);
}

/// Law (marketplace atomicity, commit half): the commit of a purchase
/// moves ownership to the buyer and removes the listing in one step,
/// deposits exactly one bought event, and touches nothing else. The
/// abort half — a refused currency transfer leaves the whole state,
/// listing included, unchanged — is stated by the contract of
/// [`crate::pallet::Pallet::buy`].
pub proof fn lemma_buy_commit_effects(s: StateView, who: AccountId, kitty_id: KittyId)
    ensures
        ({
            let t = s.buy_commit(who, kitty_id);
            &&& t.owners[kitty_id] == who
            &&& !t.on_sale.contains(kitty_id)
            &&& t.kitties == s.kitties
            &&& t.parents == s.parents
            &&& t.next_kitty_id == s.next_kitty_id
            &&& t.events == s.events.push(EventView::KittyBought { who, kitty_id })
            &&& forall|other: KittyId|
                other != kitty_id ==> (s.on_sale.contains(other) <==> #[trigger] t.on_sale.contains(
                    other,
                ))
            &&& forall|other: KittyId|
                other != kitty_id && s.owners.contains_key(other) ==> #[trigger] t.owners[other]
                    == s.owners[other]
        }),
{
}

} // verus!
