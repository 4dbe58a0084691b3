//! End-to-end scenarios: the documented behaviors of the state machine
//! on concrete inputs, including the atomicity of a purchase around a
//! refused currency transfer.

use std::collections::HashMap;

use kitties::pallet::Call;
use kitties::{ChainContext, Currency, CurrencyError, Error, Event, Pallet, KITTY_PRICE};

struct TestLedger {
    balances: HashMap<u64, u128>,
}

impl TestLedger {
    fn new() -> TestLedger {
        TestLedger { balances: HashMap::new() }
    }

    fn set_balance(&mut self, account: u64, amount: u128) {
        self.balances.insert(account, amount);
    }

    fn balance(&self, account: u64) -> u128 {
        *self.balances.get(&account).unwrap_or(&0)
    }
}

impl Currency for TestLedger {
    fn transfer(
        &mut self,
        from: u64,
        to: u64,
        amount: u128,
        keep_alive: bool,
    ) -> Result<(), CurrencyError> {
        let from_balance = self.balance(from);
        if from_balance < amount {
            return Err(CurrencyError);
        }
        if keep_alive && from_balance - amount < 1 {
            return Err(CurrencyError);
        }
        let to_balance = self.balance(to);
        self.balances.insert(from, from_balance - amount);
        self.balances.insert(to, to_balance + amount);
        Ok(())
    }
}

/// A currency collaborator that refuses every transfer.
struct RefusingLedger;

impl Currency for RefusingLedger {
    fn transfer(&mut self, _: u64, _: u64, _: u128, _: bool) -> Result<(), CurrencyError> {
        Err(CurrencyError)
    }
}

fn test_ctx() -> ChainContext {
    ChainContext { randomness_seed: [42u8; 32], extrinsic_index: 3 }
}

const NAME: [u8; 8] = *b"kittycat";

#[test]
fn scenario_create_on_empty_state() {
    let ctx = test_ctx();
    let mut pallet = Pallet::new();

    assert_eq!(pallet.create(&ctx, 1, NAME), Ok(0));
    assert_eq!(pallet.next_kitty_id(), 1);
    assert_eq!(pallet.kitty_owner(0), Some(1));
}

#[test]
fn scenario_combine_same_parent_changes_nothing() {
    let ctx = test_ctx();
    let mut pallet = Pallet::new();

    assert_eq!(pallet.create(&ctx, 1, NAME), Ok(0));
    assert_eq!(pallet.bred(&ctx, 1, 0, 0, NAME), Err(Error::SameKittyId));
    assert_eq!(pallet.next_kitty_id(), 1);
    assert_eq!(pallet.events().len(), 1);
    // The same-parent error wins even when both parents are unknown.
    assert_eq!(pallet.bred(&ctx, 1, 9, 9, NAME), Err(Error::SameKittyId));
}

#[test]
fn scenario_buy_with_sufficient_funds() {
    let ctx = test_ctx();
    let mut pallet = Pallet::new();
    let mut ledger = TestLedger::new();
    ledger.set_balance(2, 1000);

    assert_eq!(pallet.create(&ctx, 1, NAME), Ok(0));
    assert_eq!(pallet.sale(1, 0), Ok(()));
    assert_eq!(pallet.buy(&mut ledger, 2, 0), Ok(()));

    assert_eq!(pallet.kitty_owner(0), Some(2));
    assert_eq!(pallet.kitty_on_sale(0), None);
    let bought = pallet
        .events()
        .iter()
        .filter(|e| **e == Event::KittyBought { who: 2, kitty_id: 0 })
        .count();
    assert_eq!(bought, 1);
    // The settlement moved exactly the fixed price from buyer to seller.
    assert_eq!(ledger.balance(2), 1000 - KITTY_PRICE);
    assert_eq!(ledger.balance(1), KITTY_PRICE);
}

#[test]
fn scenario_self_purchase_rejected() {
    let ctx = test_ctx();
    let mut pallet = Pallet::new();
    let mut ledger = TestLedger::new();
    ledger.set_balance(1, 1000);

    assert_eq!(pallet.create(&ctx, 1, NAME), Ok(0));
    assert_eq!(pallet.sale(1, 0), Ok(()));
    assert_eq!(pallet.buy(&mut ledger, 1, 0), Err(Error::AlreadyOwned));

    assert_eq!(pallet.kitty_on_sale(0), Some(()));
    assert_eq!(pallet.kitty_owner(0), Some(1));
    assert_eq!(ledger.balance(1), 1000);
}

#[test]
fn buy_with_failing_transfer_changes_nothing() {
    let ctx = test_ctx();
    let mut pallet = Pallet::new();

    assert_eq!(pallet.create(&ctx, 1, NAME), Ok(0));
    assert_eq!(pallet.sale(1, 0), Ok(()));
    let events_before = pallet.events().len();

    let mut refusing = RefusingLedger;
    assert_eq!(pallet.buy(&mut refusing, 2, 0), Err(Error::InsufficientFunds));

    // The listing stays present, the seller keeps the kitty, and no
    // event was deposited.
    assert_eq!(pallet.kitty_on_sale(0), Some(()));
    assert_eq!(pallet.kitty_owner(0), Some(1));
    assert_eq!(pallet.events().len(), events_before);
}

#[test]
fn buy_settle_commits_or_aborts_on_the_payment() {
    let ctx = test_ctx();
    let mut pallet = Pallet::new();
    assert_eq!(pallet.create(&ctx, 1, NAME), Ok(0));
    assert_eq!(pallet.sale(1, 0), Ok(()));

    // A refused payment aborts with no state change.
    assert_eq!(
        pallet.buy_settle(2, 0, Err(CurrencyError)),
        Err(Error::InsufficientFunds)
    );
    assert_eq!(pallet.kitty_owner(0), Some(1));
    assert_eq!(pallet.kitty_on_sale(0), Some(()));
    assert_eq!(pallet.events().len(), 2);

    // A successful payment commits both effects in the same step.
    assert_eq!(pallet.buy_settle(2, 0, Ok(())), Ok(()));
    assert_eq!(pallet.kitty_owner(0), Some(2));
    assert_eq!(pallet.kitty_on_sale(0), None);
    assert_eq!(pallet.events().last(), Some(&Event::KittyBought { who: 2, kitty_id: 0 }));
}

#[test]
fn buy_of_unlisted_kitty_rejected() {
    let ctx = test_ctx();
    let mut pallet = Pallet::new();
    let mut ledger = TestLedger::new();
    ledger.set_balance(2, 1000);

    assert_eq!(pallet.create(&ctx, 1, NAME), Ok(0));
    assert_eq!(pallet.buy(&mut ledger, 2, 0), Err(Error::NotOnSale));
    assert_eq!(pallet.kitty_owner(0), Some(1));
    assert_eq!(ledger.balance(2), 1000);
}

#[test]
fn transfer_of_unknown_kitty_rejected() {
    let mut pallet = Pallet::new();
    assert_eq!(pallet.transfer(1, 7, 2), Err(Error::InvalidKittyId));
    assert_eq!(pallet.events().len(), 0);
}

#[test]
fn sale_errors_cover_every_guard() {
    let ctx = test_ctx();
    let mut pallet = Pallet::new();
    assert_eq!(pallet.sale(1, 0), Err(Error::InvalidKittyId));
    assert_eq!(pallet.create(&ctx, 1, NAME), Ok(0));
    assert_eq!(pallet.sale(2, 0), Err(Error::NotOwner));
    assert_eq!(pallet.sale(1, 0), Ok(()));
    assert_eq!(pallet.sale(1, 0), Err(Error::AlreadyOnSale));
}

#[test]
fn self_transfer_succeeds_with_same_event() {
    let ctx = test_ctx();
    let mut pallet = Pallet::new();

    assert_eq!(pallet.create(&ctx, 1, NAME), Ok(0));
    assert_eq!(pallet.transfer(1, 0, 1), Ok(()));
    assert_eq!(pallet.kitty_owner(0), Some(1));
    assert_eq!(
        pallet.events().last(),
        Some(&Event::KittyTransferred { who: 1, recipient: 1, kitty_id: 0 })
    );
}

#[test]
fn identifier_exhaustion_fails_without_mutation() {
    let ctx = test_ctx();
    let mut pallet = Pallet::new();

    assert_eq!(pallet.create(&ctx, 1, NAME), Ok(0));
    pallet.set_next_kitty_id(u32::MAX);
    assert_eq!(pallet.create(&ctx, 1, NAME), Err(Error::IdSpaceExhausted));
    assert_eq!(pallet.bred(&ctx, 1, 0, 0, NAME), Err(Error::SameKittyId));
    assert_eq!(pallet.next_kitty_id(), u32::MAX);
    assert_eq!(pallet.events().len(), 1);
}

#[test]
fn identifiers_increase_by_one_across_operation_types() {
    let ctx = test_ctx();
    let mut pallet = Pallet::new();
    let mut ledger = TestLedger::new();
    ledger.set_balance(2, 1000);

    assert_eq!(pallet.create(&ctx, 1, NAME), Ok(0));
    assert_eq!(pallet.create(&ctx, 1, NAME), Ok(1));
    // Interleave non-allocating operations; the counter must not move.
    assert_eq!(pallet.transfer(1, 0, 2), Ok(()));
    assert_eq!(pallet.sale(1, 1), Ok(()));
    assert_eq!(pallet.bred(&ctx, 1, 0, 1, NAME), Ok(2));
    assert_eq!(pallet.buy(&mut ledger, 2, 1), Ok(()));
    assert_eq!(pallet.bred(&ctx, 1, 0, 2, NAME), Ok(3));
    assert_eq!(pallet.next_kitty_id(), 4);
}

#[test]
fn dispatch_routes_every_call() {
    let ctx = test_ctx();
    let mut pallet = Pallet::new();
    let mut ledger = TestLedger::new();
    ledger.set_balance(2, 1000);

    assert_eq!(pallet.dispatch(&ctx, &mut ledger, 1, Call::Create { name: NAME }), Ok(()));
    assert_eq!(
        pallet.dispatch(
            &ctx,
            &mut ledger,
            1,
            Call::Bred { kitty_id_1: 0, kitty_id_2: 0, name: NAME },
        ),
        Err(Error::SameKittyId)
    );
    assert_eq!(pallet.dispatch(&ctx, &mut ledger, 1, Call::Sale { kitty_id: 0 }), Ok(()));
    assert_eq!(pallet.dispatch(&ctx, &mut ledger, 2, Call::Buy { kitty_id: 0 }), Ok(()));
    assert_eq!(
        pallet.dispatch(&ctx, &mut ledger, 2, Call::Transfer { kitty_id: 0, recipient: 1 }),
        Ok(())
    );
    assert_eq!(pallet.kitty_owner(0), Some(1));
    assert_eq!(pallet.events().len(), 4);
}
