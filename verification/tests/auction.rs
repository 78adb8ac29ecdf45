//! The contract's operations, played against a small stand-in for the token
//! service.

use dutch_auction::{
    AuctionContract, AuctionContractTrait, AuctionError, Auth, DataKey, Env, Identifier,
    Settlement, Signature, Step, StoredValue, TokenCall, TokenReply,
};
use rand::{thread_rng, RngCore};

/// A token service in memory: balances and allowances, and the three calls.
#[derive(Clone)]
struct FakeTokens {
    balances: Vec<([u8; 32], Identifier, i128)>,
    allowances: Vec<([u8; 32], Identifier, Identifier, i128)>,
}

impl FakeTokens {
    fn new() -> Self {
        FakeTokens { balances: Vec::new(), allowances: Vec::new() }
    }

    fn balance(&self, asset: &[u8; 32], id: &Identifier) -> i128 {
        for (a, i, amount) in &self.balances {
            if a == asset && i == id {
                return *amount;
            }
        }
        0
    }

    fn allowance(&self, asset: &[u8; 32], owner: &Identifier, spender: &Identifier) -> i128 {
        for (a, o, s, amount) in &self.allowances {
            if a == asset && o == owner && s == spender {
                return *amount;
            }
        }
        0
    }

    fn set_balance(&mut self, asset: &[u8; 32], id: &Identifier, amount: i128) {
        for entry in self.balances.iter_mut() {
            if &entry.0 == asset && &entry.1 == id {
                entry.2 = amount;
                return;
            }
        }
        self.balances.push((*asset, *id, amount));
    }

    fn mint(&mut self, asset: &[u8; 32], to: &Identifier, amount: i128) {
        let held = self.balance(asset, to);
        self.set_balance(asset, to, held + amount);
    }

    fn approve(&mut self, asset: &[u8; 32], owner: &Identifier, spender: &Identifier, amount: i128) {
        for entry in self.allowances.iter_mut() {
            if &entry.0 == asset && &entry.1 == owner && &entry.2 == spender {
                entry.3 = amount;
                return;
            }
        }
        self.allowances.push((*asset, *owner, *spender, amount));
    }

    fn move_amount(&mut self, asset: &[u8; 32], from: &Identifier, to: &Identifier, amount: i128) -> bool {
        if amount < 0 || self.balance(asset, from) < amount {
            return false;
        }
        if from != to {
            let credited = match self.balance(asset, to).checked_add(amount) {
                Some(sum) => sum,
                None => return false,
            };
            let debited = self.balance(asset, from) - amount;
            self.set_balance(asset, from, debited);
            self.set_balance(asset, to, credited);
        }
        true
    }

    fn answer(&mut self, invoker: &Identifier, call: &TokenCall) -> TokenReply {
        match call {
            TokenCall::Balance { asset, id } => TokenReply::Balance(self.balance(asset, id)),
            TokenCall::Transfer { asset, auth: _, to, amount } => {
                if self.move_amount(asset, invoker, to, *amount) {
                    TokenReply::Done
                } else {
                    TokenReply::Rejected
                }
            }
            TokenCall::TransferFrom { asset, auth: _, from, to, amount } => {
                let allowed = self.allowance(asset, from, invoker);
                if *amount <= allowed && self.move_amount(asset, from, to, *amount) {
                    self.approve(asset, from, invoker, allowed - *amount);
                    TokenReply::Done
                } else {
                    TokenReply::Rejected
                }
            }
        }
    }
}

/// One whole `buy` invocation: each call that the purchase names is made,
/// and a purchase that fails leaves the balances as they were.
fn invoke_buy(e: &Env, tokens: &mut FakeTokens, from: Identifier) -> Result<(), AuctionError> {
    let before = tokens.clone();
    let contract = Identifier::Contract(e.contract_id);
    let mut step = AuctionContract::buy(e, from)?;
    while let Some(call) = step.call.clone() {
        let reply = tokens.answer(&contract, &call);
        step = step.state.advance(reply);
    }
    match step.state.outcome() {
        Some(Ok(())) => Ok(()),
        Some(Err(err)) => {
            *tokens = before;
            Err(err)
        }
        None => unreachable!(),
    }
}

fn generate_contract_id() -> [u8; 32] {
    let mut id: [u8; 32] = Default::default();
    thread_rng().fill_bytes(&mut id);
    id
}

fn generate_account() -> Identifier {
    Identifier::Account(generate_contract_id())
}

fn create_test_token_contract(tokens: &mut FakeTokens, admin: &Identifier) -> [u8; 32] {
    let id = generate_contract_id();
    tokens.mint(&id, admin, 0);
    id
}

fn create_usdc_contract(tokens: &mut FakeTokens, admin: &Identifier) -> [u8; 32] {
    let id = generate_contract_id();
    tokens.mint(&id, admin, 0);
    id
}

fn create_auction_contract(
    timestamp: u64,
    admin: &Identifier,
    token_id: &[u8; 32],
    item_id: &[u8; 32],
    starting_price: i128,
    minimum_price: i128,
    slope: i128,
) -> ([u8; 32], Env) {
    let id = generate_contract_id();
    let mut e = Env::new(id, timestamp);
    AuctionContract::initialize(
        &mut e,
        *admin,
        *token_id,
        *item_id,
        starting_price,
        minimum_price,
        slope,
    )
    .unwrap();
    (id, e)
}

/// An auction of 10 units of a prize for a price that starts at 5, falls by
/// one each 900 seconds and stops at 1, with a buyer who holds 1000.
struct Scene {
    e: Env,
    tokens: FakeTokens,
    usdc: [u8; 32],
    prize: [u8; 32],
    admin: Identifier,
    buyer: Identifier,
    auction: Identifier,
}

fn scene() -> Scene {
    let mut tokens = FakeTokens::new();
    let admin = generate_account();
    let buyer = generate_account();
    let usdc = create_usdc_contract(&mut tokens, &generate_account());
    let prize = create_test_token_contract(&mut tokens, &generate_account());
    let (id, e) = create_auction_contract(1666359075, &admin, &usdc, &prize, 5, 1, 900);
    let auction = Identifier::Contract(id);
    tokens.mint(&prize, &auction, 10);
    tokens.mint(&usdc, &buyer, 1000);
    Scene { e, tokens, usdc, prize, admin, buyer, auction }
}

#[test]
fn test() {
    let mut tokens = FakeTokens::new();
    let admin1 = generate_account(); // the usdc admin
    let admin2 = generate_account(); // the TEST token admin

    let user1_id = generate_account(); // auction admin
    let user2_id = generate_account(); // buyer

    let (usdc_id, test_token_id) = (
        create_usdc_contract(&mut tokens, &admin1),
        create_test_token_contract(&mut tokens, &admin2),
    );

    // usdc as auction token, test token as prize, a starting price of 5 usdc, a minimum
    // price of 1 usdc, and a slope of 900: the auction reaches the minimum price after an
    // hour, 5 - (3600 / 900) = 1
    let (contract_auction, mut e) =
        create_auction_contract(1666359075, &user1_id, &usdc_id, &test_token_id, 5, 1, 900);
    let auction_id = Identifier::Contract(contract_auction);

    // 10 test token to user1, who deposits them into the auction as prize
    tokens.mint(&test_token_id, &user1_id, 10);
    let deposit = TokenCall::Transfer {
        asset: test_token_id,
        auth: Auth { sig: Signature::Invoker, nonce: 0 },
        to: auction_id,
        amount: 10,
    };
    assert_eq!(tokens.answer(&user1_id, &deposit), TokenReply::Done);

    // 1000 usdc to user2
    tokens.mint(&usdc_id, &user2_id, 1000);

    // 1800 seconds have passed (30 min)
    e.timestamp = 1666360875;

    // user2 allows the auction the current price, 5 - (1800 / 900) = 3 usdc
    let price = AuctionContract::get_price(&e).unwrap();
    tokens.approve(&usdc_id, &user2_id, &auction_id, price);

    // user2 enters the auction
    invoke_buy(&e, &mut tokens, user2_id).unwrap();

    // the buyer (user2) should have 1000 - 3 as usdc balance
    assert_eq!(tokens.balance(&usdc_id, &user2_id), 997);

    // the auction admin (user1) should have 3 as usdc balance
    assert_eq!(tokens.balance(&usdc_id, &user1_id), 3);

    // the buyer (user2) should have 10 as TEST token balance
    assert_eq!(tokens.balance(&test_token_id, &user2_id), 10);
}

#[test]
fn purchase_moves_the_price_and_the_whole_prize() {
    let mut s = scene();
    s.e.timestamp = 1666359075 + 1800;
    assert_eq!(AuctionContract::get_price(&s.e), Ok(3));
    s.tokens.approve(&s.usdc, &s.buyer, &s.auction, 3);

    assert_eq!(invoke_buy(&s.e, &mut s.tokens, s.buyer), Ok(()));

    assert_eq!(s.tokens.balance(&s.usdc, &s.buyer), 997);
    assert_eq!(s.tokens.balance(&s.usdc, &s.admin), 3);
    assert_eq!(s.tokens.balance(&s.prize, &s.buyer), 10);
    assert_eq!(s.tokens.balance(&s.prize, &s.auction), 0);
    assert_eq!(s.tokens.allowance(&s.usdc, &s.buyer, &s.auction), 0);
}

#[test]
fn purchase_names_payment_then_balance_then_release() {
    let mut s = scene();
    s.e.timestamp = 1666359075 + 1800;
    let own = Auth { sig: Signature::Invoker, nonce: 0 };

    let first = AuctionContract::buy(&s.e, s.buyer).unwrap();
    assert_eq!(
        first,
        Step {
            state: Settlement::AwaitingPayment {
                prize: s.prize,
                holder: s.auction,
                buyer: s.buyer
            },
            call: Some(TokenCall::TransferFrom {
                asset: s.usdc,
                auth: own.clone(),
                from: s.buyer,
                to: s.admin,
                amount: 3,
            }),
        }
    );
    assert_eq!(first.state.outcome(), None);

    let second = first.state.advance(TokenReply::Done);
    assert_eq!(
        second,
        Step {
            state: Settlement::AwaitingBalance { prize: s.prize, buyer: s.buyer },
            call: Some(TokenCall::Balance { asset: s.prize, id: s.auction }),
        }
    );

    let third = second.state.advance(TokenReply::Balance(10));
    assert_eq!(
        third,
        Step {
            state: Settlement::AwaitingRelease,
            call: Some(TokenCall::Transfer { asset: s.prize, auth: own, to: s.buyer, amount: 10 }),
        }
    );

    let last = third.state.advance(TokenReply::Done);
    assert_eq!(last, Step { state: Settlement::Settled, call: None });
    assert_eq!(last.state.outcome(), Some(Ok(())));
}

#[test]
fn purchase_with_too_small_an_allowance_is_rejected() {
    let mut s = scene();
    s.e.timestamp = 1666359075 + 1800;
    s.tokens.approve(&s.usdc, &s.buyer, &s.auction, 2);

    assert_eq!(invoke_buy(&s.e, &mut s.tokens, s.buyer), Err(AuctionError::TransferRejected));

    assert_eq!(s.tokens.balance(&s.usdc, &s.buyer), 1000);
    assert_eq!(s.tokens.balance(&s.usdc, &s.admin), 0);
    assert_eq!(s.tokens.balance(&s.prize, &s.buyer), 0);
    assert_eq!(s.tokens.balance(&s.prize, &s.auction), 10);
    assert_eq!(s.tokens.allowance(&s.usdc, &s.buyer, &s.auction), 2);
}

#[test]
fn purchase_with_too_small_a_balance_is_rejected() {
    let mut s = scene();
    let poor = generate_account();
    s.tokens.mint(&s.usdc, &poor, 4);
    s.tokens.approve(&s.usdc, &poor, &s.auction, 100);

    assert_eq!(AuctionContract::get_price(&s.e), Ok(5));
    assert_eq!(invoke_buy(&s.e, &mut s.tokens, poor), Err(AuctionError::TransferRejected));
    assert_eq!(s.tokens.balance(&s.usdc, &poor), 4);
    assert_eq!(s.tokens.balance(&s.prize, &s.auction), 10);
}

#[test]
fn rejected_release_undoes_the_payment() {
    let mut s = scene();
    s.tokens.approve(&s.usdc, &s.buyer, &s.auction, 5);
    // a prize balance that the buyer cannot hold: the release is declined
    s.tokens.mint(&s.prize, &s.buyer, i128::MAX);

    assert_eq!(invoke_buy(&s.e, &mut s.tokens, s.buyer), Err(AuctionError::TransferRejected));
    assert_eq!(s.tokens.balance(&s.usdc, &s.buyer), 1000);
    assert_eq!(s.tokens.balance(&s.usdc, &s.admin), 0);
    assert_eq!(s.tokens.balance(&s.prize, &s.auction), 10);
}

#[test]
fn second_purchase_pays_the_price_for_an_empty_prize() {
    let mut s = scene();
    s.e.timestamp = 1666359075 + 3600;
    assert_eq!(AuctionContract::get_price(&s.e), Ok(1));
    s.tokens.approve(&s.usdc, &s.buyer, &s.auction, 1);
    assert_eq!(invoke_buy(&s.e, &mut s.tokens, s.buyer), Ok(()));
    assert_eq!(s.tokens.balance(&s.prize, &s.buyer), 10);

    let late = generate_account();
    s.tokens.mint(&s.usdc, &late, 50);
    s.tokens.approve(&s.usdc, &late, &s.auction, 50);
    s.e.timestamp = 1666359075 + 100_000;
    assert_eq!(AuctionContract::get_price(&s.e), Ok(1));
    assert_eq!(invoke_buy(&s.e, &mut s.tokens, late), Ok(()));

    assert_eq!(s.tokens.balance(&s.usdc, &late), 49);
    assert_eq!(s.tokens.balance(&s.usdc, &s.admin), 2);
    assert_eq!(s.tokens.balance(&s.prize, &late), 0);
    assert_eq!(s.tokens.balance(&s.prize, &s.auction), 0);
}

#[test]
fn initialize_writes_the_configuration() {
    let s = scene();
    assert_eq!(s.e.store.get(&DataKey::Admin), Some(StoredValue::Identity(s.admin)));
    assert_eq!(s.e.store.get(&DataKey::TokenId), Some(StoredValue::Asset(s.usdc)));
    assert_eq!(s.e.store.get(&DataKey::ItemId), Some(StoredValue::Asset(s.prize)));
    assert_eq!(s.e.store.get(&DataKey::Price), Some(StoredValue::Amount(5)));
    assert_eq!(s.e.store.get(&DataKey::MinPrice), Some(StoredValue::Amount(1)));
    assert_eq!(s.e.store.get(&DataKey::Slope), Some(StoredValue::Amount(900)));
    assert_eq!(s.e.store.get(&DataKey::Timestamp), Some(StoredValue::Time(1666359075)));
    assert_eq!(s.e.timestamp, 1666359075);
}

#[test]
fn initialize_checks_nothing_of_the_values() {
    let mut e = Env::new([7; 32], 10);
    let admin = Identifier::Account([1; 32]);
    assert_eq!(AuctionContract::initialize(&mut e, admin, [2; 32], [2; 32], 1, 9, 0), Ok(()));
    assert_eq!(e.store.get(&DataKey::Price), Some(StoredValue::Amount(1)));
    assert_eq!(e.store.get(&DataKey::MinPrice), Some(StoredValue::Amount(9)));
    assert_eq!(e.store.get(&DataKey::Slope), Some(StoredValue::Amount(0)));
}

#[test]
fn second_initialize_fails_and_changes_nothing() {
    let mut s = scene();
    s.e.timestamp = 1666359075 + 50;
    let other = generate_account();
    let r = AuctionContract::initialize(&mut s.e, other, [9; 32], [8; 32], 77, 7, 1);
    assert_eq!(r, Err(AuctionError::AlreadyInitialized));

    assert_eq!(s.e.store.get(&DataKey::Admin), Some(StoredValue::Identity(s.admin)));
    assert_eq!(s.e.store.get(&DataKey::TokenId), Some(StoredValue::Asset(s.usdc)));
    assert_eq!(s.e.store.get(&DataKey::ItemId), Some(StoredValue::Asset(s.prize)));
    assert_eq!(s.e.store.get(&DataKey::Price), Some(StoredValue::Amount(5)));
    assert_eq!(s.e.store.get(&DataKey::MinPrice), Some(StoredValue::Amount(1)));
    assert_eq!(s.e.store.get(&DataKey::Slope), Some(StoredValue::Amount(900)));
    assert_eq!(s.e.store.get(&DataKey::Timestamp), Some(StoredValue::Time(1666359075)));
    assert_eq!(AuctionContract::get_price(&s.e), Ok(5));
}

#[test]
fn nothing_works_before_initialize() {
    let e = Env::new(generate_contract_id(), 1666359075);
    assert_eq!(AuctionContract::get_price(&e), Err(AuctionError::Uninitialized));
    assert_eq!(AuctionContract::nonce(&e), Err(AuctionError::Uninitialized));
    assert_eq!(AuctionContract::buy(&e, generate_account()), Err(AuctionError::Uninitialized));
}

#[test]
fn nonce_is_zero_until_one_is_stored() {
    let mut s = scene();
    assert_eq!(AuctionContract::nonce(&s.e), Ok(0));

    s.e.store.set(DataKey::Nonce(s.buyer), StoredValue::Amount(4));
    assert_eq!(AuctionContract::nonce(&s.e), Ok(0));

    s.e.store.set(DataKey::Nonce(s.admin), StoredValue::Amount(12));
    assert_eq!(AuctionContract::nonce(&s.e), Ok(12));
}

#[test]
fn get_price_changes_nothing() {
    let mut s = scene();
    s.e.timestamp = 1666359075 + 900;
    assert_eq!(AuctionContract::get_price(&s.e), Ok(4));
    assert_eq!(AuctionContract::get_price(&s.e), Ok(4));
    assert_eq!(s.e.store.get(&DataKey::Price), Some(StoredValue::Amount(5)));
    assert_eq!(s.e.store.get(&DataKey::Timestamp), Some(StoredValue::Time(1666359075)));
}

#[test]
fn an_answer_that_does_not_fit_ends_the_purchase() {
    let buyer = Identifier::Account([3; 32]);
    let holder = Identifier::Contract([4; 32]);
    let rejected = Step { state: Settlement::Rejected, call: None };

    let paying = Settlement::AwaitingPayment { prize: [5; 32], holder, buyer };
    assert_eq!(paying.advance(TokenReply::Rejected), rejected);
    assert_eq!(paying.advance(TokenReply::Balance(1)), rejected);

    let asking = Settlement::AwaitingBalance { prize: [5; 32], buyer };
    assert_eq!(asking.advance(TokenReply::Rejected), rejected);
    assert_eq!(asking.advance(TokenReply::Done), rejected);

    assert_eq!(Settlement::AwaitingRelease.advance(TokenReply::Rejected), rejected);
    assert_eq!(Settlement::AwaitingRelease.advance(TokenReply::Balance(0)), rejected);

    assert_eq!(Settlement::Rejected.advance(TokenReply::Done), rejected);
    assert_eq!(
        Settlement::Settled.advance(TokenReply::Rejected),
        Step { state: Settlement::Settled, call: None }
    );
    assert_eq!(Settlement::Rejected.outcome(), Some(Err(AuctionError::TransferRejected)));
    assert_eq!(paying.outcome(), None);
    assert_eq!(asking.outcome(), None);
    assert_eq!(Settlement::AwaitingRelease.outcome(), None);
}
