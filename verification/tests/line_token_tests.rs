//! The fungible token: balances, allowances and pull transfers.

use line_market::actor::ActorId;
use line_market::line_token::funcs::{balance_of, mint, transfer};
use line_market::line_token::{Error, Event, LineTokenService};
use line_market::tables::AmountTable;
use line_market::u256::U256;

fn actor(n: u64) -> ActorId {
    ActorId::new(sails_rs::ActorId::from(n).into_bytes())
}

fn admin() -> ActorId {
    actor(42)
}

/// A token with `admin()` as deployer and the given balances minted.
fn token_with(balances: &[(ActorId, u64)]) -> LineTokenService {
    let mut token = LineTokenService::init(admin(), "LINE".to_string(), "LINE".to_string(), 12);
    for (account, amount) in balances {
        assert_eq!(token.mint(admin(), *account, U256::from(*amount)), Ok(true));
    }
    token.take_events();
    token
}

#[test]
fn test_transfer_basic() {
    let mut balances = AmountTable::new();
    let user_a = actor(1);
    let user_b = actor(2);

    balances.insert(user_a, U256::from(100u64));

    let success = transfer(&mut balances, user_a, user_b, U256::from(30u64));

    assert_eq!(success, Ok(true));
    assert_eq!(balances.get(&user_a), Some(U256::from(70u64)));
    assert_eq!(balances.get(&user_b), Some(U256::from(30u64)));
}

#[test]
fn test_transfer_zero_returns_false() {
    let mut balances = AmountTable::new();
    let user_a = actor(1);
    let user_b = actor(2);

    balances.insert(user_a, U256::from(100u64));

    let success = transfer(&mut balances, user_a, user_b, U256::from(0u64));

    assert_eq!(success, Ok(false));
    assert_eq!(balances.get(&user_a), Some(U256::from(100u64)));
}

#[test]
fn test_transfer_insufficient_balance_panics() {
    let mut balances = AmountTable::new();
    let user_a = actor(1);
    let user_b = actor(2);

    balances.insert(user_a, U256::from(10u64));

    let result = transfer(&mut balances, user_a, user_b, U256::from(50u64));

    assert_eq!(result, Err(Error::InsufficientBalance));
    assert_eq!(balances.get(&user_a), Some(U256::from(10u64)));
    assert_eq!(balances.get(&user_b), None);
}

#[test]
fn test_balance_of_returns_zero_for_unknown() {
    let balances = AmountTable::new();
    let unknown_user = actor(999);

    assert_eq!(balance_of(&balances, unknown_user), U256::from(0u64));
}

#[test]
fn test_approve_sets_allowance() {
    let mut token = token_with(&[]);
    let owner = actor(1);
    let spender = actor(2);

    assert!(token.approve(owner, spender, U256::from(100u64)));

    assert_eq!(token.allowance(owner, spender), U256::from(100u64));
    assert_eq!(
        token.take_events(),
        vec![Event::Approval { owner, spender, value: U256::from(100u64) }]
    );
}

#[test]
fn test_allowance_returns_zero_if_not_set() {
    let token = token_with(&[]);
    let owner = actor(1);
    let spender = actor(2);

    assert_eq!(token.allowance(owner, spender), U256::from(0u64));
}

#[test]
fn test_approve_overwrites_previous_allowance() {
    let mut token = token_with(&[]);
    let owner = actor(1);
    let spender = actor(2);

    token.approve(owner, spender, U256::from(100u64));
    assert_eq!(token.allowance(owner, spender), U256::from(100u64));

    token.approve(owner, spender, U256::from(50u64));
    assert_eq!(token.allowance(owner, spender), U256::from(50u64));

    // Approving zero revokes: the allowance reads zero and its entry is gone.
    assert!(token.approve(owner, spender, U256::from(0u64)));
    assert_eq!(token.allowance(owner, spender), U256::from(0u64));
    assert_eq!(token.storage().allowances.get(&owner, &spender), None);
}

#[test]
fn test_transfer_from_success() {
    let owner = actor(1);
    let spender = actor(2);
    let recipient = actor(3);
    let mut token = token_with(&[(owner, 100)]);

    token.approve(owner, spender, U256::from(50u64));
    token.take_events();

    let success = token.transfer_from(spender, owner, recipient, U256::from(30u64));

    assert_eq!(success, Ok(true));
    assert_eq!(token.storage().balances.get(&owner), Some(U256::from(70u64)));
    assert_eq!(token.storage().balances.get(&recipient), Some(U256::from(30u64)));
    assert_eq!(token.storage().allowances.get(&owner, &spender), Some(U256::from(20u64)));
    assert_eq!(
        token.take_events(),
        vec![Event::Transfer { from: owner, to: recipient, value: U256::from(30u64) }]
    );
}

#[test]
fn test_transfer_from_fails_without_allowance() {
    let owner = actor(1);
    let spender = actor(2);
    let recipient = actor(3);
    let mut token = token_with(&[(owner, 100)]);

    let result = token.transfer_from(spender, owner, recipient, U256::from(10u64));

    assert_eq!(result, Err(Error::InsufficientAllowance));
    assert_eq!(token.balance_of(owner), U256::from(100u64));
    assert_eq!(token.balance_of(recipient), U256::from(0u64));
    assert!(token.take_events().is_empty());
}

#[test]
fn test_allowance_reduced_after_transfer() {
    let owner = actor(1);
    let spender = actor(2);
    let recipient = actor(3);
    let mut token = token_with(&[(owner, 100)]);
    token.approve(owner, spender, U256::from(50u64));

    assert_eq!(token.transfer_from(spender, owner, recipient, U256::from(20u64)), Ok(true));
    assert_eq!(token.storage().allowances.get(&owner, &spender), Some(U256::from(30u64)));

    assert_eq!(token.transfer_from(spender, owner, recipient, U256::from(30u64)), Ok(true));
    assert!(token.storage().allowances.get(&owner, &spender).is_none());
}

#[test]
fn test_transfer_from_fails_with_insufficient_balance() {
    let owner = actor(1);
    let spender = actor(2);
    let recipient = actor(3);
    let mut token = token_with(&[(owner, 10)]);
    token.approve(owner, spender, U256::from(100u64));

    let result = token.transfer_from(spender, owner, recipient, U256::from(50u64));

    assert_eq!(result, Err(Error::InsufficientBalance));
    // Nothing moved, and the allowance was not spent.
    assert_eq!(token.balance_of(owner), U256::from(10u64));
    assert_eq!(token.balance_of(recipient), U256::from(0u64));
    assert_eq!(token.allowance(owner, spender), U256::from(100u64));
}

#[test]
fn test_transfer_from_exact_allowance() {
    let owner = actor(1);
    let spender = actor(2);
    let recipient = actor(3);
    let mut token = token_with(&[(owner, 100)]);
    token.approve(owner, spender, U256::from(50u64));

    let success = token.transfer_from(spender, owner, recipient, U256::from(50u64));

    assert_eq!(success, Ok(true));
    assert_eq!(token.storage().balances.get(&owner), Some(U256::from(50u64)));
    assert_eq!(token.storage().balances.get(&recipient), Some(U256::from(50u64)));
    assert!(token.storage().allowances.get(&owner, &spender).is_none());
}

#[test]
fn mint_grows_balance_and_supply_together() {
    let alice = actor(1);
    let mut token = token_with(&[(alice, 1000)]);

    assert_eq!(token.mint(admin(), alice, U256::from(250u64)), Ok(true));

    assert_eq!(token.balance_of(alice), U256::from(1250u64));
    assert_eq!(token.total_supply(), U256::from(1250u64));
    assert_eq!(token.take_events(), vec![Event::Minted { to: alice, value: U256::from(250u64) }]);
}

#[test]
fn mint_of_zero_changes_nothing() {
    let alice = actor(1);
    let mut token = token_with(&[(alice, 5)]);

    assert_eq!(token.mint(admin(), alice, U256::zero()), Ok(false));

    assert_eq!(token.total_supply(), U256::from(5u64));
    assert!(token.take_events().is_empty());
}

#[test]
fn mint_by_a_stranger_is_refused() {
    let alice = actor(1);
    let mut token = token_with(&[]);

    assert_eq!(token.mint(alice, alice, U256::from(1u64)), Err(Error::NotMinter));
    assert_eq!(token.total_supply(), U256::zero());
}

#[test]
fn mint_past_256_bits_is_refused() {
    let alice = actor(1);
    let bob = actor(2);
    let max = U256 { l0: u64::MAX, l1: u64::MAX, l2: u64::MAX, l3: u64::MAX };
    let mut token = token_with(&[]);
    assert_eq!(token.mint(admin(), alice, max), Ok(true));

    assert_eq!(token.mint(admin(), bob, U256::from(1u64)), Err(Error::TotalSupplyOverflow));

    assert_eq!(token.total_supply(), max);
    assert_eq!(token.balance_of(bob), U256::zero());
}

#[test]
fn table_mint_reports_each_overflow() {
    let alice = actor(1);
    let max = U256 { l0: u64::MAX, l1: u64::MAX, l2: u64::MAX, l3: u64::MAX };

    let mut balances = AmountTable::new();
    let mut supply = max;
    assert_eq!(
        mint(&mut balances, &mut supply, alice, U256::from(1u64)),
        Err(Error::TotalSupplyOverflow)
    );

    let mut balances = AmountTable::new();
    balances.insert(alice, max);
    let mut supply = U256::zero();
    assert_eq!(
        mint(&mut balances, &mut supply, alice, U256::from(1u64)),
        Err(Error::BalanceOverflow)
    );
    assert_eq!(supply, U256::zero());
    assert_eq!(balances.get(&alice), Some(max));
}

#[test]
fn table_transfer_reports_recipient_overflow() {
    let alice = actor(1);
    let bob = actor(2);
    let max = U256 { l0: u64::MAX, l1: u64::MAX, l2: u64::MAX, l3: u64::MAX };
    let mut balances = AmountTable::new();
    balances.insert(alice, U256::from(5u64));
    balances.insert(bob, max);

    assert_eq!(
        transfer(&mut balances, alice, bob, U256::from(1u64)),
        Err(Error::BalanceOverflow)
    );
    assert_eq!(balances.get(&alice), Some(U256::from(5u64)));
}

#[test]
fn transfer_to_oneself_moves_nothing_but_is_emitted() {
    let alice = actor(1);
    let mut token = token_with(&[(alice, 100)]);

    assert_eq!(token.transfer(alice, alice, U256::from(40u64)), Ok(true));

    assert_eq!(token.balance_of(alice), U256::from(100u64));
    assert_eq!(token.total_supply(), U256::from(100u64));
    assert_eq!(
        token.take_events(),
        vec![Event::Transfer { from: alice, to: alice, value: U256::from(40u64) }]
    );
    // Still bounded by what the sender holds.
    assert_eq!(token.transfer(alice, alice, U256::from(101u64)), Err(Error::InsufficientBalance));
}

#[test]
fn transfer_of_the_whole_balance_prunes_the_entry() {
    let alice = actor(1);
    let bob = actor(2);
    let mut token = token_with(&[(alice, 100)]);

    assert_eq!(token.transfer(alice, bob, U256::from(100u64)), Ok(true));

    assert_eq!(token.storage().balances.get(&alice), None);
    assert_eq!(token.storage().balances.len(), 1);
    assert_eq!(token.total_supply(), U256::from(100u64));
}

#[test]
fn transfer_from_keeps_the_sum_of_both_balances() {
    let owner = actor(1);
    let spender = actor(2);
    let recipient = actor(3);
    let mut token = token_with(&[(owner, 100), (recipient, 7)]);
    token.approve(owner, spender, U256::from(60u64));

    assert_eq!(token.transfer_from(spender, owner, recipient, U256::from(25u64)), Ok(true));

    assert_eq!(token.allowance(owner, spender), U256::from(35u64));
    assert_eq!(token.balance_of(owner), U256::from(75u64));
    assert_eq!(token.balance_of(recipient), U256::from(32u64));
    assert_eq!(token.total_supply(), U256::from(107u64));
}

#[test]
fn allowance_exhaustion() {
    let owner = actor(1);
    let spender = actor(2);
    let x = actor(3);
    let mut token = token_with(&[(owner, 1000)]);
    token.approve(owner, spender, U256::from(100u64));

    assert_eq!(token.transfer_from(spender, owner, x, U256::from(60u64)), Ok(true));
    assert_eq!(token.allowance(owner, spender), U256::from(40u64));

    assert_eq!(
        token.transfer_from(spender, owner, x, U256::from(50u64)),
        Err(Error::InsufficientAllowance)
    );
    assert_eq!(token.allowance(owner, spender), U256::from(40u64));
    assert_eq!(token.balance_of(owner), U256::from(940u64));
    assert_eq!(token.balance_of(x), U256::from(60u64));
}

#[test]
fn transfer_from_of_zero_within_allowance_returns_false() {
    let owner = actor(1);
    let spender = actor(2);
    let x = actor(3);
    let mut token = token_with(&[(owner, 10)]);

    assert_eq!(token.transfer_from(spender, owner, x, U256::zero()), Ok(false));
    assert!(token.take_events().is_empty());
}

#[test]
fn minters_are_administered_by_admins() {
    let alice = actor(1);
    let mut token = token_with(&[]);

    assert_eq!(token.add_minter(alice, alice), Err(Error::NotAdmin));
    assert!(!token.is_minter(alice));

    assert_eq!(token.add_minter(admin(), alice), Ok(()));
    assert!(token.is_minter(alice));
    let mut minters = token.minters();
    minters.sort_by_key(|a| a.into_bytes());
    let mut expected = vec![admin(), alice];
    expected.sort_by_key(|a| a.into_bytes());
    assert_eq!(minters, expected);

    assert_eq!(token.remove_minter(alice, admin()), Err(Error::NotAdmin));
    assert_eq!(token.remove_minter(admin(), alice), Ok(()));
    assert_eq!(token.remove_minter(admin(), admin()), Ok(()));
    assert!(token.minters().is_empty());
    assert_eq!(token.admins(), vec![admin()]);
    assert_eq!(
        token.take_events(),
        vec![
            Event::MinterAdded { minter: alice },
            Event::MinterRemoved { minter: alice },
            Event::MinterRemoved { minter: admin() },
        ]
    );
}

#[test]
fn metadata_is_what_init_was_given() {
    let token = LineTokenService::init(admin(), "Line Credit".to_string(), "LINE".to_string(), 12);

    assert_eq!(token.name(), "Line Credit");
    assert_eq!(token.symbol(), "LINE");
    assert_eq!(token.decimals(), 12);
    assert_eq!(token.total_supply(), U256::zero());
    assert!(token.is_minter(admin()));
}
