//! The balance arithmetic of the token: lookups, mints and transfers on a
//! table of balances.

use crate::actor::ActorId;
use crate::line_token::Error;
use crate::amounts::{amount_of, set_amount, with_amount};
use crate::tables::AmountTable;
use crate::u256::{u256_modulus, U256};
use vstd::prelude::*;

verus! {

/// The balance of `account`: zero where the table has no entry for it.
pub fn balance_of(balances: &AmountTable, account: ActorId) -> (r: U256)
    ensures
        r.value() == amount_of(balances@, account),
{
    match balances.get(&account) {
        Some(v) => v,
        None => U256::zero(),
    }
}

/// Mints `value` to `to`.
///
/// Minting zero changes nothing and returns `Ok(false)`. Otherwise the total
/// supply and the balance of `to` both grow by `value` and the result is
/// `Ok(true)`; where either would leave 256 bits, the matching error is
/// returned and nothing changes.
pub fn mint(balances: &mut AmountTable, total_supply: &mut U256, to: ActorId, value: U256) -> (r:
    Result<bool, Error>)
    ensures
        r == mint_result(old(balances)@, *old(total_supply), to, value),
        r == Ok::<bool, Error>(true) ==> {
            &&& final(balances)@ == with_amount(
                old(balances)@,
                to,
                amount_of(old(balances)@, to) + value.value(),
            )
            &&& final(total_supply).value() == old(total_supply).value() + value.value()
        },
        r != Ok::<bool, Error>(true) ==> {
            &&& final(balances)@ == old(balances)@
            &&& *final(total_supply) == *old(total_supply)
        },
{
    if value.is_zero() {
        return Ok(false);
    }
    let new_total_supply = match total_supply.checked_add(&value) {
        Some(sum) => sum,
        None => {
            return Err(Error::TotalSupplyOverflow);
        },
    };
    let current_balance = balance_of(balances, to);
    let new_balance = match current_balance.checked_add(&value) {
        Some(sum) => sum,
        None => {
            return Err(Error::BalanceOverflow);
        },
    };
    set_amount(balances, to, new_balance);
    *total_supply = new_total_supply;
    Ok(true)
}

/// What `mint` returns.
pub open spec fn mint_result(
    balances: Map<ActorId, U256>,
    total_supply: U256,
    to: ActorId,
    value: U256,
) -> Result<bool, Error> {
    if value.value() == 0 {
        Ok(false)
    } else if total_supply.value() + value.value() >= u256_modulus() {
        Err(Error::TotalSupplyOverflow)
    } else if amount_of(balances, to) + value.value() >= u256_modulus() {
        Err(Error::BalanceOverflow)
    } else {
        Ok(true)
    }
}

/// What `transfer` returns.
pub open spec fn transfer_result(
    balances: Map<ActorId, U256>,
    from: ActorId,
    to: ActorId,
    value: U256,
) -> Result<bool, Error> {
    if value.value() == 0 {
        Ok(false)
    } else if amount_of(balances, from) < value.value() {
        Err(Error::InsufficientBalance)
    } else if from != to && amount_of(balances, to) + value.value() >= u256_modulus() {
        Err(Error::BalanceOverflow)
    } else {
        Ok(true)
    }
}

/// The balances after `value` has moved from `from` to `to`. Moving an amount
/// to oneself changes nothing.
pub open spec fn balances_after_transfer(
    balances: Map<ActorId, U256>,
    from: ActorId,
    to: ActorId,
    value: U256,
) -> Map<ActorId, U256> {
    if from == to {
        balances
    } else {
        with_amount(
            with_amount(balances, from, (amount_of(balances, from) - value.value()) as nat),
            to,
            amount_of(balances, to) + value.value(),
        )
    }
}

/// Moves `value` from `from` to `to`.
///
/// Moving zero changes nothing and returns `Ok(false)`. A sender that holds
/// less than `value` gets `InsufficientBalance`, a recipient whose balance
/// would leave 256 bits gets `BalanceOverflow`, and nothing changes. Otherwise
/// the result is `Ok(true)` and the balances are those of
/// `balances_after_transfer`.
pub fn transfer(balances: &mut AmountTable, from: ActorId, to: ActorId, value: U256) -> (r: Result<
    bool,
    Error,
>)
    ensures
        r == transfer_result(old(balances)@, from, to, value),
        r == Ok::<bool, Error>(true) ==> final(balances)@ == balances_after_transfer(
            old(balances)@,
            from,
            to,
            value,
        ),
        r != Ok::<bool, Error>(true) ==> final(balances)@ == old(balances)@,
{
    if value.is_zero() {
        return Ok(false);
    }
    let from_balance = balance_of(balances, from);
    let new_from_balance = match from_balance.checked_sub(&value) {
        Some(diff) => diff,
        None => {
            return Err(Error::InsufficientBalance);
        },
    };
    if from == to {
        return Ok(true);
    }
    let to_balance = balance_of(balances, to);
    let new_to_balance = match to_balance.checked_add(&value) {
        Some(sum) => sum,
        None => {
            return Err(Error::BalanceOverflow);
        },
    };
    set_amount(balances, from, new_from_balance);
    set_amount(balances, to, new_to_balance);
    Ok(true)
}

} // verus!
