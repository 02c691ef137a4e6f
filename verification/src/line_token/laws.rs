//! What holds of the token across its operations, stated over the state
//! transitions that the operations' contracts name.

use crate::actor::ActorId;
use crate::amounts::{lemma_total_with_amount, total_of};
use crate::line_token::{Error, StorageView};
use crate::u256::{u256_modulus, U256};
use vstd::prelude::*;

verus! {

/// In every well-formed state the total supply is the sum of the balances,
/// and neither the balances nor the allowances hold a zero entry. The state
/// that `init` makes is well-formed and every operation keeps it so.
pub proof fn law_supply_is_sum_of_balances(s: StorageView)
    requires
        s.wf(),
    ensures
        s.total_supply.value() == total_of(s.balances),
        forall|account: ActorId|
            s.balances.dom().contains(account) ==> (#[trigger] s.balances[account]).value() != 0,
        forall|pair: (ActorId, ActorId)|
            s.allowances.dom().contains(pair) ==> (#[trigger] s.allowances[pair]).value() != 0,
{
}

/// After `owner` approved `spender` for `value`, the allowance is `value`,
/// whatever it was before.
pub proof fn law_approve_sets_allowance(s: StorageView, owner: ActorId, spender: ActorId, value: U256)
    requires
        s.wf(),
    ensures
        s.after_approve(owner, spender, value.value()).wf(),
        s.after_approve(owner, spender, value.value()).allowance(owner, spender) == value.value(),
{
    value.lemma_value_bound();
    U256::lemma_value_from_nat(value.value());
}

/// Of two approvals in a row only the second counts.
pub proof fn law_second_approve_wins(
    s: StorageView,
    owner: ActorId,
    spender: ActorId,
    first: U256,
    second: U256,
)
    requires
        s.wf(),
    ensures
        s.after_approve(owner, spender, first.value()).after_approve(
            owner,
            spender,
            second.value(),
        ).allowance(owner, spender) == second.value(),
        s.after_approve(owner, spender, first.value()).after_approve(
            owner,
            spender,
            second.value(),
        ) == s.after_approve(owner, spender, second.value()),
{
    second.lemma_value_bound();
    U256::lemma_value_from_nat(second.value());
    let once = s.after_approve(owner, spender, second.value());
    let twice = s.after_approve(owner, spender, first.value()).after_approve(
        owner,
        spender,
        second.value(),
    );
    assert(twice.allowances =~= once.allowances);
}

/// A transfer that succeeds moves exactly its amount: between two different
/// accounts the sender has that much less and the recipient that much more,
/// every other balance and the total supply are as before. A transfer to
/// oneself moves nothing.
pub proof fn law_transfer_moves_its_amount(s: StorageView, from: ActorId, to: ActorId, value: U256)
    requires
        s.wf(),
        s.transfer_result(from, value) == Ok::<bool, Error>(true),
    ensures
        s.after_transfer(from, to, value).wf(),
        s.after_transfer(from, to, value).total_supply == s.total_supply,
        from != to ==> s.after_transfer(from, to, value).balance_of(from) == s.balance_of(from)
            - value.value(),
        from != to ==> s.after_transfer(from, to, value).balance_of(to) == s.balance_of(to)
            + value.value(),
        from == to ==> s.after_transfer(from, to, value) == s,
        forall|other: ActorId|
            other != from && other != to ==> s.after_transfer(from, to, value).balance_of(other)
                == s.balance_of(other),
{
    s.lemma_after_transfer(from, to, value);
}

/// A pull transfer that succeeds lowers the spender's allowance by exactly
/// the amount moved and, between two different accounts, leaves the sum of
/// the two balances as it was. The total supply does not change.
pub proof fn law_transfer_from_spends_allowance(
    s: StorageView,
    caller: ActorId,
    from: ActorId,
    to: ActorId,
    value: U256,
)
    requires
        s.wf(),
        s.transfer_from_result(caller, from, value) == Ok::<bool, Error>(true),
    ensures
        ({
            let after = s.after_transfer(from, to, value).after_approve(
                from,
                caller,
                (s.allowance(from, caller) - value.value()) as nat,
            );
            &&& after.wf()
            &&& after.allowance(from, caller) == s.allowance(from, caller) - value.value()
            &&& from != to ==> after.balance_of(from) + after.balance_of(to) == s.balance_of(from)
                + s.balance_of(to)
            &&& from != to ==> after.balance_of(from) == s.balance_of(from) - value.value()
            &&& after.total_supply == s.total_supply
        }),
{
    s.lemma_after_transfer(from, to, value);
    let left = (s.allowance(from, caller) - value.value()) as nat;
    if s.allowances.dom().contains((from, caller)) {
        s.allowances[(from, caller)].lemma_value_bound();
    }
    U256::lemma_value_from_nat(left);
}

/// A mint that succeeds raises the balance of the recipient and the total
/// supply by exactly the amount minted, and no other balance.
pub proof fn law_mint_raises_balance_and_supply(
    s: StorageView,
    caller: ActorId,
    to: ActorId,
    value: U256,
)
    requires
        s.wf(),
        s.mint_result(caller, value) == Ok::<bool, Error>(true),
    ensures
        s.after_mint(to, value).wf(),
        s.after_mint(to, value).balance_of(to) == s.balance_of(to) + value.value(),
        s.after_mint(to, value).total_supply.value() == s.total_supply.value() + value.value(),
        forall|other: ActorId|
            other != to ==> s.after_mint(to, value).balance_of(other) == s.balance_of(other),
{
    s.lemma_after_mint(to, value);
    crate::amounts::lemma_total_bounds(s.balances, to, to);
    lemma_total_with_amount(s.balances, to, s.balance_of(to) + value.value());
}

/// A withdrawal identifier works once. Right after a withdrawal under
/// `withdrawal_id` succeeded, any withdrawal under the same identifier is
/// refused, whoever asks and whatever the amount, the expiry and the
/// signature: as expired where its expiry has passed, as used else.
pub proof fn law_withdrawal_id_is_single_use(
    s: StorageView,
    caller: ActorId,
    now: u64,
    amount: U256,
    withdrawal_id: [u8; 32],
    expiry: u64,
    verdict: Result<(), Error>,
    later: u64,
    second_amount: U256,
    second_expiry: u64,
    second_verdict: Result<(), Error>,
)
    requires
        s.wf(),
        s.withdraw_result(now, amount, withdrawal_id, expiry, verdict) is Ok,
    ensures
        s.after_withdraw(caller, amount, withdrawal_id).withdraw_result(
            later,
            second_amount,
            withdrawal_id,
            second_expiry,
            second_verdict,
        ) == (if later > second_expiry {
            Err::<bool, Error>(Error::WithdrawalExpired)
        } else {
            Err(Error::WithdrawalAlreadyUsed)
        }),
{
}

/// A withdrawal under an identifier that is listed as used is refused.
pub proof fn law_used_withdrawal_is_refused(
    s: StorageView,
    now: u64,
    amount: U256,
    withdrawal_id: [u8; 32],
    expiry: u64,
    verdict: Result<(), Error>,
)
    requires
        s.used_withdrawals.contains(withdrawal_id),
    ensures
        s.withdraw_result(now, amount, withdrawal_id, expiry, verdict) is Err,
{
}

/// A withdrawal whose expiry is the current time is still in time: it
/// succeeds where nothing else stands against it. One whose expiry lies one
/// millisecond back has expired.
pub proof fn law_withdrawal_expiry_boundary(
    s: StorageView,
    now: u64,
    amount: U256,
    withdrawal_id: [u8; 32],
    verdict: Result<(), Error>,
)
    requires
        !s.withdrawals_paused,
    ensures
        now > 0 ==> s.withdraw_result(now, amount, withdrawal_id, (now - 1) as u64, verdict)
            == Err::<bool, Error>(Error::WithdrawalExpired),
        s.wf() && !s.used_withdrawals.contains(withdrawal_id) && s.backend_signer_pubkey is Some
            && s.max_withdrawal_per_tx is None && verdict is Ok && s.total_supply.value()
            + amount.value() < u256_modulus() ==> s.withdraw_result(
            now,
            amount,
            withdrawal_id,
            now,
            verdict,
        ) == Ok::<bool, Error>(true),
{
}

} // verus!
