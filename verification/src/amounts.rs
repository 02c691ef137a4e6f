//! Tables of amounts as mathematical maps: the amount held under a key, the
//! sum of all amounts, and what writing one amount does to both.

use crate::actor::ActorId;
use crate::tables::AmountTable;
use crate::u256::{u256_modulus, U256};
use vstd::prelude::*;

verus! {

/// The sum of the values of a finite map.
pub open spec fn sum_values<K>(m: Map<K, nat>) -> nat
    decreases m.dom().len(),
    when m.dom().finite()
{
    if m.dom().len() == 0 {
        0
    } else {
        let k = m.dom().choose();
        m[k] + sum_values(m.remove(k))
    }
}

/// The empty map sums to zero.
pub proof fn lemma_sum_empty<K>()
    ensures
        sum_values(Map::<K, nat>::empty()) == 0,
{
    assert(Map::<K, nat>::empty().dom() =~= Set::<K>::empty());
}

/// Any entry can be split off the sum.
pub proof fn lemma_sum_remove<K>(m: Map<K, nat>, k: K)
    requires
        m.dom().finite(),
        m.dom().contains(k),
    ensures
        sum_values(m) == m[k] + sum_values(m.remove(k)),
    decreases m.dom().len(),
{
    let c = m.dom().choose();
    assert(m.dom().len() != 0) by {
        if m.dom().len() == 0 {
            assert(m.dom() =~= Set::empty());
        }
    }
    if c != k {
        let mc = m.remove(c);
        let mk = m.remove(k);
        assert(mc.dom() =~= m.dom().remove(c));
        assert(mk.dom() =~= m.dom().remove(k));
        lemma_sum_remove(mc, k);
        lemma_sum_remove(mk, c);
        assert(mc.remove(k) =~= mk.remove(c));
    }
}

/// Writing `v` under `k` replaces what `k` contributed by `v`.
pub proof fn lemma_sum_insert<K>(m: Map<K, nat>, k: K, v: nat)
    requires
        m.dom().finite(),
    ensures
        sum_values(m.insert(k, v)) == sum_values(m.remove(k)) + v,
{
    let mi = m.insert(k, v);
    assert(mi.dom() =~= m.dom().insert(k));
    lemma_sum_remove(mi, k);
    assert(mi.remove(k) =~= m.remove(k));
}

/// Two distinct entries together are at most the sum.
pub proof fn lemma_sum_two<K>(m: Map<K, nat>, a: K, b: K)
    requires
        m.dom().finite(),
        m.dom().contains(a),
        m.dom().contains(b),
        a != b,
    ensures
        m[a] + m[b] <= sum_values(m),
{
    lemma_sum_remove(m, a);
    let ma = m.remove(a);
    assert(ma.dom() =~= m.dom().remove(a));
    lemma_sum_remove(ma, b);
}

/// The amount that a table of amounts holds for `account`: what is stored, or
/// zero where nothing is.
pub open spec fn amount_of<K>(m: Map<K, U256>, account: K) -> nat {
    if m.dom().contains(account) {
        m[account].value()
    } else {
        0
    }
}

/// The sum of all amounts in a table.
pub open spec fn total_of<K>(m: Map<K, U256>) -> nat {
    sum_values(m.map_values(|v: U256| v.value()))
}

/// No entry of the table holds zero.
pub open spec fn no_zero_entries<K>(m: Map<K, U256>) -> bool {
    forall|k: K| m.dom().contains(k) ==> (#[trigger] m[k]).value() != 0
}

/// The table after `account` is set to hold `amount`: the entry is written,
/// or dropped where `amount` is zero.
pub open spec fn with_amount<K>(m: Map<K, U256>, account: K, amount: nat) -> Map<K, U256> {
    if amount == 0 {
        m.remove(account)
    } else {
        m.insert(account, U256::from_nat(amount))
    }
}

/// An empty table sums to zero.
pub proof fn lemma_total_empty<K>()
    ensures
        total_of(Map::<K, U256>::empty()) == 0,
{
    assert(Map::<K, U256>::empty().map_values(|v: U256| v.value()) =~= Map::<K, nat>::empty());
    lemma_sum_empty::<K>();
}

/// Setting the amount of one account changes the sum by the difference.
pub proof fn lemma_total_with_amount<K>(m: Map<K, U256>, account: K, amount: nat)
    requires
        m.dom().finite(),
        amount < u256_modulus(),
    ensures
        total_of(with_amount(m, account, amount)) + amount_of(m, account) == total_of(m) + amount,
        with_amount(m, account, amount).dom().finite(),
        amount_of(with_amount(m, account, amount), account) == amount,
        forall|other: K|
            other != account ==> amount_of(with_amount(m, account, amount), other) == amount_of(
                m,
                other,
            ),
        no_zero_entries(m) ==> no_zero_entries(with_amount(m, account, amount)),
{
    let f = |v: U256| v.value();
    let values = m.map_values(f);
    assert(values.dom() =~= m.dom());
    let removed = m.remove(account).map_values(f);
    assert(removed =~= values.remove(account));
    if m.dom().contains(account) {
        lemma_sum_remove(values, account);
    } else {
        assert(values.remove(account) =~= values);
    }
    U256::lemma_value_from_nat(amount);
    if amount != 0 {
        let written = m.insert(account, U256::from_nat(amount)).map_values(f);
        assert(written =~= values.insert(account, amount));
        lemma_sum_insert(values, account, amount);
    }
}

/// One account holds at most the sum; two distinct accounts together hold at
/// most the sum.
pub proof fn lemma_total_bounds<K>(m: Map<K, U256>, a: K, b: K)
    requires
        m.dom().finite(),
    ensures
        amount_of(m, a) <= total_of(m),
        a != b ==> amount_of(m, a) + amount_of(m, b) <= total_of(m),
{
    let f = |v: U256| v.value();
    let values = m.map_values(f);
    assert(values.dom() =~= m.dom());
    if m.dom().contains(a) {
        lemma_sum_remove(values, a);
        if a != b && m.dom().contains(b) {
            lemma_sum_two(values, a, b);
        }
    } else if m.dom().contains(b) {
        lemma_sum_remove(values, b);
    }
}

/// Writes `amount` as the balance of `account`, dropping the entry where the
/// amount is zero.
pub fn set_amount(table: &mut AmountTable, account: ActorId, amount: U256)
    ensures
        final(table)@ == with_amount(old(table)@, account, amount.value()),
{
    proof {
        amount.lemma_from_nat_value();
    }
    if amount.is_zero() {
        table.remove(&account);
    } else {
        table.insert(account, amount);
    }
}

} // verus!
