//! The fungible token: balances, allowances, minting and signed withdrawals.
//!
//! The token's state is a [`Storage`]; a [`LineTokenService`] owns one,
//! together with the log of events that its operations emitted. Every
//! operation takes the account that calls it, and those that depend on the
//! time take the current block timestamp. A rejected operation returns its
//! [`Error`] and changes nothing.

use crate::actor::ActorId;
use crate::amounts::{
    amount_of, lemma_total_bounds, lemma_total_empty, lemma_total_with_amount, no_zero_entries,
    total_of, with_amount,
};
use crate::bytes::{be_bytes, lemma_be_bytes_len, u64_to_be_bytes};
use crate::crypto::{
    blake2b_256, blake2b_256_digest, public_key_parses, signature_parses, signature_verifies,
    sr25519_public_key_parses, sr25519_signature_parses, sr25519_verifies,
};
use crate::tables::{ActorSet, AllowanceTable, AmountTable, WithdrawalSet};
use crate::u256::{u256_modulus, U256};
use vstd::prelude::*;

pub mod funcs;
pub mod laws;

verus! {

/// The domain tag that opens every withdrawal payload: ASCII
/// `LINE_WITHDRAW_V1`.
pub const WITHDRAWAL_DOMAIN: [u8; 16] = [
    0x4c, 0x49, 0x4e, 0x45, 0x5f, 0x57, 0x49, 0x54, 0x48, 0x44, 0x52, 0x41, 0x57, 0x5f, 0x56, 0x31,
];

/// The sr25519 signing context of withdrawal signatures: ASCII `substrate`.
pub const SIGNING_CTX: [u8; 9] = [0x73, 0x75, 0x62, 0x73, 0x74, 0x72, 0x61, 0x74, 0x65];

/// Why a token operation was rejected.
#[derive(Clone, Copy, Debug, PartialEq, Eq, Structural)]
pub enum Error {
    /// The caller is not a minter.
    NotMinter,
    /// The caller is not an admin.
    NotAdmin,
    /// The sender holds less than the amount to move.
    InsufficientBalance,
    /// The spender is allowed less than the amount to move.
    InsufficientAllowance,
    /// The total supply would leave 256 bits.
    TotalSupplyOverflow,
    /// A balance would leave 256 bits.
    BalanceOverflow,
    /// Withdrawals are paused.
    WithdrawalsPaused,
    /// The withdrawal's expiry lies before the current time.
    WithdrawalExpired,
    /// The withdrawal identifier was used before.
    WithdrawalAlreadyUsed,
    /// No backend signer is configured.
    SignerNotConfigured,
    /// The amount is above the cap for one withdrawal.
    ExceedsMaxWithdrawal,
    /// The signature is not 64 bytes long.
    InvalidSignatureLength,
    /// The signature bytes are not an sr25519 signature.
    InvalidSignatureFormat,
    /// The configured key bytes are not an sr25519 public key.
    InvalidPublicKeyFormat,
    /// The signature does not verify under the configured key.
    SignatureVerificationFailed,
}

/// What the token emits.
#[derive(Clone, Copy, Debug, PartialEq, Eq)]
pub enum Event {
    /// Tokens moved between accounts.
    Transfer { from: ActorId, to: ActorId, value: U256 },
    /// Tokens were minted.
    Minted { to: ActorId, value: U256 },
    /// An account became a minter.
    MinterAdded { minter: ActorId },
    /// An account stopped being a minter.
    MinterRemoved { minter: ActorId },
    /// A signed withdrawal was executed.
    WithdrawalExecuted { to: ActorId, amount: U256, withdrawal_id: [u8; 32] },
    /// The backend signer's public key was set.
    BackendSignerUpdated { signer_pubkey: [u8; 32] },
    /// Withdrawals were paused.
    WithdrawalsPaused {  },
    /// Withdrawals were resumed.
    WithdrawalsUnpaused {  },
    /// An owner set the allowance of a spender.
    Approval { owner: ActorId, spender: ActorId, value: U256 },
}

/// Name, symbol and decimals of the token, fixed at initialization.
pub struct Metadata {
    pub name: String,
    pub symbol: String,
    pub decimals: u8,
}

/// The state of the token.
pub struct Storage {
    /// Balance of each account; an account without entry holds zero.
    pub balances: AmountTable,
    /// Name, symbol, decimals.
    pub meta: Metadata,
    /// The sum of all balances.
    pub total_supply: U256,
    /// Accounts that may mint.
    pub minters: ActorSet,
    /// Accounts that may administer minters and withdrawals.
    pub admins: ActorSet,
    /// The sr25519 public key that authorizes withdrawals; `None` disables
    /// them.
    pub backend_signer_pubkey: Option<[u8; 32]>,
    /// Withdrawal identifiers that were executed.
    pub used_withdrawals: WithdrawalSet,
    /// Whether withdrawals are paused.
    pub withdrawals_paused: bool,
    /// The largest amount of one withdrawal, if capped.
    pub max_withdrawal_per_tx: Option<U256>,
    /// Allowance of each (owner, spender); a pair without entry has none.
    pub allowances: AllowanceTable,
}

/// The state of the token as mathematical maps and sets.
pub struct StorageView {
    pub balances: Map<ActorId, U256>,
    pub name: Seq<char>,
    pub symbol: Seq<char>,
    pub decimals: u8,
    pub total_supply: U256,
    pub minters: Set<ActorId>,
    pub admins: Set<ActorId>,
    pub backend_signer_pubkey: Option<[u8; 32]>,
    pub used_withdrawals: Set<[u8; 32]>,
    pub withdrawals_paused: bool,
    pub max_withdrawal_per_tx: Option<U256>,
    pub allowances: Map<(ActorId, ActorId), U256>,
}

impl View for Storage {
    type V = StorageView;

    open spec fn view(&self) -> StorageView {
        StorageView {
            balances: self.balances@,
            name: self.meta.name@,
            symbol: self.meta.symbol@,
            decimals: self.meta.decimals,
            total_supply: self.total_supply,
            minters: self.minters@,
            admins: self.admins@,
            backend_signer_pubkey: self.backend_signer_pubkey,
            used_withdrawals: self.used_withdrawals@,
            withdrawals_paused: self.withdrawals_paused,
            max_withdrawal_per_tx: self.max_withdrawal_per_tx,
            allowances: self.allowances@,
        }
    }
}

impl StorageView {
    /// What holds of the token between any two operations: the total supply
    /// is the sum of the balances, neither balances nor allowances hold a
    /// zero entry, and there is an admin.
    pub open spec fn wf(self) -> bool {
        &&& self.balances.dom().finite()
        &&& self.total_supply.value() == total_of(self.balances)
        &&& no_zero_entries(self.balances)
        &&& no_zero_entries(self.allowances)
        &&& self.admins.finite()
        &&& self.admins.len() > 0
    }

    /// The balance of `account`.
    pub open spec fn balance_of(self, account: ActorId) -> nat {
        amount_of(self.balances, account)
    }

    /// What `spender` may still move out of the balance of `owner`.
    pub open spec fn allowance(self, owner: ActorId, spender: ActorId) -> nat {
        amount_of(self.allowances, (owner, spender))
    }

    /// The state after `value` was minted to `to`.
    pub open spec fn after_mint(self, to: ActorId, value: U256) -> StorageView {
        StorageView {
            balances: with_amount(self.balances, to, self.balance_of(to) + value.value()),
            total_supply: U256::from_nat(self.total_supply.value() + value.value()),
            ..self
        }
    }

    /// The state after `value` moved from `from` to `to`.
    pub open spec fn after_transfer(self, from: ActorId, to: ActorId, value: U256) -> StorageView {
        StorageView {
            balances: funcs::balances_after_transfer(self.balances, from, to, value),
            ..self
        }
    }

    /// The state after `owner` set the allowance of `spender` to `value`.
    pub open spec fn after_approve(self, owner: ActorId, spender: ActorId, value: nat)
        -> StorageView {
        StorageView { allowances: with_amount(self.allowances, (owner, spender), value), ..self }
    }

    /// What `mint` returns to `caller`.
    pub open spec fn mint_result(self, caller: ActorId, value: U256) -> Result<bool, Error> {
        if !self.minters.contains(caller) {
            Err(Error::NotMinter)
        } else if value.value() == 0 {
            Ok(false)
        } else if self.total_supply.value() + value.value() >= u256_modulus() {
            Err(Error::TotalSupplyOverflow)
        } else {
            Ok(true)
        }
    }

    /// What `transfer` returns to the sender `from`.
    pub open spec fn transfer_result(self, from: ActorId, value: U256) -> Result<bool, Error> {
        if value.value() == 0 {
            Ok(false)
        } else if self.balance_of(from) < value.value() {
            Err(Error::InsufficientBalance)
        } else {
            Ok(true)
        }
    }

    /// What `transfer_from` returns to the spender `caller`.
    pub open spec fn transfer_from_result(self, caller: ActorId, from: ActorId, value: U256)
        -> Result<bool, Error> {
        if self.allowance(from, caller) < value.value() {
            Err(Error::InsufficientAllowance)
        } else {
            self.transfer_result(from, value)
        }
    }

    /// What an admin-only operation returns to `caller`.
    pub open spec fn admin_result(self, caller: ActorId) -> Result<(), Error> {
        if self.admins.contains(caller) {
            Ok(())
        } else {
            Err(Error::NotAdmin)
        }
    }

    /// What stands against a withdrawal before its signature is looked at.
    /// The checks are made in this order: the pause, the expiry, the
    /// identifier, the signer, the cap.
    pub open spec fn withdraw_precheck(
        self,
        now: u64,
        amount: U256,
        withdrawal_id: [u8; 32],
        expiry: u64,
    ) -> Result<(), Error> {
        if self.withdrawals_paused {
            Err(Error::WithdrawalsPaused)
        } else if now > expiry {
            Err(Error::WithdrawalExpired)
        } else if self.used_withdrawals.contains(withdrawal_id) {
            Err(Error::WithdrawalAlreadyUsed)
        } else if self.backend_signer_pubkey is None {
            Err(Error::SignerNotConfigured)
        } else if self.max_withdrawal_per_tx is Some && amount.value()
            > self.max_withdrawal_per_tx->0.value() {
            Err(Error::ExceedsMaxWithdrawal)
        } else {
            Ok(())
        }
    }

    /// What a withdrawal returns, given the verdict on its signature: what
    /// `withdraw_precheck` finds comes first, then the verdict, then the
    /// total supply, which must stay within 256 bits.
    pub open spec fn withdraw_result(
        self,
        now: u64,
        amount: U256,
        withdrawal_id: [u8; 32],
        expiry: u64,
        verdict: Result<(), Error>,
    ) -> Result<bool, Error> {
        match self.withdraw_precheck(now, amount, withdrawal_id, expiry) {
            Err(e) => Err(e),
            Ok(_) => if verdict is Err {
                Err(verdict->Err_0)
            } else if self.total_supply.value() + amount.value() >= u256_modulus() {
                Err(Error::TotalSupplyOverflow)
            } else {
                Ok(true)
            },
        }
    }

    /// The state after the withdrawal `withdrawal_id` minted `amount` to `to`.
    pub open spec fn after_withdraw(self, to: ActorId, amount: U256, withdrawal_id: [u8; 32])
        -> StorageView {
        StorageView {
            used_withdrawals: self.used_withdrawals.insert(withdrawal_id),
            ..self.after_mint(to, amount)
        }
    }

    /// Minting keeps the state well-formed, and minting zero changes nothing.
    pub proof fn lemma_after_mint(self, to: ActorId, value: U256)
        requires
            self.wf(),
            self.total_supply.value() + value.value() < u256_modulus(),
        ensures
            self.after_mint(to, value).wf(),
            self.after_mint(to, value).balance_of(to) == self.balance_of(to) + value.value(),
            self.after_mint(to, value).total_supply.value() == self.total_supply.value()
                + value.value(),
            value.value() == 0 ==> self.after_mint(to, value) == self,
    {
        lemma_total_bounds(self.balances, to, to);
        lemma_total_with_amount(self.balances, to, self.balance_of(to) + value.value());
        U256::lemma_value_from_nat(self.total_supply.value() + value.value());
        if value.value() == 0 {
            self.total_supply.lemma_from_nat_value();
            if self.balances.dom().contains(to) {
                self.balances[to].lemma_from_nat_value();
            }
            assert(self.after_mint(to, value).balances =~= self.balances);
        }
    }

    /// A transfer that the sender can afford keeps the state well-formed and
    /// overflows no balance.
    pub proof fn lemma_after_transfer(self, from: ActorId, to: ActorId, value: U256)
        requires
            self.wf(),
            self.balance_of(from) >= value.value(),
        ensures
            self.after_transfer(from, to, value).wf(),
            from != to ==> self.balance_of(to) + value.value() < u256_modulus(),
            from != to ==> self.after_transfer(from, to, value).balance_of(from)
                == self.balance_of(from) - value.value(),
            from != to ==> self.after_transfer(from, to, value).balance_of(to) == self.balance_of(
                to,
            ) + value.value(),
            forall|other: ActorId|
                other != from && other != to ==> self.after_transfer(from, to, value).balance_of(
                    other,
                ) == self.balance_of(other),
    {
        if from != to {
            lemma_total_bounds(self.balances, from, to);
            self.total_supply.lemma_value_bound();
            let left = (self.balance_of(from) - value.value()) as nat;
            let mid = with_amount(self.balances, from, left);
            lemma_total_with_amount(self.balances, from, left);
            lemma_total_with_amount(mid, to, self.balance_of(to) + value.value());
        }
    }
}

/// The token: its state and the events it has emitted.
pub struct LineTokenService {
    storage: Storage,
    events: Vec<Event>,
}

impl LineTokenService {
    /// The state of the token.
    pub closed spec fn state(&self) -> StorageView {
        self.storage@
    }

    /// The events emitted so far, oldest first.
    pub closed spec fn emitted(&self) -> Seq<Event> {
        self.events@
    }

    /// Whether the state is well-formed.
    pub open spec fn wf(&self) -> bool {
        self.state().wf()
    }

    /// A service over an existing state, with an empty event log.
    pub fn new(storage: Storage) -> (r: LineTokenService)
        ensures
            r.state() == storage@,
            r.emitted() == Seq::<Event>::empty(),
    {
        LineTokenService { storage, events: Vec::new() }
    }

    /// A fresh token: no balances, no allowances, no withdrawals, and
    /// `deployer` as its only admin and only minter.
    pub fn init(deployer: ActorId, name: String, symbol: String, decimals: u8) -> (r:
        LineTokenService)
        ensures
            r.wf(),
            r.emitted() == Seq::<Event>::empty(),
            r.state() == (StorageView {
                balances: Map::empty(),
                name: name@,
                symbol: symbol@,
                decimals,
                total_supply: U256::from_nat(0),
                minters: Set::empty().insert(deployer),
                admins: Set::empty().insert(deployer),
                backend_signer_pubkey: None,
                used_withdrawals: Set::empty(),
                withdrawals_paused: false,
                max_withdrawal_per_tx: None,
                allowances: Map::empty(),
            }),
    {
        let mut admins = ActorSet::new();
        admins.insert(deployer);
        let mut minters = ActorSet::new();
        minters.insert(deployer);
        let storage = Storage {
            balances: AmountTable::new(),
            meta: Metadata { name, symbol, decimals },
            total_supply: U256::zero(),
            minters,
            admins,
            backend_signer_pubkey: None,
            used_withdrawals: WithdrawalSet::new(),
            withdrawals_paused: false,
            max_withdrawal_per_tx: None,
            allowances: AllowanceTable::new(),
        };
        proof {
            lemma_total_empty::<ActorId>();
            assert(storage@.balances =~= Map::empty());
            assert(storage@.allowances =~= Map::empty());
            assert(storage@.used_withdrawals =~= Set::empty());
        }
        LineTokenService { storage, events: Vec::new() }
    }

    /// The state of the token.
    pub fn storage(&self) -> (r: &Storage)
        ensures
            r@ == self.state(),
    {
        &self.storage
    }

    /// Hands out the events emitted since the last call and empties the log.
    pub fn take_events(&mut self) -> (r: Vec<Event>)
        ensures
            r@ == old(self).emitted(),
            final(self).emitted() == Seq::<Event>::empty(),
            final(self).state() == old(self).state(),
    {
        let mut out: Vec<Event> = Vec::new();
        std::mem::swap(&mut self.events, &mut out);
        out
    }

    /// Mints `value` to `to`; only a minter may.
    ///
    /// Minting zero changes nothing and returns `Ok(false)`. Otherwise the
    /// balance of `to` and the total supply both grow by `value`, `Minted` is
    /// emitted and the result is `Ok(true)`.
    pub fn mint(&mut self, caller: ActorId, to: ActorId, value: U256) -> (r: Result<bool, Error>)
        requires
            old(self).wf(),
        ensures
            final(self).wf(),
            r == old(self).state().mint_result(caller, value),
            r == Ok::<bool, Error>(true) ==> {
                &&& final(self).state() == old(self).state().after_mint(to, value)
                &&& final(self).emitted() == old(self).emitted().push(Event::Minted { to, value })
            },
            r != Ok::<bool, Error>(true) ==> {
                &&& final(self).state() == old(self).state()
                &&& final(self).emitted() == old(self).emitted()
            },
    {
        if !self.storage.minters.contains(&caller) {
            return Err(Error::NotMinter);
        }
        proof {
            lemma_total_bounds(self.storage@.balances, to, to);
            if self.storage@.total_supply.value() + value.value() < u256_modulus() {
                self.storage@.lemma_after_mint(to, value);
                U256::lemma_value_injective(
                    self.storage@.after_mint(to, value).total_supply,
                    U256::from_nat(self.storage@.total_supply.value() + value.value()),
                );
            }
        }
        let ghost before = self.storage@;
        let r = funcs::mint(&mut self.storage.balances, &mut self.storage.total_supply, to, value);
        match r {
            Ok(true) => {
                proof {
                    U256::lemma_value_injective(
                        self.storage.total_supply,
                        before.after_mint(to, value).total_supply,
                    );
                }
                self.events.push(Event::Minted { to, value });
            },
            _ => {},
        }
        r
    }

    /// Moves `value` from the caller to `to`.
    ///
    /// Moving zero changes nothing and returns `Ok(false)`. Otherwise the
    /// caller must hold `value`; the amount moves, `Transfer` is emitted and
    /// the result is `Ok(true)`. Moving an amount to oneself changes no
    /// balance but is emitted all the same.
    pub fn transfer(&mut self, caller: ActorId, to: ActorId, value: U256) -> (r: Result<
        bool,
        Error,
    >)
        requires
            old(self).wf(),
        ensures
            final(self).wf(),
            r == old(self).state().transfer_result(caller, value),
            r == Ok::<bool, Error>(true) ==> {
                &&& final(self).state() == old(self).state().after_transfer(caller, to, value)
                &&& final(self).emitted() == old(self).emitted().push(
                    Event::Transfer { from: caller, to, value },
                )
            },
            r != Ok::<bool, Error>(true) ==> {
                &&& final(self).state() == old(self).state()
                &&& final(self).emitted() == old(self).emitted()
            },
    {
        proof {
            if self.storage@.balance_of(caller) >= value.value() {
                self.storage@.lemma_after_transfer(caller, to, value);
            }
        }
        let r = funcs::transfer(&mut self.storage.balances, caller, to, value);
        match r {
            Ok(true) => {
                self.events.push(Event::Transfer { from: caller, to, value });
            },
            _ => {},
        }
        r
    }

    /// Makes `minter` a minter; only an admin may. Emits `MinterAdded`.
    pub fn add_minter(&mut self, caller: ActorId, minter: ActorId) -> (r: Result<(), Error>)
        requires
            old(self).wf(),
        ensures
            final(self).wf(),
            r == old(self).state().admin_result(caller),
            r is Ok ==> {
                &&& final(self).state() == (StorageView {
                    minters: old(self).state().minters.insert(minter),
                    ..old(self).state()
                })
                &&& final(self).emitted() == old(self).emitted().push(
                    Event::MinterAdded { minter },
                )
            },
            r is Err ==> {
                &&& final(self).state() == old(self).state()
                &&& final(self).emitted() == old(self).emitted()
            },
    {
        if !self.storage.admins.contains(&caller) {
            return Err(Error::NotAdmin);
        }
        self.storage.minters.insert(minter);
        self.events.push(Event::MinterAdded { minter });
        Ok(())
    }

    /// Takes the minter role from `minter`; only an admin may. Emits
    /// `MinterRemoved`. The set of minters may become empty.
    pub fn remove_minter(&mut self, caller: ActorId, minter: ActorId) -> (r: Result<(), Error>)
        requires
            old(self).wf(),
        ensures
            final(self).wf(),
            r == old(self).state().admin_result(caller),
            r is Ok ==> {
                &&& final(self).state() == (StorageView {
                    minters: old(self).state().minters.remove(minter),
                    ..old(self).state()
                })
                &&& final(self).emitted() == old(self).emitted().push(
                    Event::MinterRemoved { minter },
                )
            },
            r is Err ==> {
                &&& final(self).state() == old(self).state()
                &&& final(self).emitted() == old(self).emitted()
            },
    {
        if !self.storage.admins.contains(&caller) {
            return Err(Error::NotAdmin);
        }
        self.storage.minters.remove(&minter);
        self.events.push(Event::MinterRemoved { minter });
        Ok(())
    }

    /// Whether `account` is a minter.
    pub fn is_minter(&self, account: ActorId) -> (r: bool)
        ensures
            r == self.state().minters.contains(account),
    {
        self.storage.minters.contains(&account)
    }

    /// The balance of `account`.
    pub fn balance_of(&self, account: ActorId) -> (r: U256)
        ensures
            r.value() == self.state().balance_of(account),
    {
        funcs::balance_of(&self.storage.balances, account)
    }

    /// The total supply.
    pub fn total_supply(&self) -> (r: U256)
        ensures
            r == self.state().total_supply,
    {
        self.storage.total_supply
    }

    /// The name of the token.
    pub fn name(&self) -> (r: &str)
        ensures
            r@ == self.state().name,
    {
        self.storage.meta.name.as_str()
    }

    /// The symbol of the token.
    pub fn symbol(&self) -> (r: &str)
        ensures
            r@ == self.state().symbol,
    {
        self.storage.meta.symbol.as_str()
    }

    /// The number of decimals of the token.
    pub fn decimals(&self) -> (r: u8)
        ensures
            r == self.state().decimals,
    {
        self.storage.meta.decimals
    }

    /// The minters, each once, in no particular order.
    pub fn minters(&self) -> (r: Vec<ActorId>)
        ensures
            r@.no_duplicates(),
            r@.to_set() == self.state().minters,
    {
        self.storage.minters.to_vec()
    }

    /// The admins, each once, in no particular order.
    pub fn admins(&self) -> (r: Vec<ActorId>)
        ensures
            r@.no_duplicates(),
            r@.to_set() == self.state().admins,
    {
        self.storage.admins.to_vec()
    }

    /// Sets what `spender` may move out of the caller's balance to `value`,
    /// whatever it was before; zero clears the allowance. Emits `Approval`
    /// and returns `true`.
    pub fn approve(&mut self, caller: ActorId, spender: ActorId, value: U256) -> (r: bool)
        requires
            old(self).wf(),
        ensures
            final(self).wf(),
            r,
            final(self).state() == old(self).state().after_approve(caller, spender, value.value()),
            final(self).state().allowance(caller, spender) == value.value(),
            final(self).emitted() == old(self).emitted().push(
                Event::Approval { owner: caller, spender, value },
            ),
    {
        proof {
            value.lemma_value_bound();
            U256::lemma_value_from_nat(value.value());
        }
        set_allowance(&mut self.storage.allowances, caller, spender, value);
        self.events.push(Event::Approval { owner: caller, spender, value });
        true
    }

    /// What `spender` may still move out of the balance of `owner`; zero
    /// where no allowance was set.
    pub fn allowance(&self, owner: ActorId, spender: ActorId) -> (r: U256)
        ensures
            r.value() == self.state().allowance(owner, spender),
    {
        match self.storage.allowances.get(&owner, &spender) {
            Some(v) => v,
            None => U256::zero(),
        }
    }

    /// Moves `value` from `from` to `to` on the allowance that `from` gave
    /// the caller.
    ///
    /// The allowance must cover `value`, else `InsufficientAllowance`. Moving
    /// zero then changes nothing and returns `Ok(false)`. Otherwise `from`
    /// must hold `value`; the allowance shrinks by `value`, the amount moves,
    /// `Transfer` is emitted and the result is `Ok(true)`.
    pub fn transfer_from(&mut self, caller: ActorId, from: ActorId, to: ActorId, value: U256) -> (r:
        Result<bool, Error>)
        requires
            old(self).wf(),
        ensures
            final(self).wf(),
            r == old(self).state().transfer_from_result(caller, from, value),
            r == Ok::<bool, Error>(true) ==> {
                &&& final(self).state() == old(self).state().after_transfer(
                    from,
                    to,
                    value,
                ).after_approve(
                    from,
                    caller,
                    (old(self).state().allowance(from, caller) - value.value()) as nat,
                )
                &&& final(self).state().allowance(from, caller) == old(self).state().allowance(
                    from,
                    caller,
                ) - value.value()
                &&& final(self).emitted() == old(self).emitted().push(
                    Event::Transfer { from, to, value },
                )
            },
            r != Ok::<bool, Error>(true) ==> {
                &&& final(self).state() == old(self).state()
                &&& final(self).emitted() == old(self).emitted()
            },
    {
        let current_allowance = self.allowance(from, caller);
        let new_allowance = match current_allowance.checked_sub(&value) {
            Some(diff) => diff,
            None => {
                return Err(Error::InsufficientAllowance);
            },
        };
        let ghost before = self.storage@;
        let ghost left = (before.allowance(from, caller) - value.value()) as nat;
        proof {
            if before.balance_of(from) >= value.value() {
                before.lemma_after_transfer(from, to, value);
            }
        }
        let r = funcs::transfer(&mut self.storage.balances, from, to, value);
        match r {
            Ok(true) => {
                assert(self.storage@ == before.after_transfer(from, to, value));
                set_allowance(&mut self.storage.allowances, from, caller, new_allowance);
                assert(self.storage@.allowances == with_amount(
                    before.allowances,
                    (from, caller),
                    left,
                ));
                assert(self.storage@ == before.after_transfer(from, to, value).after_approve(
                    from,
                    caller,
                    left,
                ));
                proof {
                    new_allowance.lemma_value_bound();
                    U256::lemma_value_from_nat(left);
                }
                assert(self.storage@.allowance(from, caller) == left);
                self.events.push(Event::Transfer { from, to, value });
            },
            _ => {},
        }
        r
    }
}

/// Writes `amount` as the allowance of (owner, spender), dropping the entry
/// where the amount is zero.
fn set_allowance(table: &mut AllowanceTable, owner: ActorId, spender: ActorId, amount: U256)
    ensures
        final(table)@ == with_amount(old(table)@, (owner, spender), amount.value()),
{
    proof {
        amount.lemma_from_nat_value();
    }
    if amount.is_zero() {
        table.remove(&owner, &spender);
    } else {
        table.insert(owner, spender, amount);
    }
}

/// The canonical payload of a withdrawal: the domain tag, the caller's 32
/// bytes, the amount as 32 big-endian bytes, the 32 bytes of the withdrawal
/// identifier and the expiry as 8 big-endian bytes; 120 bytes in all.
pub open spec fn withdrawal_payload_spec(
    caller: ActorId,
    amount: U256,
    withdrawal_id: [u8; 32],
    expiry: u64,
) -> Seq<u8> {
    WITHDRAWAL_DOMAIN@ + caller.bytes@ + be_bytes(amount.value(), 32) + withdrawal_id@ + be_bytes(
        expiry as nat,
        8,
    )
}

/// The verdict on a withdrawal signature: its length is checked first, then
/// its format, then the format of the key, then the signature itself, over
/// the message hash in the signing context `substrate`.
pub open spec fn signature_verdict(message_hash: Seq<u8>, signature: Seq<u8>, pubkey: Seq<u8>)
    -> Result<(), Error> {
    if signature.len() != 64 {
        Err(Error::InvalidSignatureLength)
    } else if !sr25519_signature_parses(signature) {
        Err(Error::InvalidSignatureFormat)
    } else if !sr25519_public_key_parses(pubkey) {
        Err(Error::InvalidPublicKeyFormat)
    } else if !sr25519_verifies(pubkey, SIGNING_CTX@, message_hash, signature) {
        Err(Error::SignatureVerificationFailed)
    } else {
        Ok(())
    }
}

/// Appends the bytes of `part` to `out`.
fn append_bytes(out: &mut Vec<u8>, part: &[u8])
    ensures
        final(out)@ == old(out)@ + part@,
{
    let mut i: usize = 0;
    while i < part.len()
        invariant
            i <= part@.len(),
            out@ == old(out)@ + part@.subrange(0, i as int),
        decreases part@.len() - i,
    {
        out.push(part[i]);
        proof {
            assert(part@.subrange(0, i + 1) =~= part@.subrange(0, i as int).push(part@[i as int]));
        }
        i += 1;
    }
    proof {
        assert(part@.subrange(0, i as int) =~= part@);
    }
}

/// Builds the canonical payload of a withdrawal.
pub fn withdrawal_payload(caller: ActorId, amount: U256, withdrawal_id: [u8; 32], expiry: u64) -> (r:
    Vec<u8>)
    ensures
        r@ == withdrawal_payload_spec(caller, amount, withdrawal_id, expiry),
        r@.len() == 120,
{
    let mut out: Vec<u8> = Vec::new();
    let amount_bytes = amount.to_be_bytes();
    let expiry_bytes = u64_to_be_bytes(expiry);
    append_bytes(&mut out, WITHDRAWAL_DOMAIN.as_slice());
    append_bytes(&mut out, caller.bytes.as_slice());
    append_bytes(&mut out, amount_bytes.as_slice());
    append_bytes(&mut out, withdrawal_id.as_slice());
    append_bytes(&mut out, expiry_bytes.as_slice());
    proof {
        lemma_be_bytes_len(amount.value(), 32);
        lemma_be_bytes_len(expiry as nat, 8);
        assert(out@ =~= withdrawal_payload_spec(caller, amount, withdrawal_id, expiry));
    }
    out
}

/// The BLAKE2b-256 digest of the canonical withdrawal payload.
pub fn compute_withdrawal_hash(
    caller: ActorId,
    amount: U256,
    withdrawal_id: [u8; 32],
    expiry: u64,
) -> (r: [u8; 32])
    ensures
        r@ == blake2b_256(withdrawal_payload_spec(caller, amount, withdrawal_id, expiry)),
{
    let payload = withdrawal_payload(caller, amount, withdrawal_id, expiry);
    blake2b_256_digest(payload.as_slice())
}

/// Checks an sr25519 signature over `message_hash` in the signing context
/// `substrate`, and says what is wrong with it where something is.
pub fn verify_sr25519_signature(
    message_hash: &[u8; 32],
    signature_bytes: &[u8],
    pubkey_bytes: &[u8; 32],
) -> (r: Result<(), Error>)
    ensures
        r == signature_verdict(message_hash@, signature_bytes@, pubkey_bytes@),
{
    if signature_bytes.len() != 64 {
        return Err(Error::InvalidSignatureLength);
    }
    let mut sig_array: [u8; 64] = [0u8; 64];
    let mut i: usize = 0;
    while i < 64
        invariant
            i <= 64,
            signature_bytes@.len() == 64,
            forall|j: int| 0 <= j < i ==> sig_array@[j] == signature_bytes@[j],
        decreases 64 - i,
    {
        sig_array[i] = signature_bytes[i];
        i += 1;
    }
    proof {
        assert(sig_array@ =~= signature_bytes@);
    }
    if !signature_parses(&sig_array) {
        return Err(Error::InvalidSignatureFormat);
    }
    if !public_key_parses(pubkey_bytes) {
        return Err(Error::InvalidPublicKeyFormat);
    }
    if !signature_verifies(pubkey_bytes, SIGNING_CTX.as_slice(), message_hash, &sig_array) {
        return Err(Error::SignatureVerificationFailed);
    }
    Ok(())
}

impl LineTokenService {
    /// The verdict on the signature of a withdrawal by `caller`, under the
    /// configured signer; `Ok` where none is configured.
    pub open spec fn withdrawal_verdict(
        &self,
        caller: ActorId,
        amount: U256,
        withdrawal_id: [u8; 32],
        expiry: u64,
        signature: Seq<u8>,
    ) -> Result<(), Error> {
        match self.state().backend_signer_pubkey {
            Some(pubkey) => signature_verdict(
                blake2b_256(withdrawal_payload_spec(caller, amount, withdrawal_id, expiry)),
                signature,
                pubkey@,
            ),
            None => Ok(()),
        }
    }

    /// Checks a withdrawal as far as that goes without its signature, and
    /// hands out the key that the signature is to be verified under.
    pub fn check_withdrawal(&self, now: u64, amount: U256, withdrawal_id: [u8; 32], expiry: u64) -> (r:
        Result<[u8; 32], Error>)
        ensures
            r matches Err(e) ==> self.state().withdraw_precheck(now, amount, withdrawal_id, expiry)
                == Err::<(), Error>(e),
            r matches Ok(pubkey) ==> self.state().withdraw_precheck(
                now,
                amount,
                withdrawal_id,
                expiry,
            ) is Ok && self.state().backend_signer_pubkey == Some(pubkey),
    {
        if self.storage.withdrawals_paused {
            return Err(Error::WithdrawalsPaused);
        }
        if now > expiry {
            return Err(Error::WithdrawalExpired);
        }
        if self.storage.used_withdrawals.contains(&withdrawal_id) {
            return Err(Error::WithdrawalAlreadyUsed);
        }
        let pubkey = match self.storage.backend_signer_pubkey {
            Some(pubkey) => pubkey,
            None => {
                return Err(Error::SignerNotConfigured);
            },
        };
        match self.storage.max_withdrawal_per_tx {
            Some(max) => {
                if amount.gt(&max) {
                    return Err(Error::ExceedsMaxWithdrawal);
                }
            },
            None => {},
        }
        Ok(pubkey)
    }

    /// Executes a withdrawal whose signature has been judged: `verdict` says
    /// whether the backend signer authorized `caller` to mint `amount` under
    /// `withdrawal_id` until `expiry`.
    ///
    /// In this order: withdrawals must not be paused, `now` must not lie
    /// after `expiry`, the identifier must be unused, a signer must be
    /// configured, the amount must respect the cap, the verdict must be `Ok`,
    /// and the total supply must not overflow. Then the identifier is marked
    /// used, `amount` is minted to `caller`, `WithdrawalExecuted` is emitted
    /// and the result is `Ok(true)`.
    pub fn withdraw_checked(
        &mut self,
        caller: ActorId,
        now: u64,
        amount: U256,
        withdrawal_id: [u8; 32],
        expiry: u64,
        verdict: Result<(), Error>,
    ) -> (r: Result<bool, Error>)
        requires
            old(self).wf(),
        ensures
            final(self).wf(),
            r == old(self).state().withdraw_result(now, amount, withdrawal_id, expiry, verdict),
            r is Ok ==> {
                &&& final(self).state() == old(self).state().after_withdraw(
                    caller,
                    amount,
                    withdrawal_id,
                )
                &&& final(self).emitted() == old(self).emitted().push(
                    Event::WithdrawalExecuted { to: caller, amount, withdrawal_id },
                )
            },
            r is Err ==> {
                &&& final(self).state() == old(self).state()
                &&& final(self).emitted() == old(self).emitted()
            },
    {
        match self.check_withdrawal(now, amount, withdrawal_id, expiry) {
            Err(e) => {
                return Err(e);
            },
            Ok(_) => {},
        }
        match verdict {
            Err(e) => {
                return Err(e);
            },
            Ok(()) => {},
        }
        if self.storage.total_supply.checked_add(&amount).is_none() {
            return Err(Error::TotalSupplyOverflow);
        }
        let ghost before = self.storage@;
        proof {
            before.lemma_after_mint(caller, amount);
        }
        self.storage.used_withdrawals.insert(withdrawal_id);
        let minted = funcs::mint(
            &mut self.storage.balances,
            &mut self.storage.total_supply,
            caller,
            amount,
        );
        proof {
            lemma_total_bounds(before.balances, caller, caller);
            U256::lemma_value_injective(
                self.storage.total_supply,
                before.after_mint(caller, amount).total_supply,
            );
            assert(self.storage@.balances =~= before.after_mint(caller, amount).balances);
        }
        self.events.push(Event::WithdrawalExecuted { to: caller, amount, withdrawal_id });
        Ok(true)
    }

    /// Withdraws `amount` to the caller on the authority of `signature`, the
    /// backend signer's sr25519 signature over the hash of the canonical
    /// payload.
    ///
    /// The pause, the expiry, the identifier, the signer and the cap are
    /// checked first; only where they pass is the payload hashed and the
    /// signature verified. The result is that of `withdraw_checked` on the
    /// verdict that `verify_sr25519_signature` gives of the signature.
    pub fn withdraw(
        &mut self,
        caller: ActorId,
        now: u64,
        amount: U256,
        withdrawal_id: [u8; 32],
        expiry: u64,
        signature: Vec<u8>,
    ) -> (r: Result<bool, Error>)
        requires
            old(self).wf(),
        ensures
            final(self).wf(),
            r == old(self).state().withdraw_result(
                now,
                amount,
                withdrawal_id,
                expiry,
                old(self).withdrawal_verdict(caller, amount, withdrawal_id, expiry, signature@),
            ),
            r is Ok ==> {
                &&& final(self).state() == old(self).state().after_withdraw(
                    caller,
                    amount,
                    withdrawal_id,
                )
                &&& final(self).emitted() == old(self).emitted().push(
                    Event::WithdrawalExecuted { to: caller, amount, withdrawal_id },
                )
            },
            r is Err ==> {
                &&& final(self).state() == old(self).state()
                &&& final(self).emitted() == old(self).emitted()
            },
    {
        // The signature is looked at only where nothing else stands against
        // the withdrawal.
        let pubkey = match self.check_withdrawal(now, amount, withdrawal_id, expiry) {
            Err(e) => {
                return Err(e);
            },
            Ok(pubkey) => pubkey,
        };
        let payload_hash = compute_withdrawal_hash(caller, amount, withdrawal_id, expiry);
        let verdict = verify_sr25519_signature(&payload_hash, signature.as_slice(), &pubkey);
        self.withdraw_checked(caller, now, amount, withdrawal_id, expiry, verdict)
    }

    /// Sets the public key of the backend signer; only an admin may. Emits
    /// `BackendSignerUpdated`.
    pub fn set_backend_signer(&mut self, caller: ActorId, signer_pubkey: [u8; 32]) -> (r: Result<
        (),
        Error,
    >)
        requires
            old(self).wf(),
        ensures
            final(self).wf(),
            r == old(self).state().admin_result(caller),
            r is Ok ==> {
                &&& final(self).state() == (StorageView {
                    backend_signer_pubkey: Some(signer_pubkey),
                    ..old(self).state()
                })
                &&& final(self).emitted() == old(self).emitted().push(
                    Event::BackendSignerUpdated { signer_pubkey },
                )
            },
            r is Err ==> {
                &&& final(self).state() == old(self).state()
                &&& final(self).emitted() == old(self).emitted()
            },
    {
        if !self.storage.admins.contains(&caller) {
            return Err(Error::NotAdmin);
        }
        self.storage.backend_signer_pubkey = Some(signer_pubkey);
        self.events.push(Event::BackendSignerUpdated { signer_pubkey });
        Ok(())
    }

    /// Pauses withdrawals; only an admin may. Emits `WithdrawalsPaused`.
    pub fn pause_withdrawals(&mut self, caller: ActorId) -> (r: Result<(), Error>)
        requires
            old(self).wf(),
        ensures
            final(self).wf(),
            r == old(self).state().admin_result(caller),
            r is Ok ==> {
                &&& final(self).state() == (StorageView {
                    withdrawals_paused: true,
                    ..old(self).state()
                })
                &&& final(self).emitted() == old(self).emitted().push(
                    Event::WithdrawalsPaused {  },
                )
            },
            r is Err ==> {
                &&& final(self).state() == old(self).state()
                &&& final(self).emitted() == old(self).emitted()
            },
    {
        if !self.storage.admins.contains(&caller) {
            return Err(Error::NotAdmin);
        }
        self.storage.withdrawals_paused = true;
        self.events.push(Event::WithdrawalsPaused {  });
        Ok(())
    }

    /// Resumes withdrawals; only an admin may. Emits `WithdrawalsUnpaused`.
    pub fn unpause_withdrawals(&mut self, caller: ActorId) -> (r: Result<(), Error>)
        requires
            old(self).wf(),
        ensures
            final(self).wf(),
            r == old(self).state().admin_result(caller),
            r is Ok ==> {
                &&& final(self).state() == (StorageView {
                    withdrawals_paused: false,
                    ..old(self).state()
                })
                &&& final(self).emitted() == old(self).emitted().push(
                    Event::WithdrawalsUnpaused {  },
                )
            },
            r is Err ==> {
                &&& final(self).state() == old(self).state()
                &&& final(self).emitted() == old(self).emitted()
            },
    {
        if !self.storage.admins.contains(&caller) {
            return Err(Error::NotAdmin);
        }
        self.storage.withdrawals_paused = false;
        self.events.push(Event::WithdrawalsUnpaused {  });
        Ok(())
    }

    /// Sets or lifts the cap on the amount of one withdrawal; only an admin
    /// may. Emits nothing.
    pub fn set_max_withdrawal(&mut self, caller: ActorId, max_amount: Option<U256>) -> (r: Result<
        (),
        Error,
    >)
        requires
            old(self).wf(),
        ensures
            final(self).wf(),
            r == old(self).state().admin_result(caller),
            r is Ok ==> final(self).state() == (StorageView {
                max_withdrawal_per_tx: max_amount,
                ..old(self).state()
            }),
            r is Err ==> final(self).state() == old(self).state(),
            final(self).emitted() == old(self).emitted(),
    {
        if !self.storage.admins.contains(&caller) {
            return Err(Error::NotAdmin);
        }
        self.storage.max_withdrawal_per_tx = max_amount;
        Ok(())
    }

    /// Whether the withdrawal identifier was executed.
    pub fn is_withdrawal_used(&self, withdrawal_id: [u8; 32]) -> (r: bool)
        ensures
            r == self.state().used_withdrawals.contains(withdrawal_id),
    {
        self.storage.used_withdrawals.contains(&withdrawal_id)
    }

    /// The public key of the backend signer, if one is configured.
    pub fn backend_signer(&self) -> (r: Option<[u8; 32]>)
        ensures
            r == self.state().backend_signer_pubkey,
    {
        self.storage.backend_signer_pubkey
    }

    /// Whether withdrawals are paused.
    pub fn withdrawals_paused(&self) -> (r: bool)
        ensures
            r == self.state().withdrawals_paused,
    {
        self.storage.withdrawals_paused
    }

    /// The cap on the amount of one withdrawal, if there is one.
    pub fn max_withdrawal(&self) -> (r: Option<U256>)
        ensures
            r == self.state().max_withdrawal_per_tx,
    {
        self.storage.max_withdrawal_per_tx
    }
}

} // verus!
