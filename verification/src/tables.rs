//! The hash tables that the three contracts keep their state in.
//!
//! Every table is a hash map or a hash set of the `hashbrown` crate, reached
//! through `sails_rs::collections`. The map type cannot be declared to the
//! verifier as it stands, because its allocator parameter is bounded by a
//! trait of a crate that this library does not name; so each table is a
//! struct of its own around the map. A table is opaque to the verifier: what
//! it holds has a name (`amount_table_entries` and its siblings, also reachable
//! as the table's view `@`), and each operation is a thin method whose
//! contract restates, over that name, what the `hashbrown` documentation says
//! of the call it makes. These contracts are believed, not proved; the
//! methods that make the calls are private to the crate, and what is public
//! of a table is proved from them.
//!
//! Keys are stored as arrays and integers, so that hashing and equality are
//! the ones the standard library defines for them.

use crate::actor::ActorId;
use crate::marketplace::Auction;
use crate::u256::U256;
use sails_rs::collections::{HashMap, HashSet};
use vstd::prelude::*;

verus! {

/// Amounts keyed by account: balances, pending refunds, pending payouts.
#[verifier::external_body]
pub struct AmountTable {
    inner: HashMap<[u8; 32], [u64; 4]>,
}

/// The entries of an amount table.
pub uninterp spec fn amount_table_entries(t: AmountTable) -> Map<ActorId, U256>;

impl View for AmountTable {
    type V = Map<ActorId, U256>;

    open spec fn view(&self) -> Map<ActorId, U256> {
        amount_table_entries(*self)
    }
}

impl AmountTable {
    /// `HashMap::new`: a table without entries.
    #[verifier::external_body]
    pub(crate) fn raw_new() -> (table: AmountTable)
        ensures
            amount_table_entries(table) =~= Map::empty(),
    {
        AmountTable { inner: HashMap::new() }
    }

    /// `HashMap::len`: the number of entries.
    #[verifier::external_body]
    pub(crate) fn raw_len(&self) -> (n: usize)
        ensures
            n == amount_table_entries(*self).dom().len(),
    {
        self.inner.len()
    }

    /// `HashMap::get`: the amount stored under `account`, if any.
    #[verifier::external_body]
    pub(crate) fn raw_get(&self, account: &ActorId) -> (found: Option<U256>)
        ensures
            found == (if amount_table_entries(*self).dom().contains(*account) {
                Some(amount_table_entries(*self)[*account])
            } else {
                None
            }),
    {
        self.inner.get(&account.bytes).map(|v| U256 { l0: v[0], l1: v[1], l2: v[2], l3: v[3] })
    }

    /// `HashMap::insert`: stores `amount` under `account`, replacing what was
    /// there.
    #[verifier::external_body]
    pub(crate) fn raw_insert(&mut self, account: ActorId, amount: U256)
        ensures
            amount_table_entries(*final(self)) == amount_table_entries(*old(self)).insert(
                account,
                amount,
            ),
    {
        self.inner.insert(account.bytes, [amount.l0, amount.l1, amount.l2, amount.l3]);
    }

    /// `HashMap::remove`: drops the entry of `account`, if there is one.
    #[verifier::external_body]
    pub(crate) fn remove(&mut self, account: &ActorId)
        ensures
            amount_table_entries(*final(self)) == amount_table_entries(*old(self)).remove(*account),
    {
        self.inner.remove(&account.bytes);
    }
}

impl AmountTable {
    /// A table without entries.
    pub fn new() -> (table: AmountTable)
        ensures
            table@ == Map::<ActorId, U256>::empty(),
    {
        AmountTable::raw_new()
    }

    /// The number of entries.
    pub fn len(&self) -> (n: usize)
        ensures
            n == self@.dom().len(),
    {
        self.raw_len()
    }

    /// The amount stored under `account`, if any.
    pub fn get(&self, account: &ActorId) -> (found: Option<U256>)
        ensures
            found == (if self@.dom().contains(*account) {
                Some(self@[*account])
            } else {
                None
            }),
    {
        self.raw_get(account)
    }

    /// Stores `amount` under `account`, replacing what was there.
    pub fn insert(&mut self, account: ActorId, amount: U256)
        ensures
            final(self)@ == old(self)@.insert(account, amount),
    {
        self.raw_insert(account, amount)
    }
}

/// Allowances keyed by (owner, spender).
#[verifier::external_body]
pub struct AllowanceTable {
    inner: HashMap<([u8; 32], [u8; 32]), [u64; 4]>,
}

/// The entries of an allowance table.
pub uninterp spec fn allowance_table_entries(t: AllowanceTable) -> Map<(ActorId, ActorId), U256>;

impl View for AllowanceTable {
    type V = Map<(ActorId, ActorId), U256>;

    open spec fn view(&self) -> Map<(ActorId, ActorId), U256> {
        allowance_table_entries(*self)
    }
}

impl AllowanceTable {
    /// `HashMap::new`: a table without entries.
    #[verifier::external_body]
    pub(crate) fn new() -> (table: AllowanceTable)
        ensures
            allowance_table_entries(table) =~= Map::empty(),
    {
        AllowanceTable { inner: HashMap::new() }
    }

    /// `HashMap::get`: the allowance stored under (owner, spender), if any.
    #[verifier::external_body]
    pub(crate) fn raw_get(&self, owner: &ActorId, spender: &ActorId) -> (found: Option<U256>)
        ensures
            found == (if allowance_table_entries(*self).dom().contains((*owner, *spender)) {
                Some(allowance_table_entries(*self)[(*owner, *spender)])
            } else {
                None
            }),
    {
        self.inner.get(&(owner.bytes, spender.bytes)).map(
            |v| U256 { l0: v[0], l1: v[1], l2: v[2], l3: v[3] },
        )
    }

    /// `HashMap::insert`: stores `amount` under (owner, spender), replacing
    /// what was there.
    #[verifier::external_body]
    pub(crate) fn insert(&mut self, owner: ActorId, spender: ActorId, amount: U256)
        ensures
            allowance_table_entries(*final(self)) == allowance_table_entries(*old(self)).insert(
                (owner, spender),
                amount,
            ),
    {
        self.inner.insert(
            (owner.bytes, spender.bytes),
            [amount.l0, amount.l1, amount.l2, amount.l3],
        );
    }

    /// `HashMap::remove`: drops the entry of (owner, spender), if there is
    /// one.
    #[verifier::external_body]
    pub(crate) fn remove(&mut self, owner: &ActorId, spender: &ActorId)
        ensures
            allowance_table_entries(*final(self)) == allowance_table_entries(*old(self)).remove(
                (*owner, *spender),
            ),
    {
        self.inner.remove(&(owner.bytes, spender.bytes));
    }
}

impl AllowanceTable {
    /// The allowance stored under (owner, spender), if any.
    pub fn get(&self, owner: &ActorId, spender: &ActorId) -> (found: Option<U256>)
        ensures
            found == (if self@.dom().contains((*owner, *spender)) {
                Some(self@[(*owner, *spender)])
            } else {
                None
            }),
    {
        self.raw_get(owner, spender)
    }
}

/// A set of accounts: admins, minters.
#[verifier::external_body]
pub struct ActorSet {
    inner: HashSet<[u8; 32]>,
}

/// The members of an account set.
pub uninterp spec fn actor_set_members(s: ActorSet) -> Set<ActorId>;

impl View for ActorSet {
    type V = Set<ActorId>;

    open spec fn view(&self) -> Set<ActorId> {
        actor_set_members(*self)
    }
}

impl ActorSet {
    /// `HashSet::new`: a set without members.
    #[verifier::external_body]
    pub(crate) fn new() -> (set: ActorSet)
        ensures
            actor_set_members(set) =~= Set::empty(),
    {
        ActorSet { inner: HashSet::new() }
    }

    /// `HashSet::len`: the number of members.
    #[verifier::external_body]
    pub(crate) fn len(&self) -> (n: usize)
        ensures
            n == actor_set_members(*self).len(),
    {
        self.inner.len()
    }

    /// `HashSet::contains`: whether `account` is a member.
    #[verifier::external_body]
    pub(crate) fn contains(&self, account: &ActorId) -> (found: bool)
        ensures
            found == actor_set_members(*self).contains(*account),
    {
        self.inner.contains(&account.bytes)
    }

    /// `HashSet::insert`: makes `account` a member.
    #[verifier::external_body]
    pub(crate) fn insert(&mut self, account: ActorId)
        ensures
            actor_set_members(*final(self)) == actor_set_members(*old(self)).insert(account),
    {
        self.inner.insert(account.bytes);
    }

    /// `HashSet::remove`: `account` is no longer a member.
    #[verifier::external_body]
    pub(crate) fn remove(&mut self, account: &ActorId)
        ensures
            actor_set_members(*final(self)) == actor_set_members(*old(self)).remove(*account),
    {
        self.inner.remove(&account.bytes);
    }

    /// `HashSet::iter`: every member once, in an order that is not specified.
    #[verifier::external_body]
    pub(crate) fn to_vec(&self) -> (members: Vec<ActorId>)
        ensures
            members@.no_duplicates(),
            members@.to_set() == actor_set_members(*self),
    {
        self.inner.iter().map(|bytes| ActorId { bytes: *bytes }).collect()
    }
}

/// A set of 32-byte withdrawal identifiers.
#[verifier::external_body]
pub struct WithdrawalSet {
    inner: HashSet<[u8; 32]>,
}

/// The members of a set of withdrawal identifiers.
pub uninterp spec fn withdrawal_set_members(s: WithdrawalSet) -> Set<[u8; 32]>;

impl View for WithdrawalSet {
    type V = Set<[u8; 32]>;

    open spec fn view(&self) -> Set<[u8; 32]> {
        withdrawal_set_members(*self)
    }
}

impl WithdrawalSet {
    /// `HashSet::new`: a set without members.
    #[verifier::external_body]
    pub(crate) fn new() -> (set: WithdrawalSet)
        ensures
            withdrawal_set_members(set) =~= Set::empty(),
    {
        WithdrawalSet { inner: HashSet::new() }
    }

    /// `HashSet::contains`: whether `id` is a member.
    #[verifier::external_body]
    pub(crate) fn contains(&self, id: &[u8; 32]) -> (found: bool)
        ensures
            found == withdrawal_set_members(*self).contains(*id),
    {
        self.inner.contains(id)
    }

    /// `HashSet::insert`: makes `id` a member.
    #[verifier::external_body]
    pub(crate) fn insert(&mut self, id: [u8; 32])
        ensures
            withdrawal_set_members(*final(self)) == withdrawal_set_members(*old(self)).insert(id),
    {
        self.inner.insert(id);
    }
}

/// Auction records keyed by auction identifier.
#[verifier::external_body]
pub struct AuctionTable {
    inner: HashMap<u64, Auction>,
}

/// The entries of an auction table.
pub uninterp spec fn auction_table_entries(t: AuctionTable) -> Map<u64, Auction>;

impl View for AuctionTable {
    type V = Map<u64, Auction>;

    open spec fn view(&self) -> Map<u64, Auction> {
        auction_table_entries(*self)
    }
}

impl AuctionTable {
    /// `HashMap::new`: a table without entries.
    #[verifier::external_body]
    pub(crate) fn new() -> (table: AuctionTable)
        ensures
            auction_table_entries(table) =~= Map::empty(),
    {
        AuctionTable { inner: HashMap::new() }
    }

    /// `HashMap::get`: a copy of the record stored under `auction_id`, if
    /// any.
    #[verifier::external_body]
    pub(crate) fn get(&self, auction_id: u64) -> (found: Option<Auction>)
        ensures
            found == (if auction_table_entries(*self).dom().contains(auction_id) {
                Some(auction_table_entries(*self)[auction_id])
            } else {
                None
            }),
    {
        self.inner.get(&auction_id).copied()
    }

    /// `HashMap::insert`: stores `auction` under `auction_id`, replacing what
    /// was there.
    #[verifier::external_body]
    pub(crate) fn insert(&mut self, auction_id: u64, auction: Auction)
        ensures
            auction_table_entries(*final(self)) == auction_table_entries(*old(self)).insert(
                auction_id,
                auction,
            ),
    {
        self.inner.insert(auction_id, auction);
    }

    /// `HashMap::remove`: drops the record of `auction_id`, if there is one.
    #[verifier::external_body]
    pub(crate) fn remove(&mut self, auction_id: u64)
        ensures
            auction_table_entries(*final(self)) == auction_table_entries(*old(self)).remove(
                auction_id,
            ),
    {
        self.inner.remove(&auction_id);
    }
}

/// Auction identifiers keyed by the token on auction: (NFT contract, token
/// identifier).
#[verifier::external_body]
pub struct TokenIndex {
    inner: HashMap<([u8; 32], u64), u64>,
}

/// The entries of a token index.
pub uninterp spec fn token_index_entries(t: TokenIndex) -> Map<(ActorId, u64), u64>;

impl View for TokenIndex {
    type V = Map<(ActorId, u64), u64>;

    open spec fn view(&self) -> Map<(ActorId, u64), u64> {
        token_index_entries(*self)
    }
}

impl TokenIndex {
    /// `HashMap::new`: an index without entries.
    #[verifier::external_body]
    pub(crate) fn new() -> (index: TokenIndex)
        ensures
            token_index_entries(index) =~= Map::empty(),
    {
        TokenIndex { inner: HashMap::new() }
    }

    /// `HashMap::get`: the auction stored under the token, if any.
    #[verifier::external_body]
    pub(crate) fn get(&self, nft_program_id: &ActorId, token_id: u64) -> (found: Option<u64>)
        ensures
            found == (if token_index_entries(*self).dom().contains((*nft_program_id, token_id)) {
                Some(token_index_entries(*self)[(*nft_program_id, token_id)])
            } else {
                None
            }),
    {
        self.inner.get(&(nft_program_id.bytes, token_id)).copied()
    }

    /// `HashMap::insert`: stores `auction_id` under the token, replacing what
    /// was there.
    #[verifier::external_body]
    pub(crate) fn insert(&mut self, nft_program_id: ActorId, token_id: u64, auction_id: u64)
        ensures
            token_index_entries(*final(self)) == token_index_entries(*old(self)).insert(
                (nft_program_id, token_id),
                auction_id,
            ),
    {
        self.inner.insert((nft_program_id.bytes, token_id), auction_id);
    }

    /// `HashMap::remove`: drops the entry of the token, if there is one.
    #[verifier::external_body]
    pub(crate) fn remove(&mut self, nft_program_id: &ActorId, token_id: u64)
        ensures
            token_index_entries(*final(self)) == token_index_entries(*old(self)).remove(
                (*nft_program_id, token_id),
            ),
    {
        self.inner.remove(&(nft_program_id.bytes, token_id));
    }
}

/// A set of auction identifiers: the auctions that are locked.
#[verifier::external_body]
pub struct LockSet {
    inner: HashSet<u64>,
}

/// The members of a lock set.
pub uninterp spec fn lock_set_members(s: LockSet) -> Set<u64>;

impl View for LockSet {
    type V = Set<u64>;

    open spec fn view(&self) -> Set<u64> {
        lock_set_members(*self)
    }
}

impl LockSet {
    /// `HashSet::new`: a set without members.
    #[verifier::external_body]
    pub(crate) fn new() -> (set: LockSet)
        ensures
            lock_set_members(set) =~= Set::empty(),
    {
        LockSet { inner: HashSet::new() }
    }

    /// `HashSet::contains`: whether `auction_id` is a member.
    #[verifier::external_body]
    pub(crate) fn contains(&self, auction_id: u64) -> (found: bool)
        ensures
            found == lock_set_members(*self).contains(auction_id),
    {
        self.inner.contains(&auction_id)
    }

    /// `HashSet::insert`: makes `auction_id` a member.
    #[verifier::external_body]
    pub(crate) fn insert(&mut self, auction_id: u64)
        ensures
            lock_set_members(*final(self)) == lock_set_members(*old(self)).insert(auction_id),
    {
        self.inner.insert(auction_id);
    }

    /// `HashSet::remove`: `auction_id` is no longer a member.
    #[verifier::external_body]
    pub(crate) fn remove(&mut self, auction_id: u64)
        ensures
            lock_set_members(*final(self)) == lock_set_members(*old(self)).remove(auction_id),
    {
        self.inner.remove(&auction_id);
    }
}

/// NFT deliveries that failed and wait to be claimed, keyed by auction
/// identifier: (recipient, token identifier, NFT contract).
#[verifier::external_body]
pub struct NftReturnTable {
    inner: HashMap<u64, ([u8; 32], u64, [u8; 32])>,
}

/// The entries of a table of pending NFT deliveries.
pub uninterp spec fn nft_return_table_entries(t: NftReturnTable) -> Map<
    u64,
    (ActorId, u64, ActorId),
>;

impl View for NftReturnTable {
    type V = Map<u64, (ActorId, u64, ActorId)>;

    open spec fn view(&self) -> Map<u64, (ActorId, u64, ActorId)> {
        nft_return_table_entries(*self)
    }
}

impl NftReturnTable {
    /// `HashMap::new`: a table without entries.
    #[verifier::external_body]
    pub(crate) fn new() -> (table: NftReturnTable)
        ensures
            nft_return_table_entries(table) =~= Map::empty(),
    {
        NftReturnTable { inner: HashMap::new() }
    }

    /// `HashMap::get`: the delivery stored under `auction_id`, if any.
    #[verifier::external_body]
    pub(crate) fn get(&self, auction_id: u64) -> (found: Option<(ActorId, u64, ActorId)>)
        ensures
            found == (if nft_return_table_entries(*self).dom().contains(auction_id) {
                Some(nft_return_table_entries(*self)[auction_id])
            } else {
                None
            }),
    {
        self.inner.get(&auction_id).map(
            |e| (ActorId { bytes: e.0 }, e.1, ActorId { bytes: e.2 }),
        )
    }

    /// `HashMap::insert`: stores the delivery under `auction_id`, replacing
    /// what was there.
    #[verifier::external_body]
    pub(crate) fn insert(&mut self, auction_id: u64, entry: (ActorId, u64, ActorId))
        ensures
            nft_return_table_entries(*final(self)) == nft_return_table_entries(*old(self)).insert(
                auction_id,
                entry,
            ),
    {
        self.inner.insert(auction_id, (entry.0.bytes, entry.1, entry.2.bytes));
    }

    /// `HashMap::remove`: drops the delivery of `auction_id`, if there is
    /// one.
    #[verifier::external_body]
    pub(crate) fn remove(&mut self, auction_id: u64)
        ensures
            nft_return_table_entries(*final(self)) == nft_return_table_entries(*old(self)).remove(
                auction_id,
            ),
    {
        self.inner.remove(&auction_id);
    }
}

/// Owners of NFTs keyed by token identifier.
#[verifier::external_body]
pub struct OwnerTable {
    inner: HashMap<u64, [u8; 32]>,
}

/// The entries of an owner table.
pub uninterp spec fn owner_table_entries(t: OwnerTable) -> Map<u64, ActorId>;

impl View for OwnerTable {
    type V = Map<u64, ActorId>;

    open spec fn view(&self) -> Map<u64, ActorId> {
        owner_table_entries(*self)
    }
}

impl OwnerTable {
    /// `HashMap::new`: a table without entries.
    #[verifier::external_body]
    pub(crate) fn raw_new() -> (table: OwnerTable)
        ensures
            owner_table_entries(table) =~= Map::empty(),
    {
        OwnerTable { inner: HashMap::new() }
    }

    /// `HashMap::get`: the owner stored under `token_id`, if any.
    #[verifier::external_body]
    pub(crate) fn raw_get(&self, token_id: u64) -> (found: Option<ActorId>)
        ensures
            found == (if owner_table_entries(*self).dom().contains(token_id) {
                Some(owner_table_entries(*self)[token_id])
            } else {
                None
            }),
    {
        self.inner.get(&token_id).map(|bytes| ActorId { bytes: *bytes })
    }

    /// `HashMap::insert`: stores `owner` under `token_id`, replacing what was
    /// there.
    #[verifier::external_body]
    pub(crate) fn insert(&mut self, token_id: u64, owner: ActorId)
        ensures
            owner_table_entries(*final(self)) == owner_table_entries(*old(self)).insert(
                token_id,
                owner,
            ),
    {
        self.inner.insert(token_id, owner.bytes);
    }
}

impl OwnerTable {
    /// A table without entries.
    pub fn new() -> (table: OwnerTable)
        ensures
            table@ == Map::<u64, ActorId>::empty(),
    {
        OwnerTable::raw_new()
    }

    /// The owner stored under `token_id`, if any.
    pub fn get(&self, token_id: u64) -> (found: Option<ActorId>)
        ensures
            found == (if self@.dom().contains(token_id) {
                Some(self@[token_id])
            } else {
                None
            }),
    {
        self.raw_get(token_id)
    }
}

/// Metadata URIs of NFTs keyed by token identifier.
#[verifier::external_body]
pub struct UriTable {
    inner: HashMap<u64, String>,
}

/// The entries of a table of metadata URIs.
pub uninterp spec fn uri_table_entries(t: UriTable) -> Map<u64, Seq<char>>;

impl View for UriTable {
    type V = Map<u64, Seq<char>>;

    open spec fn view(&self) -> Map<u64, Seq<char>> {
        uri_table_entries(*self)
    }
}

impl UriTable {
    /// `HashMap::new`: a table without entries.
    #[verifier::external_body]
    pub(crate) fn raw_new() -> (table: UriTable)
        ensures
            uri_table_entries(table) =~= Map::empty(),
    {
        UriTable { inner: HashMap::new() }
    }

    /// `HashMap::get`: a copy of the URI stored under `token_id`, if any.
    #[verifier::external_body]
    pub(crate) fn raw_get(&self, token_id: u64) -> (found: Option<String>)
        ensures
            found is Some == uri_table_entries(*self).dom().contains(token_id),
            found matches Some(uri) ==> uri@ == uri_table_entries(*self)[token_id],
    {
        self.inner.get(&token_id).cloned()
    }

    /// `HashMap::insert`: stores `uri` under `token_id`, replacing what was
    /// there.
    #[verifier::external_body]
    pub(crate) fn insert(&mut self, token_id: u64, uri: String)
        ensures
            uri_table_entries(*final(self)) == uri_table_entries(*old(self)).insert(token_id, uri@),
    {
        self.inner.insert(token_id, uri);
    }
}

impl UriTable {
    /// A table without entries.
    pub fn new() -> (table: UriTable)
        ensures
            table@ == Map::<u64, Seq<char>>::empty(),
    {
        UriTable::raw_new()
    }

    /// A copy of the URI stored under `token_id`, if any.
    pub fn get(&self, token_id: u64) -> (found: Option<String>)
        ensures
            found is Some == self@.dom().contains(token_id),
            found matches Some(uri) ==> uri@ == self@[token_id],
    {
        self.raw_get(token_id)
    }
}

} // verus!
