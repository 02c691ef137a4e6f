//! The NFT ledger: an ownership mapping that only admins may change. The
//! auction engine, made an admin, moves tokens into and out of escrow with
//! `transfer_from`.

use crate::actor::ActorId;
use crate::tables::{ActorSet, OwnerTable, UriTable};
use vstd::prelude::*;

pub mod funcs;

verus! {

/// Why an operation of the ledger was rejected.
#[derive(Clone, Copy, Debug, PartialEq, Eq, Structural)]
pub enum Error {
    /// The caller is not an admin.
    NotAdmin,
    /// The token identifier is taken.
    TokenExists,
    /// There is no such token.
    TokenNotFound,
    /// The token belongs to someone else than `from`.
    NotOwner,
    /// The number of tokens would leave 64 bits.
    SupplyOverflow,
}

/// What the ledger emits.
#[derive(Clone, Copy, Debug, PartialEq, Eq)]
pub enum Event {
    /// A token changed its owner; a mint is a transfer from the zero
    /// account.
    Transfer { from: ActorId, to: ActorId, token_id: u64 },
    /// An account became an admin.
    AdminAdded { admin: ActorId },
    /// An account stopped being an admin.
    AdminRemoved { admin: ActorId },
}

/// The state of the ledger.
pub struct Storage {
    /// The owner of each token.
    pub owners: OwnerTable,
    /// The metadata URI of each token.
    pub token_uris: UriTable,
    /// The number of tokens minted.
    pub total_supply: u64,
    /// Accounts that may mint and transfer.
    pub admins: ActorSet,
}

/// The state of the ledger as mathematical maps and sets.
pub struct StorageView {
    pub owners: Map<u64, ActorId>,
    pub token_uris: Map<u64, Seq<char>>,
    pub total_supply: u64,
    pub admins: Set<ActorId>,
}

impl View for Storage {
    type V = StorageView;

    open spec fn view(&self) -> StorageView {
        StorageView {
            owners: self.owners@,
            token_uris: self.token_uris@,
            total_supply: self.total_supply,
            admins: self.admins@,
        }
    }
}

impl StorageView {
    /// What holds of the ledger between any two operations: the tokens that
    /// have an owner are those that have a URI, and the supply counts them.
    pub open spec fn wf(self) -> bool {
        &&& self.owners.dom().finite()
        &&& self.owners.dom().len() == self.total_supply
        &&& self.token_uris.dom() == self.owners.dom()
    }

    /// What an admin-only operation returns to `caller`.
    pub open spec fn admin_result(self, caller: ActorId) -> Result<bool, Error> {
        if self.admins.contains(caller) {
            Ok(true)
        } else {
            Err(Error::NotAdmin)
        }
    }

    /// What `mint` returns. The checks are made in this order.
    pub open spec fn mint_result(self, caller: ActorId, token_id: u64) -> Result<bool, Error> {
        if !self.admins.contains(caller) {
            Err(Error::NotAdmin)
        } else if self.owners.dom().contains(token_id) {
            Err(Error::TokenExists)
        } else if self.total_supply == u64::MAX {
            Err(Error::SupplyOverflow)
        } else {
            Ok(true)
        }
    }

    /// What `transfer_from` returns. The checks are made in this order.
    pub open spec fn transfer_from_result(self, caller: ActorId, from: ActorId, token_id: u64)
        -> Result<bool, Error> {
        if !self.admins.contains(caller) {
            Err(Error::NotAdmin)
        } else if !self.owners.dom().contains(token_id) {
            Err(Error::TokenNotFound)
        } else if self.owners[token_id] != from {
            Err(Error::NotOwner)
        } else {
            Ok(true)
        }
    }
}

/// The set that holds the first `n` accounts of `accounts`.
pub open spec fn accounts_of(accounts: Seq<ActorId>, n: int) -> Set<ActorId> {
    accounts.subrange(0, n).to_set()
}

/// The ledger: its state and the events it has emitted.
pub struct NftService {
    storage: Storage,
    events: Vec<Event>,
}

impl NftService {
    /// The state of the ledger.
    pub closed spec fn state(&self) -> StorageView {
        self.storage@
    }

    /// The events emitted so far, oldest first.
    pub closed spec fn emitted(&self) -> Seq<Event> {
        self.events@
    }

    /// Whether the state is well-formed.
    pub open spec fn wf(&self) -> bool {
        self.state().wf()
    }

    /// A service over an existing state, with an empty event log.
    pub fn new(storage: Storage) -> (r: NftService)
        ensures
            r.state() == storage@,
            r.emitted() == Seq::<Event>::empty(),
    {
        NftService { storage, events: Vec::new() }
    }

    /// A fresh ledger without tokens. Its admins are `deployer` and the
    /// accounts in `initial_admins`, if any are given.
    pub fn init(deployer: ActorId, initial_admins: Option<Vec<ActorId>>) -> (r: NftService)
        ensures
            r.wf(),
            r.emitted() == Seq::<Event>::empty(),
            r.state() == (StorageView {
                owners: Map::empty(),
                token_uris: Map::empty(),
                total_supply: 0,
                admins: match initial_admins {
                    Some(extra) => extra@.to_set().insert(deployer),
                    None => Set::empty().insert(deployer),
                },
            }),
    {
        let mut admins = ActorSet::new();
        admins.insert(deployer);
        match initial_admins {
            Some(extra) => {
                let mut i: usize = 0;
                while i < extra.len()
                    invariant
                        i <= extra@.len(),
                        admins@ == accounts_of(extra@, i as int).insert(deployer),
                    decreases extra@.len() - i,
                {
                    admins.insert(extra[i]);
                    proof {
                        let before = extra@.subrange(0, i as int);
                        let after = extra@.subrange(0, i + 1);
                        assert(after =~= before.push(extra@[i as int]));
                        assert(after.to_set() =~= before.to_set().insert(extra@[i as int])) by {
                            assert forall|a: ActorId| after.to_set().contains(a) implies before.to_set().insert(
                                extra@[i as int],
                            ).contains(a) by {
                                let j = choose|j: int| 0 <= j < after.len() && after[j] == a;
                                if j < i {
                                    assert(before[j] == a);
                                }
                            }
                            assert forall|a: ActorId|
                                before.to_set().insert(extra@[i as int]).contains(
                                    a,
                                ) implies after.to_set().contains(a) by {
                                if a == extra@[i as int] {
                                    assert(after[i as int] == a);
                                } else {
                                    let j = choose|j: int| 0 <= j < before.len() && before[j] == a;
                                    assert(after[j] == a);
                                }
                            }
                        }
                        assert(admins@ =~= accounts_of(extra@, i + 1).insert(deployer));
                    }
                    i += 1;
                }
                proof {
                    assert(extra@.subrange(0, i as int) =~= extra@);
                }
            },
            None => {
                proof {
                    assert(admins@ =~= Set::empty().insert(deployer));
                }
            },
        }
        let storage = Storage {
            owners: OwnerTable::new(),
            token_uris: UriTable::new(),
            total_supply: 0,
            admins,
        };
        proof {
            assert(storage@.owners =~= Map::empty());
            assert(storage@.token_uris =~= Map::empty());
        }
        NftService { storage, events: Vec::new() }
    }

    /// The state of the ledger.
    pub fn storage(&self) -> (r: &Storage)
        ensures
            r@ == self.state(),
    {
        &self.storage
    }

    /// Hands out the events emitted since the last call and empties the log.
    pub fn take_events(&mut self) -> (r: Vec<Event>)
        ensures
            r@ == old(self).emitted(),
            final(self).emitted() == Seq::<Event>::empty(),
            final(self).state() == old(self).state(),
    {
        let mut out: Vec<Event> = Vec::new();
        std::mem::swap(&mut self.events, &mut out);
        out
    }

    /// Mints the new token `token_id` to `to`; only an admin may, and only
    /// under an identifier that is free. Emits a `Transfer` from the zero
    /// account.
    pub fn mint(&mut self, caller: ActorId, to: ActorId, token_id: u64, metadata_uri: String) -> (r:
        Result<bool, Error>)
        requires
            old(self).wf(),
        ensures
            final(self).wf(),
            r == old(self).state().mint_result(caller, token_id),
            r is Ok ==> {
                &&& final(self).state() == (StorageView {
                    owners: old(self).state().owners.insert(token_id, to),
                    token_uris: old(self).state().token_uris.insert(token_id, metadata_uri@),
                    total_supply: (old(self).state().total_supply + 1) as u64,
                    ..old(self).state()
                })
                &&& final(self).emitted() == old(self).emitted().push(
                    Event::Transfer { from: ActorId::zero(), to, token_id },
                )
            },
            r is Err ==> {
                &&& final(self).state() == old(self).state()
                &&& final(self).emitted() == old(self).emitted()
            },
    {
        if !self.storage.admins.contains(&caller) {
            return Err(Error::NotAdmin);
        }
        if self.storage.owners.get(token_id).is_some() {
            return Err(Error::TokenExists);
        }
        match funcs::mint(
            &mut self.storage.owners,
            &mut self.storage.token_uris,
            &mut self.storage.total_supply,
            to,
            token_id,
            metadata_uri,
        ) {
            Ok(()) => {},
            Err(e) => {
                return Err(e);
            },
        }
        self.events.push(Event::Transfer { from: ActorId::zero(), to, token_id });
        proof {
            assert(self.storage@.token_uris.dom() =~= self.storage@.owners.dom());
        }
        Ok(true)
    }

    /// Moves `token_id` from its owner `from` to `to`; only an admin may.
    /// Emits `Transfer`.
    pub fn transfer_from(&mut self, caller: ActorId, from: ActorId, to: ActorId, token_id: u64) -> (r:
        Result<bool, Error>)
        requires
            old(self).wf(),
        ensures
            final(self).wf(),
            r == old(self).state().transfer_from_result(caller, from, token_id),
            r is Ok ==> {
                &&& final(self).state() == (StorageView {
                    owners: old(self).state().owners.insert(token_id, to),
                    ..old(self).state()
                })
                &&& final(self).emitted() == old(self).emitted().push(
                    Event::Transfer { from, to, token_id },
                )
            },
            r is Err ==> {
                &&& final(self).state() == old(self).state()
                &&& final(self).emitted() == old(self).emitted()
            },
    {
        if !self.storage.admins.contains(&caller) {
            return Err(Error::NotAdmin);
        }
        let current_owner = match self.storage.owners.get(token_id) {
            Some(owner) => owner,
            None => {
                return Err(Error::TokenNotFound);
            },
        };
        if current_owner != from {
            return Err(Error::NotOwner);
        }
        funcs::transfer(&mut self.storage.owners, token_id, to);
        self.events.push(Event::Transfer { from, to, token_id });
        proof {
            assert(self.storage@.owners.dom() =~= old(self).state().owners.dom());
        }
        Ok(true)
    }

    /// Makes `admin` an admin; only an admin may. Emits `AdminAdded`.
    pub fn add_admin(&mut self, caller: ActorId, admin: ActorId) -> (r: Result<bool, Error>)
        requires
            old(self).wf(),
        ensures
            final(self).wf(),
            r == old(self).state().admin_result(caller),
            r is Ok ==> {
                &&& final(self).state() == (StorageView {
                    admins: old(self).state().admins.insert(admin),
                    ..old(self).state()
                })
                &&& final(self).emitted() == old(self).emitted().push(Event::AdminAdded { admin })
            },
            r is Err ==> {
                &&& final(self).state() == old(self).state()
                &&& final(self).emitted() == old(self).emitted()
            },
    {
        if !self.storage.admins.contains(&caller) {
            return Err(Error::NotAdmin);
        }
        self.storage.admins.insert(admin);
        self.events.push(Event::AdminAdded { admin });
        Ok(true)
    }

    /// Takes the admin role from `admin`; only an admin may. Emits
    /// `AdminRemoved`.
    pub fn remove_admin(&mut self, caller: ActorId, admin: ActorId) -> (r: Result<bool, Error>)
        requires
            old(self).wf(),
        ensures
            final(self).wf(),
            r == old(self).state().admin_result(caller),
            r is Ok ==> {
                &&& final(self).state() == (StorageView {
                    admins: old(self).state().admins.remove(admin),
                    ..old(self).state()
                })
                &&& final(self).emitted() == old(self).emitted().push(
                    Event::AdminRemoved { admin },
                )
            },
            r is Err ==> {
                &&& final(self).state() == old(self).state()
                &&& final(self).emitted() == old(self).emitted()
            },
    {
        if !self.storage.admins.contains(&caller) {
            return Err(Error::NotAdmin);
        }
        self.storage.admins.remove(&admin);
        self.events.push(Event::AdminRemoved { admin });
        Ok(true)
    }

    /// The owner of `token_id`, if the token exists.
    pub fn owner_of(&self, token_id: u64) -> (r: Option<ActorId>)
        ensures
            r == (if self.state().owners.dom().contains(token_id) {
                Some(self.state().owners[token_id])
            } else {
                None
            }),
    {
        self.storage.owners.get(token_id)
    }

    /// The metadata URI of `token_id`, if the token exists.
    pub fn token_uri(&self, token_id: u64) -> (r: Option<String>)
        ensures
            r is Some == self.state().token_uris.dom().contains(token_id),
            r matches Some(uri) ==> uri@ == self.state().token_uris[token_id],
    {
        self.storage.token_uris.get(token_id)
    }

    /// The number of tokens minted.
    pub fn total_supply(&self) -> (r: u64)
        ensures
            r == self.state().total_supply,
    {
        self.storage.total_supply
    }

    /// The admins, each once, in no particular order.
    pub fn admins(&self) -> (r: Vec<ActorId>)
        ensures
            r@.no_duplicates(),
            r@.to_set() == self.state().admins,
    {
        self.storage.admins.to_vec()
    }

    /// Whether `account` is an admin.
    pub fn is_admin(&self, account: ActorId) -> (r: bool)
        ensures
            r == self.state().admins.contains(account),
    {
        self.storage.admins.contains(&account)
    }
}

} // verus!
