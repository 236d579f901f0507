//! The reputation ledger's store and its typed accessors.

use crate::address::{Address, AddressMap};
use crate::valocracy::types::{UserStats, Valor};
use std::collections::HashMap;
use vstd::prelude::*;

verus! {

broadcast use vstd::std_specs::hash::group_hash_axioms;

/// Everything the reputation ledger persists.
#[derive(Clone, Debug)]
pub struct Storage {
    /// Former administrator, kept for stores written by earlier versions.
    pub admin: Option<Address>,
    /// Whether the ledger has been initialized.
    pub initialized: bool,
    /// Former founder, kept for stores written by earlier versions.
    pub founder: Option<Address>,
    /// The governance principal.
    pub governor: Option<Address>,
    /// The vault that receives a share grant with every badge.
    pub treasury: Option<Address>,
    /// Number of badges issued so far; also the id of the last one.
    pub total_supply: u64,
    /// The badge type that self-registration grants.
    pub member_valor_id: Option<u64>,
    /// Badge id to badge type id.
    pub token_valor_ids: HashMap<u64, u64>,
    /// Badge type id to badge type.
    pub valors: HashMap<u64, Valor>,
    /// Account to member record.
    pub user_stats: AddressMap<UserStats>,
    /// Badge id to owner.
    pub token_owners: HashMap<u64, Address>,
    /// Public key that vouchers are signed with.
    pub signer: Option<[u8; 32]>,
    /// The (account, nonce) pairs of the vouchers redeemed so far.
    pub used_nonces: Vec<(Address, u64)>,
    /// Display name.
    pub name: String,
    /// Display symbol.
    pub symbol: String,
}

impl Storage {
    /// The member record of `account`, if there is one.
    pub open spec fn stats(&self, account: Address) -> Option<UserStats> {
        if self.user_stats@.contains_key(account) {
            Some(self.user_stats@[account])
        } else {
            None
        }
    }

    /// The badge type `valor_id`, if registered.
    pub open spec fn valor(&self, valor_id: u64) -> Option<Valor> {
        if self.valors@.contains_key(valor_id) {
            Some(self.valors@[valor_id])
        } else {
            None
        }
    }

    /// The owner of badge `token_id`, if the badge exists.
    pub open spec fn token_owner(&self, token_id: u64) -> Option<Address> {
        if self.token_owners@.contains_key(token_id) {
            Some(self.token_owners@[token_id])
        } else {
            None
        }
    }

    /// The badge type id of badge `token_id`, if the badge exists.
    pub open spec fn token_valor_id(&self, token_id: u64) -> Option<u64> {
        if self.token_valor_ids@.contains_key(token_id) {
            Some(self.token_valor_ids@[token_id])
        } else {
            None
        }
    }

    /// Whether the voucher nonce `nonce` of `account` has been redeemed.
    pub open spec fn nonce_used(&self, account: Address, nonce: u64) -> bool {
        self.used_nonces@.contains((account, nonce))
    }

    /// The store of a ledger that has not been initialized.
    pub fn new() -> (r: Storage)
        ensures
            r.user_stats.wf(),
            r.admin is None,
            !r.initialized,
            r.founder is None,
            r.governor is None,
            r.treasury is None,
            r.total_supply == 0,
            r.member_valor_id is None,
            r.token_valor_ids@ == Map::<u64, u64>::empty(),
            r.valors@ == Map::<u64, Valor>::empty(),
            r.user_stats@ == Map::<Address, UserStats>::empty(),
            r.user_stats.keys().len() == 0,
            r.token_owners@ == Map::<u64, Address>::empty(),
            r.signer is None,
            r.used_nonces@.len() == 0,
            r.name@.len() == 0,
            r.symbol@.len() == 0,
    {
        Storage {
            admin: None,
            initialized: false,
            founder: None,
            governor: None,
            treasury: None,
            total_supply: 0,
            member_valor_id: None,
            token_valor_ids: HashMap::new(),
            valors: HashMap::new(),
            user_stats: AddressMap::new(),
            token_owners: HashMap::new(),
            signer: None,
            used_nonces: Vec::new(),
            name: String::new(),
            symbol: String::new(),
        }
    }
}

/// The former administrator.
pub fn get_admin(store: &Storage) -> (r: Option<Address>)
    ensures
        r == store.admin,
{
    store.admin
}

/// Sets the former administrator.
pub fn set_admin(store: &mut Storage, admin: &Address)
    ensures
        *final(store) == (Storage { admin: Some(*admin), ..*old(store) }),
{
    store.admin = Some(*admin);
}

/// Whether the ledger has been initialized.
pub fn is_initialized(store: &Storage) -> (r: bool)
    ensures
        r == store.initialized,
{
    store.initialized
}

/// Marks the ledger as initialized.
pub fn set_initialized(store: &mut Storage)
    ensures
        *final(store) == (Storage { initialized: true, ..*old(store) }),
{
    store.initialized = true;
}

/// The former founder.
pub fn get_founder(store: &Storage) -> (r: Option<Address>)
    ensures
        r == store.founder,
{
    store.founder
}

/// Sets the former founder.
pub fn set_founder(store: &mut Storage, founder: &Address)
    ensures
        *final(store) == (Storage { founder: Some(*founder), ..*old(store) }),
{
    store.founder = Some(*founder);
}

/// The badge type that self-registration grants.
pub fn get_member_valor_id(store: &Storage) -> (r: Option<u64>)
    ensures
        r == store.member_valor_id,
{
    store.member_valor_id
}

/// Sets the badge type that self-registration grants.
pub fn set_member_valor_id(store: &mut Storage, valor_id: u64)
    ensures
        *final(store) == (Storage { member_valor_id: Some(valor_id), ..*old(store) }),
{
    store.member_valor_id = Some(valor_id);
}

/// The governance principal.
pub fn get_governor(store: &Storage) -> (r: Option<Address>)
    ensures
        r == store.governor,
{
    store.governor
}

/// Sets the governance principal.
pub fn set_governor(store: &mut Storage, governor: &Address)
    ensures
        *final(store) == (Storage { governor: Some(*governor), ..*old(store) }),
{
    store.governor = Some(*governor);
}

/// The vault.
pub fn get_treasury(store: &Storage) -> (r: Option<Address>)
    ensures
        r == store.treasury,
{
    store.treasury
}

/// Sets the vault.
pub fn set_treasury(store: &mut Storage, treasury: &Address)
    ensures
        *final(store) == (Storage { treasury: Some(*treasury), ..*old(store) }),
{
    store.treasury = Some(*treasury);
}

/// Number of badges issued.
pub fn get_total_supply(store: &Storage) -> (r: u64)
    ensures
        r == store.total_supply,
{
    store.total_supply
}

/// Sets the number of badges issued.
pub fn set_total_supply(store: &mut Storage, supply: u64)
    ensures
        *final(store) == (Storage { total_supply: supply, ..*old(store) }),
{
    store.total_supply = supply;
}

/// The badge type id of badge `token_id`.
pub fn get_token_valor_id(store: &Storage, token_id: u64) -> (r: Option<u64>)
    ensures
        r == store.token_valor_id(token_id),
{
    match store.token_valor_ids.get(&token_id) {
        Some(v) => Some(*v),
        None => None,
    }
}

/// Sets the badge type id of badge `token_id`.
pub fn set_token_valor_id(store: &mut Storage, token_id: u64, valor_id: u64)
    ensures
        *final(store) == (Storage { token_valor_ids: final(store).token_valor_ids, ..*old(store) }),
        final(store).token_valor_ids@ == old(store).token_valor_ids@.insert(token_id, valor_id),
{
    store.token_valor_ids.insert(token_id, valor_id);
}

/// The badge type `valor_id`.
pub fn get_valor(store: &Storage, valor_id: u64) -> (r: Option<Valor>)
    ensures
        r == store.valor(valor_id),
{
    match store.valors.get(&valor_id) {
        Some(v) => Some(v.clone()),
        None => None,
    }
}

/// Registers or replaces the badge type `valor_id`.
pub fn set_valor(store: &mut Storage, valor_id: u64, valor: &Valor)
    ensures
        *final(store) == (Storage { valors: final(store).valors, ..*old(store) }),
        final(store).valors@ == old(store).valors@.insert(valor_id, *valor),
{
    store.valors.insert(valor_id, valor.clone());
}

/// The member record of `account`.
pub fn get_user_stats(store: &Storage, account: &Address) -> (r: Option<UserStats>)
    ensures
        store.user_stats.wf(),
        r == store.stats(*account),
{
    store.user_stats.get(account)
}

/// Sets the member record of `account`.
pub fn set_user_stats(store: &mut Storage, account: &Address, stats: &UserStats)
    ensures
        old(store).user_stats.wf(),
        final(store).user_stats.wf(),
        *final(store) == (Storage { user_stats: final(store).user_stats, ..*old(store) }),
        final(store).user_stats@ == old(store).user_stats@.insert(*account, *stats),
        final(store).user_stats.keys().len() >= old(store).user_stats.keys().len(),
        final(store).user_stats.keys().len() >= 1,
{
    store.user_stats.insert(*account, *stats);
}

/// Whether `account` has a member record.
pub fn has_user_stats(store: &Storage, account: &Address) -> (r: bool)
    ensures
        store.user_stats.wf(),
        r == store.stats(*account) is Some,
{
    store.user_stats.contains_key(account)
}

/// The owner of badge `token_id`.
pub fn get_token_owner(store: &Storage, token_id: u64) -> (r: Option<Address>)
    ensures
        r == store.token_owner(token_id),
{
    match store.token_owners.get(&token_id) {
        Some(v) => Some(*v),
        None => None,
    }
}

/// Sets the owner of badge `token_id`.
pub fn set_token_owner(store: &mut Storage, token_id: u64, owner: &Address)
    ensures
        *final(store) == (Storage { token_owners: final(store).token_owners, ..*old(store) }),
        final(store).token_owners@ == old(store).token_owners@.insert(token_id, *owner),
{
    store.token_owners.insert(token_id, *owner);
}

/// Forgets the owner of badge `token_id`.
pub fn remove_token_owner(store: &mut Storage, token_id: u64)
    ensures
        *final(store) == (Storage { token_owners: final(store).token_owners, ..*old(store) }),
        final(store).token_owners@ == old(store).token_owners@.remove(token_id),
{
    store.token_owners.remove(&token_id);
}

/// Forgets the badge type id of badge `token_id`.
pub fn remove_token_valor_id(store: &mut Storage, token_id: u64)
    ensures
        *final(store) == (Storage { token_valor_ids: final(store).token_valor_ids, ..*old(store) }),
        final(store).token_valor_ids@ == old(store).token_valor_ids@.remove(token_id),
{
    store.token_valor_ids.remove(&token_id);
}

/// The public key that vouchers are signed with.
pub fn get_signer(store: &Storage) -> (r: Option<[u8; 32]>)
    ensures
        r == store.signer,
{
    store.signer
}

/// Sets the public key that vouchers are signed with.
pub fn set_signer(store: &mut Storage, signer: &[u8; 32])
    ensures
        *final(store) == (Storage { signer: Some(*signer), ..*old(store) }),
{
    store.signer = Some(*signer);
}

/// Whether the voucher nonce `nonce` of `account` has been redeemed.
pub fn is_nonce_used(store: &Storage, account: &Address, nonce: u64) -> (r: bool)
    ensures
        r == store.nonce_used(*account, nonce),
{
    let mut i: usize = 0;
    while i < store.used_nonces.len()
        invariant
            i <= store.used_nonces@.len(),
            forall|j: int| 0 <= j < i ==> store.used_nonces@[j] != (*account, nonce),
        decreases store.used_nonces@.len() - i,
    {
        if store.used_nonces[i].0 == *account && store.used_nonces[i].1 == nonce {
            assert(store.used_nonces@[i as int] == (*account, nonce));
            return true;
        }
        i += 1;
    }
    false
}

/// Marks the voucher nonce `nonce` of `account` as redeemed.
pub fn set_nonce_used(store: &mut Storage, account: &Address, nonce: u64)
    ensures
        *final(store) == (Storage { used_nonces: final(store).used_nonces, ..*old(store) }),
        final(store).used_nonces@ == old(store).used_nonces@.push((*account, nonce)),
        final(store).nonce_used(*account, nonce),
        forall|a: Address, n: u64|
            final(store).nonce_used(a, n) <==> old(store).nonce_used(a, n) || (a == *account && n
                == nonce),
{
    store.used_nonces.push((*account, nonce));
    proof {
        let before = old(store).used_nonces@;
        let after = store.used_nonces@;
        assert(after[before.len() as int] == (*account, nonce));
        assert forall|a: Address, n: u64|
            after.contains((a, n)) <==> before.contains((a, n)) || (a == *account && n
                == nonce) by {
            if after.contains((a, n)) {
                let i = choose|i: int| 0 <= i < after.len() && after[i] == (a, n);
                if i < before.len() {
                    assert(before[i] == (a, n));
                }
            }
            if before.contains((a, n)) {
                let i = choose|i: int| 0 <= i < before.len() && before[i] == (a, n);
                assert(after[i] == (a, n));
            }
        }
    }
}

} // verus!
