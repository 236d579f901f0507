//! The vault's store and its typed accessors.

use crate::address::{Address, AddressMap};
use std::collections::HashMap;
use vstd::prelude::*;

verus! {

broadcast use vstd::std_specs::hash::group_hash_axioms;

/// Status of an escrow.
#[derive(Copy, Clone, Debug, PartialEq, Eq, Structural)]
pub enum LabStatus {
    Active,
    Cancelled,
    Completed,
}

/// An escrow: a funder's commitment of a total, to be paid out in fixed
/// amounts to the recipients that governance approves.
#[derive(Copy, Clone, Debug, PartialEq, Eq, Structural)]
pub struct Lab {
    pub id: u32,
    pub funder: Address,
    pub total_amount: i128,
    pub scholarship_per_member: i128,
    pub status: LabStatus,
}

/// Everything the vault persists.
#[derive(Clone, Debug)]
pub struct Storage {
    /// The reputation ledger, which alone may deposit.
    pub valocracy: Option<Address>,
    /// The governance principal, which alone may spend.
    pub governor: Option<Address>,
    /// The asset that the vault holds.
    pub asset_token: Option<Address>,
    /// Shares outstanding.
    pub total_shares: i128,
    /// Depositor to shares.
    pub user_shares: AddressMap<i128>,
    /// Whether a guarded operation is under way.
    pub locked: bool,
    /// Number of escrows created; also the id of the last one.
    pub lab_counter: u32,
    /// Escrow id to escrow.
    pub labs: HashMap<u32, Lab>,
    /// Recipient to the amount it may withdraw.
    pub claimable: AddressMap<i128>,
    /// The part of the asset balance that is committed to escrows.
    pub restricted_reserves: i128,
}

impl Storage {
    /// Shares of `account`; zero without a record.
    pub open spec fn shares(&self, account: Address) -> i128 {
        self.user_shares.get_or(account, 0)
    }

    /// Claimable amount of `account`; zero without a record.
    pub open spec fn claim(&self, account: Address) -> i128 {
        self.claimable.get_or(account, 0)
    }

    /// The escrow `lab_id`, if there is one.
    pub open spec fn lab(&self, lab_id: u32) -> Option<Lab> {
        if self.labs@.contains_key(lab_id) {
            Some(self.labs@[lab_id])
        } else {
            None
        }
    }

    /// The store of a vault that has not been initialized.
    pub fn new() -> (r: Storage)
        ensures
            r.user_shares.wf(),
            r.claimable.wf(),
            r.valocracy is None,
            r.governor is None,
            r.asset_token is None,
            r.total_shares == 0,
            r.user_shares@ == Map::<Address, i128>::empty(),
            r.user_shares.values().len() == 0,
            !r.locked,
            r.lab_counter == 0,
            r.labs@ == Map::<u32, Lab>::empty(),
            r.claimable@ == Map::<Address, i128>::empty(),
            r.restricted_reserves == 0,
    {
        Storage {
            valocracy: None,
            governor: None,
            asset_token: None,
            total_shares: 0,
            user_shares: AddressMap::new(),
            locked: false,
            lab_counter: 0,
            labs: HashMap::new(),
            claimable: AddressMap::new(),
            restricted_reserves: 0,
        }
    }
}

/// The reputation ledger.
pub fn get_valocracy(store: &Storage) -> (r: Option<Address>)
    ensures
        r == store.valocracy,
{
    store.valocracy
}

/// Sets the reputation ledger.
pub fn set_valocracy(store: &mut Storage, valocracy: &Address)
    ensures
        *final(store) == (Storage { valocracy: Some(*valocracy), ..*old(store) }),
{
    store.valocracy = Some(*valocracy);
}

/// The governance principal.
pub fn get_governor(store: &Storage) -> (r: Option<Address>)
    ensures
        r == store.governor,
{
    store.governor
}

/// Sets the governance principal.
pub fn set_governor(store: &mut Storage, governor: &Address)
    ensures
        *final(store) == (Storage { governor: Some(*governor), ..*old(store) }),
{
    store.governor = Some(*governor);
}

/// The asset that the vault holds.
pub fn get_asset_token(store: &Storage) -> (r: Option<Address>)
    ensures
        r == store.asset_token,
{
    store.asset_token
}

/// Sets the asset that the vault holds.
pub fn set_asset_token(store: &mut Storage, token: &Address)
    ensures
        *final(store) == (Storage { asset_token: Some(*token), ..*old(store) }),
{
    store.asset_token = Some(*token);
}

/// Shares outstanding.
pub fn get_total_shares(store: &Storage) -> (r: i128)
    ensures
        r == store.total_shares,
{
    store.total_shares
}

/// Sets the shares outstanding.
pub fn set_total_shares(store: &mut Storage, shares: i128)
    ensures
        *final(store) == (Storage { total_shares: shares, ..*old(store) }),
{
    store.total_shares = shares;
}

/// Shares of `account`; zero without a record.
pub fn get_user_shares(store: &Storage, account: &Address) -> (r: i128)
    ensures
        store.user_shares.wf(),
        r == store.shares(*account),
{
    match store.user_shares.get(account) {
        Some(v) => v,
        None => 0,
    }
}

/// Sets the shares of `account`.
pub fn set_user_shares(store: &mut Storage, account: &Address, shares: i128)
    ensures
        old(store).user_shares.wf(),
        final(store).user_shares.wf(),
        *final(store) == (Storage { user_shares: final(store).user_shares, ..*old(store) }),
        final(store).user_shares@ == old(store).user_shares@.insert(*account, shares),
        old(store).user_shares@.contains_key(*account) ==> final(store).user_shares.values() == old(
            store,
        ).user_shares.values().update(old(store).user_shares.keys().index_of(*account), shares),
        !old(store).user_shares@.contains_key(*account) ==> final(store).user_shares.values() == old(
            store,
        ).user_shares.values().push(shares),
{
    store.user_shares.insert(*account, shares);
}

/// Whether a guarded operation is under way.
pub fn is_locked(store: &Storage) -> (r: bool)
    ensures
        r == store.locked,
{
    store.locked
}

/// Locks the vault.
pub fn acquire_lock(store: &mut Storage)
    ensures
        *final(store) == (Storage { locked: true, ..*old(store) }),
{
    store.locked = true;
}

/// Unlocks the vault.
pub fn release_lock(store: &mut Storage)
    ensures
        *final(store) == (Storage { locked: false, ..*old(store) }),
{
    store.locked = false;
}

/// Number of escrows created.
pub fn get_lab_counter(store: &Storage) -> (r: u32)
    ensures
        r == store.lab_counter,
{
    store.lab_counter
}

/// Sets the number of escrows created.
pub fn set_lab_counter(store: &mut Storage, count: u32)
    ensures
        *final(store) == (Storage { lab_counter: count, ..*old(store) }),
{
    store.lab_counter = count;
}

/// The escrow `lab_id`.
pub fn get_lab(store: &Storage, lab_id: u32) -> (r: Option<Lab>)
    ensures
        r == store.lab(lab_id),
{
    match store.labs.get(&lab_id) {
        Some(lab) => Some(*lab),
        None => None,
    }
}

/// Stores an escrow under its id.
pub fn set_lab(store: &mut Storage, lab: &Lab)
    ensures
        *final(store) == (Storage { labs: final(store).labs, ..*old(store) }),
        final(store).labs@ == old(store).labs@.insert(lab.id, *lab),
{
    store.labs.insert(lab.id, *lab);
}

/// The amount that `account` may withdraw; zero without a record.
pub fn get_claimable(store: &Storage, account: &Address) -> (r: i128)
    ensures
        store.claimable.wf(),
        r == store.claim(*account),
{
    match store.claimable.get(account) {
        Some(v) => v,
        None => 0,
    }
}

/// Sets the amount that `account` may withdraw.
pub fn set_claimable(store: &mut Storage, account: &Address, amount: i128)
    ensures
        old(store).claimable.wf(),
        final(store).claimable.wf(),
        *final(store) == (Storage { claimable: final(store).claimable, ..*old(store) }),
        final(store).claimable@ == old(store).claimable@.insert(*account, amount),
{
    store.claimable.insert(*account, amount);
}

/// The part of the asset balance that is committed to escrows.
pub fn get_restricted_reserves(store: &Storage) -> (r: i128)
    ensures
        r == store.restricted_reserves,
{
    store.restricted_reserves
}

/// Sets the part of the asset balance that is committed to escrows.
pub fn set_restricted_reserves(store: &mut Storage, amount: i128)
    ensures
        *final(store) == (Storage { restricted_reserves: amount, ..*old(store) }),
{
    store.restricted_reserves = amount;
}

} // verus!
