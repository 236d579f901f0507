//! The vault: share bookkeeping, governed spending and the escrow ledger.

use crate::address::{Address, Auth};
use crate::treasury::storage::{
    acquire_lock, get_asset_token, get_claimable, get_governor, get_lab, get_lab_counter,
    get_restricted_reserves, get_total_shares, get_user_shares, get_valocracy, is_locked,
    release_lock, set_asset_token, set_claimable, set_governor, set_lab, set_lab_counter,
    set_restricted_reserves, set_total_shares, set_user_shares, set_valocracy, Lab, LabStatus,
    Storage,
};
use vstd::prelude::*;

pub mod storage;
pub mod vault;

verus! {

broadcast use vstd::std_specs::hash::group_hash_axioms;

#[derive(Copy, Clone, Debug, PartialEq, Eq, Structural, Hash)]
pub enum TreasuryError {
    /// The vault has already been initialized.
    AlreadyInitialized,
    /// The vault has not been initialized.
    NotInitialized,
    /// The required principal did not authorize the call, or the operation
    /// is open to nobody.
    NotAuthorized,
    /// More shares were named than the account holds.
    InsufficientShares,
    /// The spendable balance does not cover the amount.
    InsufficientAssets,
    /// The amount is not positive, or a first deposit is under the minimum.
    ZeroAmount,
    /// A guarded operation was entered while another was under way.
    ReentrancyDetected,
    /// A sum, product or quotient left the range of the amounts.
    MathOverflow,
    /// There is no such escrow.
    LabNotFound,
    /// The escrow is not active.
    LabNotActive,
    /// More was claimed than the recipient may withdraw.
    InsufficientClaimable,
}

impl TreasuryError {
    /// The numeric code under which the error is reported to callers.
    pub open spec fn spec_code(self) -> u32 {
        match self {
            TreasuryError::AlreadyInitialized => 1,
            TreasuryError::NotInitialized => 2,
            TreasuryError::NotAuthorized => 3,
            TreasuryError::InsufficientShares => 4,
            TreasuryError::InsufficientAssets => 5,
            TreasuryError::ZeroAmount => 6,
            TreasuryError::ReentrancyDetected => 7,
            TreasuryError::MathOverflow => 8,
            TreasuryError::LabNotFound => 9,
            TreasuryError::LabNotActive => 10,
            TreasuryError::InsufficientClaimable => 11,
        }
    }

    /// The numeric code under which the error is reported to callers.
    pub fn code(&self) -> (r: u32)
        ensures
            r == self.spec_code(),
    {
        match self {
            TreasuryError::AlreadyInitialized => 1,
            TreasuryError::NotInitialized => 2,
            TreasuryError::NotAuthorized => 3,
            TreasuryError::InsufficientShares => 4,
            TreasuryError::InsufficientAssets => 5,
            TreasuryError::ZeroAmount => 6,
            TreasuryError::ReentrancyDetected => 7,
            TreasuryError::MathOverflow => 8,
            TreasuryError::LabNotFound => 9,
            TreasuryError::LabNotActive => 10,
            TreasuryError::InsufficientClaimable => 11,
        }
    }
}

/// Sum of a sequence of amounts.
pub open spec fn sum(s: Seq<i128>) -> int
    decreases s.len(),
{
    if s.len() == 0 {
        0
    } else {
        sum(s.drop_last()) + s.last()
    }
}

/// Appending an amount adds it to the sum.
pub proof fn lemma_sum_push(s: Seq<i128>, v: i128)
    ensures
        sum(s.push(v)) == sum(s) + v,
{
    assert(s.push(v).drop_last() =~= s);
}

/// Replacing one amount changes the sum by the difference.
pub proof fn lemma_sum_update(s: Seq<i128>, i: int, v: i128)
    requires
        0 <= i < s.len(),
    ensures
        sum(s.update(i, v)) == sum(s) - s[i] + v,
    decreases s.len(),
{
    if i == s.len() - 1 {
        assert(s.update(i, v).drop_last() =~= s.drop_last());
    } else {
        lemma_sum_update(s.drop_last(), i, v);
        assert(s.update(i, v).drop_last() =~= s.drop_last().update(i, v));
    }
}

/// A sum of non-negative amounts bounds each of them.
pub proof fn lemma_sum_bounds(s: Seq<i128>, i: int)
    requires
        0 <= i < s.len(),
        forall|j: int| 0 <= j < s.len() ==> s[j] >= 0,
    ensures
        0 <= s[i] <= sum(s),
    decreases s.len(),
{
    lemma_sum_nonneg(s.drop_last());
    if i < s.len() - 1 {
        lemma_sum_bounds(s.drop_last(), i);
    }
}

/// A sum of non-negative amounts is non-negative.
pub proof fn lemma_sum_nonneg(s: Seq<i128>)
    requires
        forall|j: int| 0 <= j < s.len() ==> s[j] >= 0,
    ensures
        sum(s) >= 0,
    decreases s.len(),
{
    if s.len() > 0 {
        lemma_sum_nonneg(s.drop_last());
    }
}

/// A movement of the asset that an operation asks the asset ledger to make.
#[derive(Copy, Clone, Debug, PartialEq, Eq, Structural)]
pub enum Payment {
    /// `amount` moves from `from` into the vault.
    Incoming { from: Address, amount: i128 },
    /// `amount` moves out of the vault to `to`.
    Outgoing { to: Address, amount: i128 },
}

impl Payment {
    /// What the payment adds to the vault's asset balance.
    pub open spec fn spec_delta(self) -> int {
        match self {
            Payment::Incoming { amount, .. } => amount as int,
            Payment::Outgoing { amount, .. } => -(amount as int),
        }
    }

    /// What the payment adds to the vault's asset balance.
    pub fn delta(&self) -> (r: i128)
        requires
            i128::MIN <= self.spec_delta() <= i128::MAX,
        ensures
            r == self.spec_delta(),
    {
        match self {
            Payment::Incoming { amount, .. } => *amount,
            Payment::Outgoing { amount, .. } => 0 - *amount,
        }
    }
}

/// The vault's asset balance after `payment` was made at balance `balance`.
pub open spec fn spec_after(payment: Payment, balance: int) -> int {
    balance + payment.spec_delta()
}

/// `v`, held to the range of `i128`.
pub open spec fn spec_clamp(v: int) -> i128 {
    if v < i128::MIN {
        i128::MIN
    } else if v > i128::MAX {
        i128::MAX
    } else {
        v as i128
    }
}

/// The vault.
#[derive(Clone, Debug)]
pub struct TreasuryContract {
    pub store: Storage,
}

impl TreasuryContract {
    /// The tables are well-formed, no account holds a negative number of
    /// shares, the share total is the sum of the accounts' shares, and a vault
    /// that has not been initialized holds no shares.
    pub open spec fn inv(&self) -> bool {
        &&& self.store.user_shares.wf()
        &&& self.store.claimable.wf()
        &&& forall|i: int|
            0 <= i < self.store.user_shares.values().len() ==> self.store.user_shares.values()[i] >= 0
        &&& self.store.total_shares == sum(self.store.user_shares.values())
        &&& self.store.valocracy is Some ==> self.store.governor is Some
        &&& self.store.governor is None ==> self.store.user_shares.values().len() == 0
    }

    /// The part of the asset balance `balance` that governance may spend:
    /// what is not committed to escrows. Without an asset there is no balance.
    pub open spec fn spec_total_assets(&self, balance: i128) -> i128 {
        match self.store.asset_token {
            Some(_) => spec_clamp(balance - self.store.restricted_reserves),
            None => spec_clamp(0 - self.store.restricted_reserves),
        }
    }

    /// Whether the governance principal is set and authorized the call.
    pub open spec fn spec_governor_check(&self, auth: Auth) -> Result<(), TreasuryError> {
        match self.store.governor {
            None => Err(TreasuryError::NotInitialized),
            Some(governor) => if auth.has(governor) {
                Ok(())
            } else {
                Err(TreasuryError::NotAuthorized)
            },
        }
    }

    /// What stands against a deposit, if anything.
    pub open spec fn spec_deposit_check(&self, auth: Auth, receiver: Address, shares: i128)
        -> Result<(), TreasuryError> {
        match self.store.valocracy {
            None => Err(TreasuryError::NotInitialized),
            Some(valocracy) => if !auth.has(valocracy) {
                Err(TreasuryError::NotAuthorized)
            } else if !vault::spec_deposit_ok(shares, self.store.total_shares == 0) {
                Err(TreasuryError::ZeroAmount)
            } else if self.store.shares(receiver) + shares > i128::MAX
                || self.store.total_shares + shares > i128::MAX {
                Err(TreasuryError::MathOverflow)
            } else {
                Ok(())
            },
        }
    }

    /// What stands against a governed transfer, if anything.
    pub open spec fn spec_transfer_check(&self, auth: Auth, amount: i128, balance: i128)
        -> Result<(), TreasuryError> {
        match self.spec_governor_check(auth) {
            Err(e) => Err(e),
            Ok(_) => if amount <= 0 {
                Err(TreasuryError::ZeroAmount)
            } else if self.store.locked {
                Err(TreasuryError::ReentrancyDetected)
            } else if self.store.asset_token is None {
                Err(TreasuryError::NotInitialized)
            } else if balance - self.store.restricted_reserves < amount {
                Err(TreasuryError::InsufficientAssets)
            } else {
                Ok(())
            },
        }
    }

    /// What stands against funding an escrow, if anything.
    pub open spec fn spec_fund_lab_check(
        &self,
        auth: Auth,
        funder: Address,
        total_amount: i128,
        scholarship_per_member: i128,
    ) -> Result<(), TreasuryError> {
        if !auth.has(funder) {
            Err(TreasuryError::NotAuthorized)
        } else if total_amount <= 0 || scholarship_per_member <= 0 {
            Err(TreasuryError::ZeroAmount)
        } else if self.store.lab_counter == u32::MAX {
            Err(TreasuryError::MathOverflow)
        } else if self.store.asset_token is None {
            Err(TreasuryError::NotInitialized)
        } else if self.store.restricted_reserves + total_amount > i128::MAX {
            Err(TreasuryError::MathOverflow)
        } else {
            Ok(())
        }
    }

    /// The amount that approving a recipient of escrow `lab_id` adds to its
    /// claimable balance, or what stands against the approval.
    pub open spec fn spec_approve_check(&self, auth: Auth, lab_id: u32, member: Address)
        -> Result<i128, TreasuryError> {
        match self.spec_governor_check(auth) {
            Err(e) => Err(e),
            Ok(_) => match self.store.lab(lab_id) {
                None => Err(TreasuryError::LabNotFound),
                Some(lab) => if lab.status != LabStatus::Active {
                    Err(TreasuryError::LabNotActive)
                } else if !vault::spec_fits(
                    self.store.claim(member) + lab.scholarship_per_member,
                ) {
                    Err(TreasuryError::MathOverflow)
                } else {
                    Ok(lab.scholarship_per_member)
                },
            },
        }
    }

    /// What stands against a recipient's withdrawal, if anything.
    pub open spec fn spec_withdraw_scholarship_check(
        &self,
        auth: Auth,
        member: Address,
        amount: i128,
    ) -> Result<(), TreasuryError> {
        if !auth.has(member) {
            Err(TreasuryError::NotAuthorized)
        } else if amount <= 0 {
            Err(TreasuryError::ZeroAmount)
        } else if self.store.claim(member) < amount {
            Err(TreasuryError::InsufficientClaimable)
        } else if self.store.restricted_reserves - amount < i128::MIN {
            Err(TreasuryError::MathOverflow)
        } else if self.store.asset_token is None {
            Err(TreasuryError::NotInitialized)
        } else {
            Ok(())
        }
    }

    /// A vault that has not been initialized.
    pub fn new() -> (r: TreasuryContract)
        ensures
            r.inv(),
            r.store.valocracy is None,
            r.store.governor is None,
            r.store.asset_token is None,
            r.store.total_shares == 0,
            r.store.user_shares@ == Map::<Address, i128>::empty(),
            !r.store.locked,
            r.store.lab_counter == 0,
            r.store.labs@ == Map::<u32, Lab>::empty(),
            r.store.claimable@ == Map::<Address, i128>::empty(),
            r.store.restricted_reserves == 0,
    {
        TreasuryContract { store: Storage::new() }
    }

    /// Requires the governance principal's authorization.
    fn require_governor(&self, auth: &Auth) -> (r: Result<(), TreasuryError>)
        ensures
            r == self.spec_governor_check(*auth),
    {
        match get_governor(&self.store) {
            None => Err(TreasuryError::NotInitialized),
            Some(governor) => if auth.require_auth(&governor) {
                Ok(())
            } else {
                Err(TreasuryError::NotAuthorized)
            },
        }
    }

    /// Sets the vault up with the reputation ledger, the governance principal
    /// and the asset. Good once.
    pub fn initialize(&mut self, valocracy: Address, governor: Address, asset_token: Address) -> (r:
        Result<(), TreasuryError>)
        ensures
            old(self).inv() ==> final(self).inv(),
            match r {
                Ok(_) => old(self).store.governor is None && final(self).store == (Storage {
                    valocracy: Some(valocracy),
                    governor: Some(governor),
                    asset_token: Some(asset_token),
                    total_shares: 0,
                    ..old(self).store
                }),
                Err(e) => old(self).store.governor is Some && e
                    == TreasuryError::AlreadyInitialized && *final(self) == *old(self),
            },
    {
        if get_governor(&self.store).is_some() {
            return Err(TreasuryError::AlreadyInitialized);
        }
        set_valocracy(&mut self.store, &valocracy);
        set_governor(&mut self.store, &governor);
        set_asset_token(&mut self.store, &asset_token);
        set_total_shares(&mut self.store, 0);
        Ok(())
    }

    /// Hands governance to `new_governor`. Governance only.
    pub fn update_governor(&mut self, auth: &Auth, new_governor: Address) -> (r: Result<
        (),
        TreasuryError,
    >)
        ensures
            old(self).inv() ==> final(self).inv(),
            r == old(self).spec_governor_check(*auth),
            match r {
                Ok(_) => final(self).store == (Storage {
                    governor: Some(new_governor),
                    ..old(self).store
                }),
                Err(_) => *final(self) == *old(self),
            },
    {
        match self.require_governor(auth) {
            Err(e) => {
                return Err(e);
            },
            Ok(_) => {},
        }
        set_governor(&mut self.store, &new_governor);
        Ok(())
    }

    /// Credits `shares` to `receiver`. The reputation ledger only.
    ///
    /// The amount must be positive, and the first deposit at least the
    /// minimum. The receiver's shares and the share total grow by the amount;
    /// where either would leave the range of the amounts, nothing changes.
    pub fn deposit(&mut self, auth: &Auth, receiver: Address, shares: i128) -> (r: Result<
        (),
        TreasuryError,
    >)
        ensures
            old(self).inv() ==> final(self).inv(),
            r == old(self).spec_deposit_check(*auth, receiver, shares),
            match r {
                Ok(_) => {
                    &&& final(self).store == (Storage {
                        user_shares: final(self).store.user_shares,
                        total_shares: (old(self).store.total_shares + shares) as i128,
                        ..old(self).store
                    })
                    &&& final(self).store.user_shares@ == old(self).store.user_shares@.insert(
                        receiver,
                        (old(self).store.shares(receiver) + shares) as i128,
                    )
                },
                Err(_) => *final(self) == *old(self),
            },
    {
        let valocracy = match get_valocracy(&self.store) {
            Some(v) => v,
            None => {
                return Err(TreasuryError::NotInitialized);
            },
        };
        if !auth.require_auth(&valocracy) {
            return Err(TreasuryError::NotAuthorized);
        }
        if shares <= 0 {
            return Err(TreasuryError::ZeroAmount);
        }
        let is_first_deposit = get_total_shares(&self.store) == 0;
        match vault::validate_deposit(shares, is_first_deposit) {
            Err(e) => {
                return Err(e);
            },
            Ok(_) => {},
        }
        let current_shares = get_user_shares(&self.store, &receiver);
        let new_user_shares = match current_shares.checked_add(shares) {
            Some(v) => v,
            None => {
                return Err(TreasuryError::MathOverflow);
            },
        };
        let total = get_total_shares(&self.store);
        let new_total = match total.checked_add(shares) {
            Some(v) => v,
            None => {
                return Err(TreasuryError::MathOverflow);
            },
        };
        proof {
            let vals = self.store.user_shares.values();
            if self.store.user_shares@.contains_key(receiver) {
                let i = self.store.user_shares.keys().index_of(receiver);
                assert(self.store.user_shares.keys().contains(receiver));
                lemma_sum_update(vals, i, new_user_shares);
            } else {
                lemma_sum_push(vals, new_user_shares);
            }
        }
        set_user_shares(&mut self.store, &receiver, new_user_shares);
        set_total_shares(&mut self.store, new_total);
        Ok(())
    }

    /// Shares cannot be redeemed by their holder: every call is refused.
    /// Assets leave the vault through a governed transfer or an escrow claim.
    pub fn withdraw(&self, _caller: Address, _receiver: Address, _shares: i128) -> (r: Result<
        i128,
        TreasuryError,
    >)
        ensures
            r == Err::<i128, TreasuryError>(TreasuryError::NotAuthorized),
    {
        Err(TreasuryError::NotAuthorized)
    }

    /// The asset that the vault holds.
    pub fn asset(&self) -> (r: Option<Address>)
        ensures
            r == self.store.asset_token,
    {
        get_asset_token(&self.store)
    }

    /// The spendable part of the asset balance, where `balance` is what the
    /// asset ledger reports for the vault.
    pub fn total_assets(&self, balance: i128) -> (r: i128)
        ensures
            r == self.spec_total_assets(balance),
    {
        let total_balance = match get_asset_token(&self.store) {
            Some(_) => balance,
            None => 0,
        };
        let restricted = get_restricted_reserves(&self.store);
        match total_balance.checked_sub(restricted) {
            Some(v) => v,
            None => if restricted > 0 {
                i128::MIN
            } else {
                i128::MAX
            },
        }
    }

    /// Shares outstanding.
    pub fn total_shares(&self) -> (r: i128)
        ensures
            r == self.store.total_shares,
    {
        get_total_shares(&self.store)
    }

    /// Shares of `account`.
    pub fn shares_of(&self, account: &Address) -> (r: i128)
        ensures
            r == self.store.shares(*account),
    {
        get_user_shares(&self.store, account)
    }

    /// The assets that `shares` are worth at the asset balance `balance`.
    pub fn preview_withdraw(&self, shares: i128, balance: i128) -> (r: Result<i128, TreasuryError>)
        ensures
            r == (match vault::spec_convert_to_assets(
                shares,
                self.spec_total_assets(balance),
                self.store.total_shares,
            ) {
                Some(v) => Ok::<i128, TreasuryError>(v),
                None => Err(TreasuryError::MathOverflow),
            }),
    {
        let total_shares = get_total_shares(&self.store);
        let total_assets = self.total_assets(balance);
        vault::convert_to_assets(shares, total_assets, total_shares)
    }

    /// The reputation ledger.
    pub fn valocracy(&self) -> (r: Option<Address>)
        ensures
            r == self.store.valocracy,
    {
        get_valocracy(&self.store)
    }

    /// The governance principal.
    pub fn governor(&self) -> (r: Option<Address>)
        ensures
            r == self.store.governor,
    {
        get_governor(&self.store)
    }

    /// Whether a governed transfer is under way.
    pub fn locked(&self) -> (r: bool)
        ensures
            r == self.store.locked,
    {
        is_locked(&self.store)
    }

    /// Spends `amount` of the asset on `receiver`. Governance only: the one
    /// way out for assets that are not committed to an escrow.
    ///
    /// `balance` is what the asset ledger reports for the vault. The amount
    /// must be positive and covered by what is not committed to escrows. On
    /// success the vault is locked and the payment is the caller's to make;
    /// `settle` unlocks the vault once it is made.
    pub fn transfer(&mut self, auth: &Auth, receiver: Address, amount: i128, balance: i128) -> (r:
        Result<Payment, TreasuryError>)
        ensures
            old(self).inv() ==> final(self).inv(),
            match r {
                Ok(payment) => {
                    &&& old(self).spec_transfer_check(*auth, amount, balance) is Ok
                    &&& payment == (Payment::Outgoing { to: receiver, amount })
                    &&& final(self).store == (Storage { locked: true, ..old(self).store })
                    &&& final(self).store.restricted_reserves <= spec_after(payment, balance as int)
                },
                Err(e) => old(self).spec_transfer_check(*auth, amount, balance) == Err::<
                    (),
                    TreasuryError,
                >(e) && *final(self) == *old(self),
            },
    {
        match self.require_governor(auth) {
            Err(e) => {
                return Err(e);
            },
            Ok(_) => {},
        }
        if amount <= 0 {
            return Err(TreasuryError::ZeroAmount);
        }
        if is_locked(&self.store) {
            return Err(TreasuryError::ReentrancyDetected);
        }
        if get_asset_token(&self.store).is_none() {
            return Err(TreasuryError::NotInitialized);
        }
        let restricted = get_restricted_reserves(&self.store);
        let covered = match balance.checked_sub(restricted) {
            Some(spendable) => spendable >= amount,
            None => restricted < 0,
        };
        if !covered {
            return Err(TreasuryError::InsufficientAssets);
        }
        acquire_lock(&mut self.store);
        Ok(Payment::Outgoing { to: receiver, amount })
    }

    /// Ends a governed transfer: unlocks the vault.
    pub fn settle(&mut self)
        ensures
            old(self).inv() ==> final(self).inv(),
            final(self).store == (Storage { locked: false, ..old(self).store }),
    {
        release_lock(&mut self.store);
    }

    /// The former name of `transfer`.
    pub fn spend(&mut self, auth: &Auth, receiver: Address, amount: i128, balance: i128) -> (r:
        Result<Payment, TreasuryError>)
        ensures
            old(self).inv() ==> final(self).inv(),
            match r {
                Ok(payment) => {
                    &&& old(self).spec_transfer_check(*auth, amount, balance) is Ok
                    &&& payment == (Payment::Outgoing { to: receiver, amount })
                    &&& final(self).store == (Storage { locked: true, ..old(self).store })
                    &&& final(self).store.restricted_reserves <= spec_after(payment, balance as int)
                },
                Err(e) => old(self).spec_transfer_check(*auth, amount, balance) == Err::<
                    (),
                    TreasuryError,
                >(e) && *final(self) == *old(self),
            },
    {
        self.transfer(auth, receiver, amount, balance)
    }

    /// Opens an escrow: `funder` commits `total_amount`, to be paid out in
    /// amounts of `scholarship_per_member`.
    ///
    /// The total joins the restricted reserve, which governance cannot spend.
    /// Returns the id of the escrow and the payment that brings the total in.
    pub fn fund_lab(
        &mut self,
        auth: &Auth,
        funder: Address,
        total_amount: i128,
        scholarship_per_member: i128,
    ) -> (r: Result<(u32, Payment), TreasuryError>)
        ensures
            old(self).inv() ==> final(self).inv(),
            match r {
                Ok((lab_id, payment)) => {
                    &&& old(self).spec_fund_lab_check(
                        *auth,
                        funder,
                        total_amount,
                        scholarship_per_member,
                    ) is Ok
                    &&& lab_id == old(self).store.lab_counter + 1
                    &&& payment == (Payment::Incoming { from: funder, amount: total_amount })
                    &&& final(self).store == (Storage {
                        lab_counter: lab_id,
                        restricted_reserves: (old(self).store.restricted_reserves
                            + total_amount) as i128,
                        labs: final(self).store.labs,
                        ..old(self).store
                    })
                    &&& final(self).store.labs@ == old(self).store.labs@.insert(
                        lab_id,
                        Lab {
                            id: lab_id,
                            funder,
                            total_amount,
                            scholarship_per_member,
                            status: LabStatus::Active,
                        },
                    )
                    &&& forall|balance: int|
                        old(self).store.restricted_reserves <= balance
                            ==> final(self).store.restricted_reserves
                            <= #[trigger] spec_after(payment, balance)
                },
                Err(e) => old(self).spec_fund_lab_check(
                    *auth,
                    funder,
                    total_amount,
                    scholarship_per_member,
                ) == Err::<(), TreasuryError>(e) && *final(self) == *old(self),
            },
    {
        if !auth.require_auth(&funder) {
            return Err(TreasuryError::NotAuthorized);
        }
        if total_amount <= 0 || scholarship_per_member <= 0 {
            return Err(TreasuryError::ZeroAmount);
        }
        let lab_id = get_lab_counter(&self.store);
        let new_lab_id = match lab_id.checked_add(1) {
            Some(v) => v,
            None => {
                return Err(TreasuryError::MathOverflow);
            },
        };
        if get_asset_token(&self.store).is_none() {
            return Err(TreasuryError::NotInitialized);
        }
        let current_restricted = get_restricted_reserves(&self.store);
        let new_restricted = match current_restricted.checked_add(total_amount) {
            Some(v) => v,
            None => {
                return Err(TreasuryError::MathOverflow);
            },
        };
        set_lab_counter(&mut self.store, new_lab_id);
        set_restricted_reserves(&mut self.store, new_restricted);
        let lab = Lab {
            id: new_lab_id,
            funder,
            total_amount,
            scholarship_per_member,
            status: LabStatus::Active,
        };
        set_lab(&mut self.store, &lab);
        Ok((new_lab_id, Payment::Incoming { from: funder, amount: total_amount }))
    }

    /// Approves `member` as a recipient of escrow `lab_id`. Governance only.
    ///
    /// The escrow's fixed amount joins the member's claimable balance; no
    /// asset moves.
    pub fn approve_scholarship(&mut self, auth: &Auth, lab_id: u32, member: Address) -> (r: Result<
        (),
        TreasuryError,
    >)
        ensures
            old(self).inv() ==> final(self).inv(),
            match r {
                Ok(_) => {
                    &&& old(self).spec_approve_check(*auth, lab_id, member) matches Ok(amount)
                    &&& final(self).store == (Storage {
                        claimable: final(self).store.claimable,
                        ..old(self).store
                    })
                    &&& final(self).store.claimable@ == old(self).store.claimable@.insert(
                        member,
                        (old(self).store.claim(member) + amount) as i128,
                    )
                },
                Err(e) => old(self).spec_approve_check(*auth, lab_id, member) == Err::<
                    i128,
                    TreasuryError,
                >(e) && *final(self) == *old(self),
            },
    {
        match self.require_governor(auth) {
            Err(e) => {
                return Err(e);
            },
            Ok(_) => {},
        }
        let lab = match get_lab(&self.store, lab_id) {
            Some(lab) => lab,
            None => {
                return Err(TreasuryError::LabNotFound);
            },
        };
        if lab.status != LabStatus::Active {
            return Err(TreasuryError::LabNotActive);
        }
        let scholarship_amount = lab.scholarship_per_member;
        let current_claimable = get_claimable(&self.store, &member);
        let new_claimable = match current_claimable.checked_add(scholarship_amount) {
            Some(v) => v,
            None => {
                return Err(TreasuryError::MathOverflow);
            },
        };
        set_claimable(&mut self.store, &member, new_claimable);
        Ok(())
    }

    /// The amount that `member` may withdraw.
    pub fn get_claimable_balance(&self, member: &Address) -> (r: i128)
        ensures
            r == self.store.claim(*member),
    {
        get_claimable(&self.store, member)
    }

    /// Pays `amount` of `member`'s claimable balance out to it. The member
    /// itself authorizes; governance has no part in a withdrawal.
    ///
    /// The claimable balance and the restricted reserve fall by the amount.
    /// Returns the payment that takes the amount out.
    pub fn withdraw_scholarship(&mut self, auth: &Auth, member: Address, amount: i128) -> (r:
        Result<Payment, TreasuryError>)
        ensures
            old(self).inv() ==> final(self).inv(),
            match r {
                Ok(payment) => {
                    &&& old(self).spec_withdraw_scholarship_check(*auth, member, amount) is Ok
                    &&& payment == (Payment::Outgoing { to: member, amount })
                    &&& final(self).store == (Storage {
                        claimable: final(self).store.claimable,
                        restricted_reserves: (old(self).store.restricted_reserves
                            - amount) as i128,
                        ..old(self).store
                    })
                    &&& final(self).store.claimable@ == old(self).store.claimable@.insert(
                        member,
                        (old(self).store.claim(member) - amount) as i128,
                    )
                    &&& forall|balance: int|
                        old(self).store.restricted_reserves <= balance
                            ==> final(self).store.restricted_reserves
                            <= #[trigger] spec_after(payment, balance)
                },
                Err(e) => old(self).spec_withdraw_scholarship_check(*auth, member, amount) == Err::<
                    (),
                    TreasuryError,
                >(e) && *final(self) == *old(self),
            },
    {
        if !auth.require_auth(&member) {
            return Err(TreasuryError::NotAuthorized);
        }
        if amount <= 0 {
            return Err(TreasuryError::ZeroAmount);
        }
        let claimable = get_claimable(&self.store, &member);
        if claimable < amount {
            return Err(TreasuryError::InsufficientClaimable);
        }
        let new_claimable = claimable - amount;
        let current_restricted = get_restricted_reserves(&self.store);
        let new_restricted = match current_restricted.checked_sub(amount) {
            Some(v) => v,
            None => {
                return Err(TreasuryError::MathOverflow);
            },
        };
        if get_asset_token(&self.store).is_none() {
            return Err(TreasuryError::NotInitialized);
        }
        set_claimable(&mut self.store, &member, new_claimable);
        set_restricted_reserves(&mut self.store, new_restricted);
        Ok(Payment::Outgoing { to: member, amount })
    }

    /// Decides whether the vault's code may be replaced by the code with hash
    /// `new_wasm_hash`: governance only. Returns the hash to install.
    pub fn upgrade(&self, auth: &Auth, new_wasm_hash: [u8; 32]) -> (r: Result<
        [u8; 32],
        TreasuryError,
    >)
        ensures
            match r {
                Ok(hash) => self.spec_governor_check(*auth) is Ok && hash == new_wasm_hash,
                Err(e) => self.spec_governor_check(*auth) == Err::<(), TreasuryError>(e),
            },
    {
        match self.require_governor(auth) {
            Err(e) => Err(e),
            Ok(_) => Ok(new_wasm_hash),
        }
    }
}

/// The share total is the sum of the accounts' shares: each account with a
/// record is counted once, with the shares it holds, and an account without
/// one holds none.
pub proof fn lemma_total_shares_is_sum_of_balances(treasury: TreasuryContract)
    requires
        treasury.inv(),
    ensures
        treasury.store.total_shares == sum(treasury.store.user_shares.values()),
        treasury.store.user_shares.keys().no_duplicates(),
        treasury.store.user_shares.keys().len() == treasury.store.user_shares.values().len(),
        forall|i: int|
            0 <= i < treasury.store.user_shares.keys().len() ==> treasury.store.shares(
                #[trigger] treasury.store.user_shares.keys()[i],
            ) == treasury.store.user_shares.values()[i],
        forall|account: Address|
            !treasury.store.user_shares.keys().contains(account) ==> #[trigger] treasury.store.shares(
                account,
            ) == 0,
        forall|account: Address|
            0 <= #[trigger] treasury.store.shares(account) <= treasury.store.total_shares,
{
    let table = treasury.store.user_shares;
    assert forall|i: int| 0 <= i < table.keys().len() implies treasury.store.shares(
        #[trigger] table.keys()[i],
    ) == table.values()[i] by {
        table.lemma_position(i);
    }
    lemma_sum_nonneg(table.values());
    assert forall|account: Address|
        0 <= #[trigger] treasury.store.shares(account) <= treasury.store.total_shares by {
        if table.keys().contains(account) {
            let i = table.keys().index_of(account);
            table.lemma_position(i);
            lemma_sum_bounds(table.values(), i);
        }
    }
}

} // verus!
