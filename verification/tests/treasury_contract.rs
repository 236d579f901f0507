use std::collections::HashMap;
use valocracy::address::{Address, Auth};
use valocracy::treasury::storage::{
    acquire_lock, get_lab, get_lab_counter, get_restricted_reserves, is_locked, release_lock, Lab,
    LabStatus,
};
use valocracy::treasury::vault::{MIN_INITIAL_DEPOSIT, VIRTUAL_ASSETS, VIRTUAL_SHARES};
use valocracy::treasury::{Payment, TreasuryContract, TreasuryError};

fn addr(n: u128) -> Address {
    Address::account(0, n)
}

/// The asset ledger that the vault relies on, as far as the tests need it.
struct Token {
    vault: Address,
    balances: HashMap<Address, i128>,
}

impl Token {
    fn new(vault: Address) -> Token {
        Token { vault, balances: HashMap::new() }
    }

    fn balance(&self, who: &Address) -> i128 {
        *self.balances.get(who).unwrap_or(&0)
    }

    fn mint(&mut self, to: &Address, amount: i128) {
        *self.balances.entry(*to).or_insert(0) += amount;
    }

    fn transfer(&mut self, from: &Address, to: &Address, amount: i128) {
        assert!(amount >= 0);
        assert!(self.balance(from) >= amount, "balance is not sufficient");
        *self.balances.entry(*from).or_insert(0) -= amount;
        *self.balances.entry(*to).or_insert(0) += amount;
    }

    fn pay(&mut self, payment: Payment) {
        let vault = self.vault;
        match payment {
            Payment::Incoming { from, amount } => self.transfer(&from, &vault, amount),
            Payment::Outgoing { to, amount } => self.transfer(&vault, &to, amount),
        }
    }
}

struct Setup {
    client: TreasuryContract,
    contract_id: Address,
    valocracy: Address,
    governor: Address,
    token_id: Address,
    token: Token,
}

impl Setup {
    fn deposit(&mut self, user: &Address, shares: i128) -> Result<(), TreasuryError> {
        self.client.deposit(&Auth::single(self.valocracy), *user, shares)
    }

    fn fund_lab(&mut self, funder: &Address, total: i128, each: i128) -> Result<u32, TreasuryError> {
        let (lab_id, payment) = self.client.fund_lab(&Auth::single(*funder), *funder, total, each)?;
        self.token.pay(payment);
        Ok(lab_id)
    }

    fn approve_scholarship(&mut self, lab_id: u32, member: &Address) -> Result<(), TreasuryError> {
        self.client.approve_scholarship(&Auth::single(self.governor), lab_id, *member)
    }

    fn withdraw_scholarship(&mut self, member: &Address, amount: i128) -> Result<(), TreasuryError> {
        let payment = self.client.withdraw_scholarship(&Auth::single(*member), *member, amount)?;
        self.token.pay(payment);
        Ok(())
    }

    fn spend(&mut self, receiver: &Address, amount: i128) -> Result<(), TreasuryError> {
        let balance = self.token.balance(&self.contract_id);
        let payment = self.client.spend(&Auth::single(self.governor), *receiver, amount, balance)?;
        self.token.pay(payment);
        self.client.settle();
        Ok(())
    }

    fn transfer(&mut self, receiver: &Address, amount: i128) -> Result<(), TreasuryError> {
        let balance = self.token.balance(&self.contract_id);
        let payment =
            self.client.transfer(&Auth::single(self.governor), *receiver, amount, balance)?;
        self.token.pay(payment);
        self.client.settle();
        Ok(())
    }

    fn total_assets(&self) -> i128 {
        self.client.total_assets(self.token.balance(&self.contract_id))
    }

    fn preview_withdraw(&self, shares: i128) -> i128 {
        self.client.preview_withdraw(shares, self.token.balance(&self.contract_id)).unwrap()
    }
}

fn setup_treasury() -> Setup {
    let contract_id = Address::contract(0, 1);
    let valocracy = Address::contract(0, 2);
    let governor = Address::contract(0, 3);
    let token_id = Address::contract(0, 4);
    let mut client = TreasuryContract::new();
    client.initialize(valocracy, governor, token_id).unwrap();
    Setup { client, contract_id, valocracy, governor, token_id, token: Token::new(contract_id) }
}

#[test]
fn test_math_overflow_protection() {
    let mut s = setup_treasury();
    // The preview reads the share total and the spendable assets.
    s.deposit(&addr(10), 1000).unwrap();
    s.token.mint(&s.contract_id.clone(), 10_000);
    assert_eq!(s.client.preview_withdraw(500, 10_000), Ok(2500));
    // shares * (assets + 1) leaves the range.
    assert_eq!(s.client.preview_withdraw(i128::MAX, 10_000), Err(TreasuryError::MathOverflow));
    // assets + 1 leaves the range.
    assert_eq!(s.client.preview_withdraw(1, i128::MAX), Err(TreasuryError::MathOverflow));
}

#[test]
fn test_scholarship_escrow() {
    let mut s = setup_treasury();

    // 1. Fund Lab
    let funder = addr(20);
    s.token.mint(&funder, 10000);

    let total_amount = 5000i128;
    let scholarship_amount = 1000i128;

    let lab_id = s.fund_lab(&funder, total_amount, scholarship_amount).unwrap();
    assert_eq!(lab_id, 1);

    assert_eq!(s.token.balance(&s.contract_id), total_amount);

    // 2. Approve Scholarship
    let student = addr(21);
    assert_eq!(s.client.get_claimable_balance(&student), 0);

    s.approve_scholarship(lab_id, &student).unwrap();
    assert_eq!(s.client.get_claimable_balance(&student), scholarship_amount);

    // 3. Withdraw Scholarship
    s.withdraw_scholarship(&student, scholarship_amount).unwrap();

    assert_eq!(s.token.balance(&student), scholarship_amount);
    assert_eq!(s.client.get_claimable_balance(&student), 0);
    assert_eq!(s.token.balance(&s.contract_id), total_amount - scholarship_amount);
}

#[test]
fn test_upgrade_auth() {
    let s = setup_treasury();
    let new_hash = [0u8; 32];

    // The vault decides who may replace its code; installing the code is the
    // host's part.
    assert_eq!(s.client.upgrade(&Auth::single(s.governor), new_hash), Ok(new_hash));
    assert_eq!(s.client.upgrade(&Auth::none(), new_hash), Err(TreasuryError::NotAuthorized));
    assert_eq!(
        TreasuryContract::new().upgrade(&Auth::single(s.governor), new_hash),
        Err(TreasuryError::NotInitialized)
    );
}

#[test]
fn test_initialize() {
    let s = setup_treasury();

    assert_eq!(s.client.valocracy(), Some(s.valocracy));
    assert_eq!(s.client.governor(), Some(s.governor));
    assert_eq!(s.client.asset(), Some(s.token_id));
    assert_eq!(s.client.total_shares(), 0);
    assert_eq!(s.total_assets(), 0);
}

#[test]
#[should_panic(expected = "AlreadyInitialized")]
fn test_double_initialization_fails() {
    let mut s = setup_treasury();
    s.client.initialize(s.valocracy, s.governor, s.token_id).unwrap();
}

#[test]
fn test_deposit_basic() {
    let mut s = setup_treasury();

    let user = addr(10);
    let shares = MIN_INITIAL_DEPOSIT;

    s.deposit(&user, shares).unwrap();

    assert_eq!(s.client.shares_of(&user), shares);
    assert_eq!(s.client.total_shares(), shares);
}

#[test]
fn test_deposit_accumulates() {
    let mut s = setup_treasury();
    let user = addr(10);

    s.deposit(&user, MIN_INITIAL_DEPOSIT).unwrap();
    assert_eq!(s.client.shares_of(&user), MIN_INITIAL_DEPOSIT);

    s.deposit(&user, 500).unwrap();
    assert_eq!(s.client.shares_of(&user), MIN_INITIAL_DEPOSIT + 500);

    assert_eq!(s.client.total_shares(), MIN_INITIAL_DEPOSIT + 500);
}

#[test]
#[should_panic(expected = "ZeroAmount")]
fn test_deposit_zero_shares_fails() {
    let mut s = setup_treasury();
    let user = addr(10);
    s.deposit(&user, 0).unwrap();
}

#[test]
#[should_panic(expected = "ZeroAmount")]
fn test_first_deposit_below_minimum_fails() {
    let mut s = setup_treasury();
    let user = addr(10);
    s.deposit(&user, MIN_INITIAL_DEPOSIT - 1).unwrap();
}

#[test]
fn test_second_deposit_can_be_small() {
    let mut s = setup_treasury();
    let user = addr(10);

    s.deposit(&user, MIN_INITIAL_DEPOSIT).unwrap();
    s.deposit(&user, 1).unwrap();

    assert_eq!(s.client.shares_of(&user), MIN_INITIAL_DEPOSIT + 1);
}

#[test]
fn test_preview_withdraw_with_virtual_offsets() {
    let mut s = setup_treasury();

    let user = addr(10);
    s.deposit(&user, 1000).unwrap();

    let vault = s.contract_id;
    s.token.mint(&vault, 10_000);

    let preview = s.preview_withdraw(500);
    assert!(preview > 0);
    assert_eq!(preview, (500 * (10_000 + VIRTUAL_ASSETS)) / (1000 + VIRTUAL_SHARES));

    // A preview is all there is: shares are not redeemed.
    assert_eq!(s.client.withdraw(user, user, 500), Err(TreasuryError::NotAuthorized));
    assert_eq!(s.client.shares_of(&user), 1000);
}

#[test]
fn test_preview_withdraw_empty_treasury() {
    let s = setup_treasury();

    let preview = s.preview_withdraw(100);
    assert_eq!(preview, 0);
}

#[test]
fn test_scholarship_escrow_full_lifecycle() {
    let mut s = setup_treasury();

    let funder = addr(20);
    let total_amount = 10_000i128;
    let scholarship_per_member = 1_000i128;

    s.token.mint(&funder, total_amount);

    let lab_id = s.fund_lab(&funder, total_amount, scholarship_per_member).unwrap();

    assert_eq!(lab_id, 1);
    assert_eq!(s.token.balance(&s.contract_id), total_amount);
    assert_eq!(get_restricted_reserves(&s.client.store), 10_000);
    assert_eq!(s.total_assets(), 0);

    let student = addr(21);
    assert_eq!(s.client.get_claimable_balance(&student), 0);

    s.approve_scholarship(lab_id, &student).unwrap();

    // The approval credits the claim and moves nothing.
    assert_eq!(s.client.get_claimable_balance(&student), scholarship_per_member);
    assert_eq!(s.token.balance(&s.contract_id), total_amount);
    assert_eq!(s.token.balance(&student), 0);
    assert_eq!(get_restricted_reserves(&s.client.store), 10_000);

    s.withdraw_scholarship(&student, scholarship_per_member).unwrap();

    assert_eq!(s.token.balance(&student), scholarship_per_member);
    assert_eq!(s.client.get_claimable_balance(&student), 0);
    assert_eq!(get_restricted_reserves(&s.client.store), 9_000);
    assert_eq!(s.token.balance(&s.contract_id), total_amount - scholarship_per_member);
}

#[test]
fn test_multiple_scholarships_same_student() {
    let mut s = setup_treasury();

    let funder = addr(20);
    let student = addr(21);

    s.token.mint(&funder, 20_000);

    let lab1 = s.fund_lab(&funder, 10_000, 1_000).unwrap();
    let lab2 = s.fund_lab(&funder, 10_000, 2_000).unwrap();
    assert_eq!((lab1, lab2), (1, 2));

    s.approve_scholarship(lab1, &student).unwrap();
    s.approve_scholarship(lab2, &student).unwrap();

    assert_eq!(s.client.get_claimable_balance(&student), 3_000);

    s.withdraw_scholarship(&student, 3_000).unwrap();
    assert_eq!(s.token.balance(&student), 3_000);
}

#[test]
fn test_partial_scholarship_withdrawal() {
    let mut s = setup_treasury();

    let funder = addr(20);
    let student = addr(21);

    s.token.mint(&funder, 10_000);
    let lab_id = s.fund_lab(&funder, 10_000, 5_000).unwrap();

    s.approve_scholarship(lab_id, &student).unwrap();
    assert_eq!(s.client.get_claimable_balance(&student), 5_000);

    s.withdraw_scholarship(&student, 2_000).unwrap();

    assert_eq!(s.client.get_claimable_balance(&student), 3_000);
    assert_eq!(s.token.balance(&student), 2_000);

    s.withdraw_scholarship(&student, 3_000).unwrap();

    assert_eq!(s.client.get_claimable_balance(&student), 0);
    assert_eq!(s.token.balance(&student), 5_000);
}

#[test]
#[should_panic(expected = "InsufficientClaimable")]
fn test_withdraw_more_than_claimable_fails() {
    let mut s = setup_treasury();

    let funder = addr(20);
    let student = addr(21);

    s.token.mint(&funder, 10_000);
    let lab_id = s.fund_lab(&funder, 10_000, 1_000).unwrap();
    s.approve_scholarship(lab_id, &student).unwrap();

    s.withdraw_scholarship(&student, 2_000).unwrap();
}

#[test]
#[should_panic(expected = "ZeroAmount")]
fn test_fund_lab_zero_amount_fails() {
    let mut s = setup_treasury();
    let funder = addr(20);
    s.fund_lab(&funder, 0, 100).unwrap();
}

#[test]
#[should_panic(expected = "ZeroAmount")]
fn test_fund_lab_zero_scholarship_fails() {
    let mut s = setup_treasury();
    let funder = addr(20);
    s.fund_lab(&funder, 1000, 0).unwrap();
}

#[test]
fn test_governance_spend() {
    let mut s = setup_treasury();

    let vault = s.contract_id;
    s.token.mint(&vault, 10_000);

    let recipient = addr(30);
    s.spend(&recipient, 3_000).unwrap();

    assert_eq!(s.token.balance(&recipient), 3_000);
    assert_eq!(s.total_assets(), 7_000);
}

#[test]
#[should_panic(expected = "InsufficientAssets")]
fn test_spend_more_than_balance_fails() {
    let mut s = setup_treasury();

    let vault = s.contract_id;
    s.token.mint(&vault, 5_000);

    let recipient = addr(30);
    s.spend(&recipient, 10_000).unwrap();
}

#[test]
#[should_panic(expected = "ZeroAmount")]
fn test_spend_zero_fails() {
    let mut s = setup_treasury();
    let recipient = addr(30);
    s.spend(&recipient, 0).unwrap();
}

#[test]
#[should_panic(expected = "ReentrancyDetected")]
fn test_reentrancy_protection_withdraw() {
    let mut s = setup_treasury();

    let user = addr(10);
    s.deposit(&user, MIN_INITIAL_DEPOSIT).unwrap();
    let vault = s.contract_id;
    s.token.mint(&vault, 10_000);

    // While a transfer's payment is under way the vault is locked: a second
    // transfer entered from within it is refused.
    let auth = Auth::single(s.governor);
    let first = s.client.transfer(&auth, addr(30), 1_000, 10_000);
    assert_eq!(first, Ok(Payment::Outgoing { to: addr(30), amount: 1_000 }));
    assert!(s.client.locked());
    s.client.transfer(&auth, addr(31), 1_000, 10_000).unwrap();
}

#[test]
fn test_upgrade_requires_governor_auth() {
    let s = setup_treasury();
    let new_hash = [1u8; 32];

    assert_eq!(s.client.upgrade(&Auth::single(s.governor), new_hash), Ok([1u8; 32]));
    assert_eq!(
        s.client.upgrade(&Auth::single(s.valocracy), new_hash),
        Err(TreasuryError::NotAuthorized)
    );
}

#[test]
fn test_view_functions() {
    let s = setup_treasury();

    assert_eq!(s.client.valocracy(), Some(s.valocracy));
    assert_eq!(s.client.governor(), Some(s.governor));
    assert_eq!(s.client.asset(), Some(s.token_id));
    assert_eq!(s.client.total_shares(), 0);
    assert_eq!(s.total_assets(), 0);
}

#[test]
fn test_shares_of_nonexistent_user() {
    let s = setup_treasury();
    let random_user = addr(99);
    assert_eq!(s.client.shares_of(&random_user), 0);
}

#[test]
fn test_claimable_balance_nonexistent_user() {
    let s = setup_treasury();
    let random_user = addr(99);
    assert_eq!(s.client.get_claimable_balance(&random_user), 0);
}

#[test]
fn test_large_numbers_no_overflow() {
    let mut s = setup_treasury();
    let user = addr(10);

    let large_shares = 1_000_000_000i128;
    s.deposit(&user, large_shares).unwrap();

    assert_eq!(s.client.shares_of(&user), large_shares);
    assert_eq!(s.client.total_shares(), large_shares);

    let preview = s.preview_withdraw(large_shares);
    assert!(preview >= 0);
    assert_eq!(preview, 0);
}

#[test]
fn test_multiple_users_shares_isolation() {
    let mut s = setup_treasury();

    let user1 = addr(11);
    let user2 = addr(12);
    let user3 = addr(13);

    s.deposit(&user1, 1000).unwrap();
    s.deposit(&user2, 2000).unwrap();
    s.deposit(&user3, 3000).unwrap();

    assert_eq!(s.client.shares_of(&user1), 1000);
    assert_eq!(s.client.shares_of(&user2), 2000);
    assert_eq!(s.client.shares_of(&user3), 3000);
    assert_eq!(s.client.total_shares(), 6000);
}

#[test]
fn test_direct_withdrawal_blocked() {
    let mut s = setup_treasury();

    let alice = addr(10);
    let _ = s.deposit(&alice, 1000);

    let result = s.client.withdraw(alice, alice, 500);

    assert!(result.is_err());
    assert_eq!(result.err(), Some(TreasuryError::NotAuthorized));
}

#[test]
fn test_governance_controlled_transfer() {
    let mut s = setup_treasury();

    let funder = addr(20);
    let vault = s.contract_id;
    s.token.mint(&funder, 10000);
    s.token.transfer(&funder, &vault, 10000);

    let maria = addr(31);
    let requested_amount = 1000_i128;

    s.transfer(&maria, requested_amount).unwrap();

    assert_eq!(s.token.balance(&maria), 1000);
    assert_eq!(s.token.balance(&s.contract_id), 9000);
    assert!(!s.client.locked());
}

#[test]
fn test_non_governor_cannot_transfer() {
    let mut s = setup_treasury();

    let funder = addr(20);
    let vault = s.contract_id;
    s.token.mint(&funder, 10000);
    s.token.transfer(&funder, &vault, 10000);

    let attacker = addr(66);
    let victim = addr(67);

    let result = s.client.transfer(&Auth::none(), victim, 1000, 10000);
    assert!(result.is_err());
    assert_eq!(result, Err(TreasuryError::NotAuthorized));
    let result = s.client.transfer(&Auth::single(attacker), victim, 1000, 10000);
    assert_eq!(result, Err(TreasuryError::NotAuthorized));
    assert!(!s.client.locked());
}

#[test]
fn test_shares_are_informational_only() {
    let mut s = setup_treasury();

    let alice = addr(10);
    let bob = addr(11);

    s.deposit(&alice, 1000).unwrap();
    s.deposit(&bob, 500).unwrap();

    assert_eq!(s.client.shares_of(&alice), 1000);
    assert_eq!(s.client.shares_of(&bob), 500);
    assert_eq!(s.client.total_shares(), 1500);

    let result = s.client.withdraw(alice, alice, 500);
    assert!(result.is_err());
    assert_eq!(result.err(), Some(TreasuryError::NotAuthorized));
}

#[test]
fn test_valocracy_principle_no_permanent_power() {
    let mut s = setup_treasury();

    let funder = addr(20);
    let vault = s.contract_id;
    s.token.mint(&funder, 100000);
    s.token.transfer(&funder, &vault, 100000);

    let genesis_member = addr(1);

    let result = s.client.withdraw(genesis_member, genesis_member, 1000);
    assert!(result.is_err());
    assert_eq!(result.err(), Some(TreasuryError::NotAuthorized));

    s.transfer(&genesis_member, 1000).unwrap();
    assert_eq!(s.token.balance(&genesis_member), 1000);
}

#[test]
fn deposits_add_up_and_conversion_rounds_down() {
    let mut s = setup_treasury();
    let u = addr(10);
    s.deposit(&u, 1000).unwrap();
    s.deposit(&u, 500).unwrap();
    assert_eq!(s.client.shares_of(&u), 1500);
    assert_eq!(s.client.total_shares(), 1500);

    // Conversion rounds down, and what all shares are worth never exceeds
    // what the vault holds.
    for balance in [0i128, 1, 999, 1500, 10_000, 123_457] {
        let all = s.client.preview_withdraw(1500, balance).unwrap();
        assert_eq!(all, (1500 * (balance + 1)) / 2500);
        assert!(all <= balance);
        assert!(balance - all >= 0);
        let one = s.client.preview_withdraw(1, balance).unwrap();
        assert_eq!(one, (balance + 1) / 2500);
    }
}

#[test]
fn escrow_from_funding_to_payout() {
    let mut s = setup_treasury();
    let funder = addr(20);
    let recipient = addr(21);
    s.token.mint(&funder, 10_000);

    let (lab_id, payment) =
        s.client.fund_lab(&Auth::single(funder), funder, 10_000, 1_000).unwrap();
    assert_eq!(payment, Payment::Incoming { from: funder, amount: 10_000 });
    assert_eq!(payment.delta(), 10_000);
    s.token.pay(payment);
    assert_eq!(get_restricted_reserves(&s.client.store), 10_000);
    assert_eq!(
        get_lab(&s.client.store, lab_id),
        Some(Lab {
            id: 1,
            funder,
            total_amount: 10_000,
            scholarship_per_member: 1_000,
            status: LabStatus::Active,
        })
    );
    assert_eq!(get_lab_counter(&s.client.store), 1);

    s.client.approve_scholarship(&Auth::single(s.governor), lab_id, recipient).unwrap();
    assert_eq!(s.client.get_claimable_balance(&recipient), 1_000);
    assert_eq!(s.token.balance(&s.contract_id), 10_000);
    assert_eq!(get_restricted_reserves(&s.client.store), 10_000);

    let payment =
        s.client.withdraw_scholarship(&Auth::single(recipient), recipient, 1_000).unwrap();
    assert_eq!(payment, Payment::Outgoing { to: recipient, amount: 1_000 });
    assert_eq!(payment.delta(), -1_000);
    s.token.pay(payment);
    assert_eq!(s.client.get_claimable_balance(&recipient), 0);
    assert_eq!(get_restricted_reserves(&s.client.store), 9_000);
    assert_eq!(s.token.balance(&recipient), 1_000);
    assert_eq!(s.token.balance(&s.contract_id), 9_000);
}

#[test]
fn governance_cannot_spend_what_is_committed() {
    let mut s = setup_treasury();
    let funder = addr(20);
    let vault = s.contract_id;
    s.token.mint(&funder, 10_000);
    s.token.mint(&vault, 2_000);
    s.fund_lab(&funder, 10_000, 1_000).unwrap();
    assert_eq!(s.token.balance(&vault), 12_000);
    assert_eq!(s.total_assets(), 2_000);

    assert_eq!(s.spend(&addr(30), 2_001), Err(TreasuryError::InsufficientAssets));
    assert_eq!(s.spend(&addr(30), 2_000), Ok(()));
    assert_eq!(s.token.balance(&vault), 10_000);
    assert_eq!(s.total_assets(), 0);
    assert!(get_restricted_reserves(&s.client.store) <= s.token.balance(&vault));
    assert_eq!(s.spend(&addr(30), 1), Err(TreasuryError::InsufficientAssets));
}

#[test]
fn deposit_refusals() {
    let mut s = setup_treasury();
    let user = addr(10);
    // Only the reputation ledger deposits.
    assert_eq!(
        s.client.deposit(&Auth::single(s.governor), user, 1000),
        Err(TreasuryError::NotAuthorized)
    );
    assert_eq!(
        TreasuryContract::new().deposit(&Auth::single(s.valocracy), user, 1000),
        Err(TreasuryError::NotInitialized)
    );
    assert_eq!(s.deposit(&user, -1), Err(TreasuryError::ZeroAmount));
    s.deposit(&user, i128::MAX).unwrap();
    assert_eq!(s.deposit(&user, 1), Err(TreasuryError::MathOverflow));
    assert_eq!(s.deposit(&addr(11), 1), Err(TreasuryError::MathOverflow));
    assert_eq!(s.client.shares_of(&user), i128::MAX);
    assert_eq!(s.client.shares_of(&addr(11)), 0);
    assert_eq!(s.client.total_shares(), i128::MAX);
}

#[test]
fn escrow_refusals() {
    let mut s = setup_treasury();
    let funder = addr(20);
    let student = addr(21);
    s.token.mint(&funder, 1_000_000);

    assert_eq!(
        s.client.fund_lab(&Auth::none(), funder, 100, 10),
        Err(TreasuryError::NotAuthorized)
    );
    assert_eq!(s.fund_lab(&funder, -1, 10), Err(TreasuryError::ZeroAmount));
    assert_eq!(
        TreasuryContract::new().fund_lab(&Auth::single(funder), funder, 100, 10),
        Err(TreasuryError::NotInitialized)
    );
    s.fund_lab(&funder, 100, i128::MAX).unwrap();
    assert_eq!(
        s.client.fund_lab(&Auth::single(funder), funder, i128::MAX, 10),
        Err(TreasuryError::MathOverflow)
    );
    assert_eq!(get_lab_counter(&s.client.store), 1);

    assert_eq!(
        s.client.approve_scholarship(&Auth::single(funder), 1, student),
        Err(TreasuryError::NotAuthorized)
    );
    assert_eq!(s.approve_scholarship(2, &student), Err(TreasuryError::LabNotFound));
    assert_eq!(s.approve_scholarship(0, &student), Err(TreasuryError::LabNotFound));
    s.approve_scholarship(1, &student).unwrap();
    assert_eq!(s.approve_scholarship(1, &student), Err(TreasuryError::MathOverflow));
    assert_eq!(s.client.get_claimable_balance(&student), i128::MAX);

    assert_eq!(
        s.client.withdraw_scholarship(&Auth::single(funder), student, 10),
        Err(TreasuryError::NotAuthorized)
    );
    assert_eq!(s.withdraw_scholarship(&student, 0), Err(TreasuryError::ZeroAmount));
    assert_eq!(s.withdraw_scholarship(&addr(22), 1), Err(TreasuryError::InsufficientClaimable));
}

#[test]
fn an_inactive_escrow_approves_nobody() {
    let mut s = setup_treasury();
    let funder = addr(20);
    s.token.mint(&funder, 1_000);
    s.fund_lab(&funder, 1_000, 100).unwrap();
    let lab = get_lab(&s.client.store, 1).unwrap();
    valocracy::treasury::storage::set_lab(
        &mut s.client.store,
        &Lab { status: LabStatus::Completed, ..lab },
    );
    assert_eq!(s.approve_scholarship(1, &addr(21)), Err(TreasuryError::LabNotActive));
    valocracy::treasury::storage::set_lab(
        &mut s.client.store,
        &Lab { status: LabStatus::Cancelled, ..lab },
    );
    assert_eq!(s.approve_scholarship(1, &addr(21)), Err(TreasuryError::LabNotActive));
    assert_eq!(s.client.get_claimable_balance(&addr(21)), 0);
}

#[test]
fn the_lock_is_held_until_settled() {
    let mut s = setup_treasury();
    assert!(!is_locked(&s.client.store));
    acquire_lock(&mut s.client.store);
    assert!(s.client.locked());
    assert_eq!(
        s.client.transfer(&Auth::single(s.governor), addr(30), 1, 10),
        Err(TreasuryError::ReentrancyDetected)
    );
    release_lock(&mut s.client.store);
    assert_eq!(
        s.client.transfer(&Auth::single(s.governor), addr(30), 1, 10),
        Ok(Payment::Outgoing { to: addr(30), amount: 1 })
    );
    assert!(s.client.locked());
    s.client.settle();
    assert!(!s.client.locked());
}

#[test]
fn governance_hands_the_vault_over() {
    let mut s = setup_treasury();
    let next = Address::contract(0, 33);
    assert_eq!(
        s.client.update_governor(&Auth::single(s.valocracy), next),
        Err(TreasuryError::NotAuthorized)
    );
    s.client.update_governor(&Auth::single(s.governor), next).unwrap();
    assert_eq!(s.client.governor(), Some(next));
    assert_eq!(
        s.client.transfer(&Auth::single(s.governor), addr(30), 1, 10),
        Err(TreasuryError::NotAuthorized)
    );
    assert_eq!(
        TreasuryContract::new().update_governor(&Auth::single(s.governor), next),
        Err(TreasuryError::NotInitialized)
    );
}

#[test]
fn treasury_error_codes() {
    assert_eq!(TreasuryError::AlreadyInitialized.code(), 1);
    assert_eq!(TreasuryError::NotInitialized.code(), 2);
    assert_eq!(TreasuryError::NotAuthorized.code(), 3);
    assert_eq!(TreasuryError::InsufficientShares.code(), 4);
    assert_eq!(TreasuryError::InsufficientAssets.code(), 5);
    assert_eq!(TreasuryError::ZeroAmount.code(), 6);
    assert_eq!(TreasuryError::ReentrancyDetected.code(), 7);
    assert_eq!(TreasuryError::MathOverflow.code(), 8);
    assert_eq!(TreasuryError::LabNotFound.code(), 9);
    assert_eq!(TreasuryError::LabNotActive.code(), 10);
    assert_eq!(TreasuryError::InsufficientClaimable.code(), 11);
}
