//! The reputation ledger: badges, levels and decaying voting power.

use crate::address::{Address, Auth};
use crate::valocracy::errors::ValocracyError;
use crate::valocracy::storage::{
    get_governor, get_member_valor_id, get_signer, get_token_owner, get_token_valor_id,
    get_total_supply, get_treasury, get_user_stats, get_valor, is_initialized, is_nonce_used,
    remove_token_owner, remove_token_valor_id, set_governor, set_initialized,
    set_member_valor_id, set_nonce_used, set_signer, set_token_owner, set_token_valor_id,
    set_total_supply, set_treasury, set_user_stats, set_valor, Storage,
};
use crate::valocracy::types::{UserStats, Valor};
use vstd::prelude::*;

pub mod errors;
pub mod storage;
pub mod types;
pub mod voucher;

verus! {

broadcast use vstd::std_specs::hash::group_hash_axioms;

/// The decay window: 180 days, in seconds. A grant is worth its full weight
/// when made and nothing above the floor this long after.
pub const VACANCY_PERIOD: u64 = 15_552_000;

/// The voting power that every member keeps, however long inactive.
pub const MEMBER_FLOOR: u64 = 5;

/// The level from which a member may issue track badges.
pub const LEADERSHIP_LEVEL: u64 = 10;

/// Who may issue a badge depends on the category of its type.
#[derive(Copy, Clone, Debug, PartialEq, Eq, Structural)]
pub enum BadgeCategory {
    /// Type 0: granted by self-registration only.
    Member,
    /// Type 1: granted at initialization only.
    Founder,
    /// Types 10 to 19: granted by governance.
    Leadership,
    /// Types 20 to 59: granted by governance or by a member of leadership level.
    Track,
    /// Types 60 to 69: granted by any member.
    Community,
    /// Types 70 to 79: granted by governance.
    Governance,
}

/// What a successful grant asks of the vault: `shares` for `receiver`.
#[derive(Copy, Clone, Debug, PartialEq, Eq, Structural)]
pub struct ShareGrant {
    /// The vault to credit.
    pub treasury: Address,
    /// The account that receives the shares.
    pub receiver: Address,
    /// The number of shares: the rarity of the badge granted.
    pub shares: i128,
}

/// The outcome of a grant.
#[derive(Copy, Clone, Debug, PartialEq, Eq, Structural)]
pub struct Minted {
    /// The id of the new badge.
    pub token_id: u64,
    /// The deposit to make at the vault, if any.
    pub deposit: Option<ShareGrant>,
}

/// The part of a level that decays.
pub open spec fn spec_extra_level(level: u64) -> int {
    if level >= MEMBER_FLOOR {
        level - MEMBER_FLOOR
    } else {
        0
    }
}

/// Voting power of a member record at time `at`.
///
/// Nothing for level zero. From the expiry on, the larger of the permanent
/// level and the floor. Before it, the floor plus the decaying part of the
/// level, scaled by the share of the decay window that is left, rounded down.
pub open spec fn spec_mana(level: u64, permanent_level: u64, expiry: u64, at: u64) -> int {
    if level == 0 {
        0
    } else if at >= expiry {
        if permanent_level > MEMBER_FLOOR {
            permanent_level as int
        } else {
            MEMBER_FLOOR as int
        }
    } else {
        MEMBER_FLOOR + (spec_extra_level(level) * (expiry - at)) / (VACANCY_PERIOD as int)
    }
}

/// Whether `valor_id` lies in one of the badge categories.
pub open spec fn spec_valid_badge_id(valor_id: u64) -> bool {
    valor_id <= 1 || (10 <= valor_id && valor_id <= 79)
}

/// The category of a valid badge type id.
pub open spec fn spec_badge_category(valor_id: u64) -> BadgeCategory {
    if valor_id == 0 {
        BadgeCategory::Member
    } else if valor_id == 1 {
        BadgeCategory::Founder
    } else if valor_id <= 19 {
        BadgeCategory::Leadership
    } else if valor_id <= 59 {
        BadgeCategory::Track
    } else if valor_id <= 69 {
        BadgeCategory::Community
    } else {
        BadgeCategory::Governance
    }
}

/// A member's voting power never falls below the floor.
pub proof fn lemma_mana_at_least_floor(level: u64, permanent_level: u64, expiry: u64, at: u64)
    requires
        level > 0,
    ensures
        spec_mana(level, permanent_level, expiry, at) >= MEMBER_FLOOR,
{
    if at < expiry {
        let x = spec_extra_level(level);
        let d = expiry - at;
        assert(x * d >= 0) by (nonlinear_arith)
            requires
                x >= 0,
                d >= 0,
        ;
        assert((x * d) / 15_552_000 >= 0) by (nonlinear_arith)
            requires
                x * d >= 0,
        ;
    }
}

/// Without a grant in between, voting power does not grow with time.
///
/// The one exception is a record whose permanent level exceeds the power it
/// had just before the expiry: there the power steps up to the permanent level
/// at the expiry, so such a pair of times is left out.
pub proof fn lemma_mana_non_increasing(
    level: u64,
    permanent_level: u64,
    expiry: u64,
    t1: u64,
    t2: u64,
)
    requires
        t1 < t2,
        level > 0 && t1 < expiry && expiry <= t2 ==> permanent_level <= spec_mana(
            level,
            permanent_level,
            expiry,
            t1,
        ),
    ensures
        spec_mana(level, permanent_level, expiry, t2) <= spec_mana(
            level,
            permanent_level,
            expiry,
            t1,
        ),
{
    if level > 0 {
        if t2 < expiry {
            let x = spec_extra_level(level);
            let d1 = expiry - t1;
            let d2 = expiry - t2;
            assert(x * d2 <= x * d1) by (nonlinear_arith)
                requires
                    x >= 0,
                    d2 <= d1,
            ;
            assert((x * d2) / 15_552_000 <= (x * d1) / 15_552_000) by (nonlinear_arith)
                requires
                    x * d2 <= x * d1,
            ;
        } else if t1 < expiry {
            lemma_mana_at_least_floor(level, permanent_level, expiry, t1);
        }
    }
}

/// At the time of a grant the power equals the level, and at the expiry it
/// has come down to the floor.
pub proof fn lemma_mana_endpoints(level: u64, granted_at: u64)
    requires
        level >= MEMBER_FLOOR,
        granted_at + VACANCY_PERIOD <= u64::MAX,
    ensures
        spec_mana(level, 0, (granted_at + VACANCY_PERIOD) as u64, granted_at) == level,
        spec_mana(
            level,
            0,
            (granted_at + VACANCY_PERIOD) as u64,
            (granted_at + VACANCY_PERIOD) as u64,
        ) == MEMBER_FLOOR,
{
    let x = spec_extra_level(level);
    assert((x * 15_552_000) / 15_552_000 == x) by (nonlinear_arith);
}

/// The ledger: badge types, badges and member records.
#[derive(Clone, Debug)]
pub struct ValocracyContract {
    pub store: Storage,
}

impl ValocracyContract {
    /// Voting power of a member record at `current_time`, in double width:
    /// the product of the decaying part of the level and the time left does
    /// not fit the width of its factors.
    fn wide_mana(level: u64, permanent_level: u64, expiry: u64, current_time: u64) -> (r: u128)
        ensures
            r == spec_mana(level, permanent_level, expiry, current_time),
            level > 0 ==> r >= MEMBER_FLOOR,
    {
        if level == 0 {
            return 0;
        }

        let floor = MEMBER_FLOOR;
        if current_time >= expiry {
            return if permanent_level > floor {
                permanent_level as u128
            } else {
                floor as u128
            };
        }

        let extra_level: u64 = level.saturating_sub(floor);

        let time_remaining: u64 = expiry - current_time;
        proof {
            lemma_mana_at_least_floor(level, permanent_level, expiry, current_time);
            assert(extra_level * time_remaining <= 0xffff_ffff_ffff_ffff * 0xffff_ffff_ffff_ffff)
                by (nonlinear_arith)
                requires
                    0 <= extra_level <= 0xffff_ffff_ffff_ffff,
                    0 <= time_remaining <= 0xffff_ffff_ffff_ffff,
            ;
        }
        let bonus: u128 = ((extra_level as u128) * (time_remaining as u128)) / (
        VACANCY_PERIOD as u128);

        (floor as u128) + bonus
    }

    /// Voting power of a member record at `current_time`, or `None` where it
    /// exceeds the range of `u64`.
    pub fn checked_calculate_mana(
        level: u64,
        permanent_level: u64,
        expiry: u64,
        current_time: u64,
    ) -> (r: Option<u64>)
        ensures
            r == (if spec_mana(level, permanent_level, expiry, current_time) <= u64::MAX {
                Some(spec_mana(level, permanent_level, expiry, current_time) as u64)
            } else {
                None
            }),
    {
        let mana = Self::wide_mana(level, permanent_level, expiry, current_time);
        if mana > u64::MAX as u128 {
            None
        } else {
            Some(mana as u64)
        }
    }

    /// Voting power of a member record at `current_time`.
    ///
    /// Equal to the level at the time of a grant; from there it comes down in
    /// a straight line to the floor at the expiry; a member's power is never
    /// under the floor.
    pub fn calculate_mana(level: u64, permanent_level: u64, expiry: u64, current_time: u64) -> (r:
        u64)
        requires
            spec_mana(level, permanent_level, expiry, current_time) <= u64::MAX,
        ensures
            r == spec_mana(level, permanent_level, expiry, current_time),
            level > 0 ==> r >= MEMBER_FLOOR,
    {
        Self::wide_mana(level, permanent_level, expiry, current_time) as u64
    }

    /// The category of a badge type id.
    pub fn get_badge_category(valor_id: u64) -> (r: BadgeCategory)
        requires
            spec_valid_badge_id(valor_id),
        ensures
            r == spec_badge_category(valor_id),
    {
        if valor_id == 0 {
            BadgeCategory::Member
        } else if valor_id == 1 {
            BadgeCategory::Founder
        } else if valor_id <= 19 {
            BadgeCategory::Leadership
        } else if valor_id <= 59 {
            BadgeCategory::Track
        } else if valor_id <= 69 {
            BadgeCategory::Community
        } else {
            BadgeCategory::Governance
        }
    }

    /// Accepts the badge type ids that lie in a category.
    pub fn validate_badge_id(valor_id: u64) -> (r: Result<(), ValocracyError>)
        ensures
            r == (if spec_valid_badge_id(valor_id) {
                Ok::<(), ValocracyError>(())
            } else {
                Err(ValocracyError::InvalidValorId)
            }),
    {
        if valor_id <= 1 {
            return Ok(());
        }
        if 10 <= valor_id && valor_id <= 79 {
            return Ok(());
        }
        Err(ValocracyError::InvalidValorId)
    }
}

/// The record that a grant of `rarity` at time `now` leaves behind.
pub open spec fn spec_granted(current: Option<UserStats>, rarity: u64, now: u64) -> UserStats {
    UserStats {
        level: ((match current {
            Some(s) => s.level,
            None => 0,
        }) + rarity) as u64,
        permanent_level: match current {
            Some(s) => s.permanent_level,
            None => 0,
        },
        expiry: (now + VACANCY_PERIOD) as u64,
        verified: match current {
            Some(s) => s.verified,
            None => false,
        },
    }
}

/// The record that revoking a badge of `rarity` leaves behind.
pub open spec fn spec_revoked(current: UserStats, rarity: u64) -> UserStats {
    UserStats {
        level: if current.level >= rarity {
            (current.level - rarity) as u64
        } else {
            0
        },
        permanent_level: if current.permanent_level >= rarity {
            (current.permanent_level - rarity) as u64
        } else {
            0
        },
        expiry: current.expiry,
        verified: current.verified,
    }
}

/// The deposit that a grant of `rarity` to `account` asks of the vault.
pub open spec fn spec_share_grant(treasury: Option<Address>, account: Address, rarity: u64)
    -> Option<ShareGrant> {
    match treasury {
        Some(t) => if rarity > 0 {
            Some(ShareGrant { treasury: t, receiver: account, shares: rarity as i128 })
        } else {
            None
        },
        None => None,
    }
}

/// `post` is `pre` after a badge of type `valor_id` and weight `rarity` was
/// granted to `account` at time `now`.
pub open spec fn spec_grant_applied(
    pre: Storage,
    post: Storage,
    account: Address,
    valor_id: u64,
    rarity: u64,
    now: u64,
) -> bool {
    let token_id = (pre.total_supply + 1) as u64;
    &&& post == (Storage {
        user_stats: post.user_stats,
        total_supply: token_id,
        token_valor_ids: post.token_valor_ids,
        token_owners: post.token_owners,
        ..pre
    })
    &&& post.user_stats.wf()
    &&& post.user_stats@ == pre.user_stats@.insert(
        account,
        spec_granted(pre.stats(account), rarity, now),
    )
    &&& post.token_valor_ids@ == pre.token_valor_ids@.insert(token_id, valor_id)
    &&& post.token_owners@ == pre.token_owners@.insert(token_id, account)
}

/// The weight of badge type `valor_id` among `valors`, if it is registered.
pub open spec fn spec_rarity_in(valors: Map<u64, Valor>, valor_id: u64) -> Option<u64> {
    if valors.contains_key(valor_id) {
        Some(valors[valor_id].rarity)
    } else {
        None
    }
}

/// The badge types after those listed in `ids` were registered in order, the
/// first `n` of them.
pub open spec fn spec_registered(
    valors: Map<u64, Valor>,
    ids: Seq<u64>,
    rarities: Seq<u64>,
    metadatas: Seq<String>,
    n: int,
) -> Map<u64, Valor>
    decreases n,
{
    if n <= 0 {
        valors
    } else {
        spec_registered(valors, ids, rarities, metadatas, n - 1).insert(
            ids[n - 1],
            Valor { rarity: rarities[n - 1], metadata: metadatas[n - 1] },
        )
    }
}

/// The member records after each of `members` was given `record`.
pub open spec fn spec_enrolled(
    stats: Map<Address, UserStats>,
    members: Seq<Address>,
    record: UserStats,
) -> Map<Address, UserStats> {
    Map::new(
        |a: Address| stats.contains_key(a) || members.contains(a),
        |a: Address|
            if members.contains(a) {
                record
            } else {
                stats[a]
            },
    )
}

/// The badge owners after badges 1 to `n` went to the first `n` of `members`.
pub open spec fn spec_issued_owners(owners: Map<u64, Address>, members: Seq<Address>, n: int)
    -> Map<u64, Address> {
    Map::new(
        |id: u64| owners.contains_key(id) || (1 <= id && id <= n),
        |id: u64|
            if 1 <= id && id <= n {
                members[id - 1]
            } else {
                owners[id]
            },
    )
}

/// The badge types of the badges after badges 1 to `n` were issued with type
/// `valor_id`.
pub open spec fn spec_issued_valor_ids(ids: Map<u64, u64>, valor_id: u64, n: int) -> Map<
    u64,
    u64,
> {
    Map::new(
        |id: u64| ids.contains_key(id) || (1 <= id && id <= n),
        |id: u64|
            if 1 <= id && id <= n {
                valor_id
            } else {
                ids[id]
            },
    )
}

impl ValocracyContract {
    /// The member table is well-formed, and where there is a member a badge
    /// has been issued.
    pub open spec fn inv(&self) -> bool {
        &&& self.store.user_stats.wf()
        &&& self.store.user_stats.keys().len() > 0 ==> self.store.total_supply >= 1
    }

    /// Accumulated level of `account`; zero without a record.
    pub open spec fn spec_level_of(&self, account: Address) -> u64 {
        match self.store.stats(account) {
            Some(s) => s.level,
            None => 0,
        }
    }

    /// Weight of badge type `valor_id`; zero where it is not registered.
    pub open spec fn spec_rarity_of(&self, valor_id: u64) -> u64 {
        match self.store.valor(valor_id) {
            Some(v) => v.rarity,
            None => 0,
        }
    }

    /// Voting power of `account` at time `at`; zero without a record.
    pub open spec fn spec_votes_at(&self, account: Address, at: u64) -> int {
        match self.store.stats(account) {
            Some(s) => spec_mana(s.level, s.permanent_level, s.expiry, at),
            None => 0,
        }
    }

    /// The floor times the number of badges issued: a lower bound of the
    /// total voting power that is cheap to compute.
    pub open spec fn spec_total_mana(&self) -> int {
        self.store.total_supply * MEMBER_FLOOR
    }

    /// Whether `minter` may issue a badge of the valid type `valor_id`.
    pub open spec fn spec_mint_authorization(&self, minter: Address, valor_id: u64) -> Result<
        (),
        ValocracyError,
    > {
        match self.store.governor {
            None => Err(ValocracyError::NotInitialized),
            Some(governor) => match spec_badge_category(valor_id) {
                BadgeCategory::Member => Err(ValocracyError::BadgeNotMintable),
                BadgeCategory::Founder => Err(ValocracyError::BadgeNotMintable),
                BadgeCategory::Governance | BadgeCategory::Leadership => if minter == governor {
                    Ok(())
                } else {
                    Err(ValocracyError::MintNotAuthorized)
                },
                BadgeCategory::Track => if minter == governor || self.spec_level_of(minter)
                    >= LEADERSHIP_LEVEL {
                    Ok(())
                } else {
                    Err(ValocracyError::MintNotAuthorized)
                },
                BadgeCategory::Community => if self.spec_level_of(minter) > 0 {
                    Ok(())
                } else {
                    Err(ValocracyError::MintNotAuthorized)
                },
            },
        }
    }

    /// The weight of the badge that a grant of type `valor_id` would add, or
    /// why there can be no such grant.
    pub open spec fn spec_grant_check(&self, valor_id: u64) -> Result<u64, ValocracyError> {
        if !spec_valid_badge_id(valor_id) {
            Err(ValocracyError::InvalidValorId)
        } else {
            match self.store.valor(valor_id) {
                None => Err(ValocracyError::NonExistentValor),
                Some(v) => Ok(v.rarity),
            }
        }
    }

    /// Whether a voucher of `account` with `nonce` and `expiry` is good at
    /// time `now`, given whether its signature verified.
    pub open spec fn spec_voucher_check(
        &self,
        signature_valid: bool,
        account: Address,
        nonce: u64,
        expiry: u64,
        now: u64,
    ) -> Result<(), ValocracyError> {
        if self.store.signer is None {
            Err(ValocracyError::NotInitialized)
        } else if now > expiry {
            Err(ValocracyError::SignatureExpired)
        } else if self.store.nonce_used(account, nonce) {
            Err(ValocracyError::NonceUsed)
        } else if !signature_valid {
            Err(ValocracyError::InvalidSignature)
        } else {
            Ok(())
        }
    }

    /// The level, the expiry and the badge id of a grant fit their types.
    pub open spec fn spec_grant_fits(&self, account: Address, valor_id: u64, now: u64) -> bool {
        &&& now + VACANCY_PERIOD <= u64::MAX
        &&& self.store.total_supply < u64::MAX
        &&& self.spec_level_of(account) + self.spec_rarity_of(valor_id) <= u64::MAX
    }

    /// The outcome of a mint call: the weight of the badge, or the first
    /// reason against it.
    pub open spec fn spec_mint_check(&self, auth: Auth, minter: Address, valor_id: u64) -> Result<
        u64,
        ValocracyError,
    > {
        if !auth.has(minter) {
            Err(ValocracyError::NotAuthorized)
        } else if !spec_valid_badge_id(valor_id) {
            Err(ValocracyError::InvalidValorId)
        } else {
            match self.spec_mint_authorization(minter, valor_id) {
                Err(e) => Err(e),
                Ok(_) => self.spec_grant_check(valor_id),
            }
        }
    }

    /// The outcome of a self-registration: the member badge type and its
    /// weight, or the first reason against it.
    pub open spec fn spec_self_register_check(
        &self,
        auth: Auth,
        caller: Address,
        signature_valid: bool,
        nonce: u64,
        expiry: u64,
        now: u64,
    ) -> Result<(u64, u64), ValocracyError> {
        if !auth.has(caller) {
            Err(ValocracyError::NotAuthorized)
        } else if !self.store.initialized {
            Err(ValocracyError::NotInitialized)
        } else {
            match self.spec_voucher_check(signature_valid, caller, nonce, expiry, now) {
                Err(e) => Err(e),
                Ok(_) => if self.store.stats(caller) is Some {
                    Err(ValocracyError::AlreadyRegistered)
                } else {
                    match self.store.member_valor_id {
                        None => Err(ValocracyError::NotInitialized),
                        Some(valor_id) => match self.spec_grant_check(valor_id) {
                            Err(e) => Err(e),
                            Ok(rarity) => Ok((valor_id, rarity)),
                        },
                    }
                },
            }
        }
    }

    /// The outcome of a mint under a voucher: the weight of the badge, or the
    /// first reason against it.
    pub open spec fn spec_guardian_mint_check(
        &self,
        auth: Auth,
        account: Address,
        valor_id: u64,
        signature_valid: bool,
        nonce: u64,
        expiry: u64,
        now: u64,
    ) -> Result<u64, ValocracyError> {
        if !auth.has(account) {
            Err(ValocracyError::NotAuthorized)
        } else if !self.store.initialized {
            Err(ValocracyError::NotInitialized)
        } else {
            match self.spec_voucher_check(signature_valid, account, nonce, expiry, now) {
                Err(e) => Err(e),
                Ok(_) => self.spec_grant_check(valor_id),
            }
        }
    }

    /// The outcome of revoking badge `token_id`: its owner and weight, or the
    /// first reason against it.
    pub open spec fn spec_revoke_check(&self, auth: Auth, token_id: u64) -> Result<
        (Address, u64),
        ValocracyError,
    > {
        match self.store.governor {
            None => Err(ValocracyError::NotInitialized),
            Some(governor) => if !auth.has(governor) {
                Err(ValocracyError::NotAuthorized)
            } else {
                match (self.store.token_owner(token_id), self.store.token_valor_id(token_id)) {
                    (Some(owner), Some(valor_id)) => match self.store.valor(valor_id) {
                        None => Err(ValocracyError::NonExistentValor),
                        Some(valor) => if self.store.stats(owner) is None {
                            Err(ValocracyError::NonExistentAccount)
                        } else {
                            Ok((owner, valor.rarity))
                        },
                    },
                    _ => Err(ValocracyError::NonExistentToken),
                }
            },
        }
    }

    /// Whether the governance principal is set and authorized the call.
    pub open spec fn spec_governor_check(&self, auth: Auth) -> Result<(), ValocracyError> {
        match self.store.governor {
            None => Err(ValocracyError::NotInitialized),
            Some(governor) => if auth.has(governor) {
                Ok(())
            } else {
                Err(ValocracyError::NotAuthorized)
            },
        }
    }

    /// What stands against an initialization before any badge type is looked
    /// at.
    pub open spec fn spec_initialize_check(&self, auth: Auth, genesis_members: Seq<Address>)
        -> Result<(), ValocracyError> {
        if self.store.initialized {
            Err(ValocracyError::AlreadyInitialized)
        } else if genesis_members.len() == 0 {
            Err(ValocracyError::NotAuthorized)
        } else if !auth.has(genesis_members[0]) {
            Err(ValocracyError::NotAuthorized)
        } else {
            Ok(())
        }
    }

    /// A ledger that has not been initialized.
    pub fn new() -> (r: ValocracyContract)
        ensures
            r.inv(),
            !r.store.initialized,
            r.store.governor is None,
            r.store.treasury is None,
            r.store.signer is None,
            r.store.member_valor_id is None,
            r.store.total_supply == 0,
            r.store.user_stats@ == Map::<Address, UserStats>::empty(),
            r.store.valors@ == Map::<u64, Valor>::empty(),
            r.store.token_owners@ == Map::<u64, Address>::empty(),
            r.store.token_valor_ids@ == Map::<u64, u64>::empty(),
            r.store.used_nonces@.len() == 0,
    {
        ValocracyContract { store: Storage::new() }
    }

    /// The weight that badge type `valor_id` has once the listed types are
    /// registered.
    fn registered_rarity(
        &self,
        valor_ids: &Vec<u64>,
        valor_rarities: &Vec<u64>,
        valor_metadatas: &Vec<String>,
        valor_id: u64,
    ) -> (r: Option<u64>)
        requires
            valor_rarities@.len() >= valor_ids@.len(),
            valor_metadatas@.len() >= valor_ids@.len(),
        ensures
            r == spec_rarity_in(
                spec_registered(
                    self.store.valors@,
                    valor_ids@,
                    valor_rarities@,
                    valor_metadatas@,
                    valor_ids@.len() as int,
                ),
                valor_id,
            ),
    {
        let mut found: Option<u64> = match self.store.valors.get(&valor_id) {
            Some(v) => Some(v.rarity),
            None => None,
        };
        let mut i: usize = 0;
        while i < valor_ids.len()
            invariant
                i <= valor_ids@.len(),
                valor_rarities@.len() >= valor_ids@.len(),
                valor_metadatas@.len() >= valor_ids@.len(),
                found == spec_rarity_in(
                    spec_registered(
                        self.store.valors@,
                        valor_ids@,
                        valor_rarities@,
                        valor_metadatas@,
                        i as int,
                    ),
                    valor_id,
                ),
            decreases valor_ids@.len() - i,
        {
            if valor_ids[i] == valor_id {
                found = Some(valor_rarities[i]);
            }
            i += 1;
        }
        found
    }

    /// Sets the ledger up: the principals, the signing key, the badge types,
    /// and one leadership badge for each genesis member.
    ///
    /// The first genesis member must have authorized the call. Genesis badges
    /// decay like any other: no level is permanent.
    pub fn initialize(
        &mut self,
        auth: &Auth,
        genesis_members: Vec<Address>,
        governor: Address,
        treasury: Address,
        member_valor_id: u64,
        valor_ids: Vec<u64>,
        valor_rarities: Vec<u64>,
        valor_metadatas: Vec<String>,
        leadership_valor_id: u64,
        signer: [u8; 32],
        now: u64,
    ) -> (r: Result<(), ValocracyError>)
        requires
            old(self).spec_initialize_check(*auth, genesis_members@) is Ok ==> {
                &&& valor_rarities@.len() >= valor_ids@.len()
                &&& valor_metadatas@.len() >= valor_ids@.len()
                &&& now + VACANCY_PERIOD <= u64::MAX
            },
        ensures
            old(self).inv() ==> final(self).inv(),
            match r {
                Ok(_) => {
                    let pre = old(self).store;
                    let post = final(self).store;
                    let valors = spec_registered(
                        pre.valors@,
                        valor_ids@,
                        valor_rarities@,
                        valor_metadatas@,
                        valor_ids@.len() as int,
                    );
                    &&& old(self).spec_initialize_check(*auth, genesis_members@) is Ok
                    &&& spec_rarity_in(valors, leadership_valor_id) matches Some(rarity)
                    &&& post.initialized
                    &&& post.governor == Some(governor)
                    &&& post.treasury == Some(treasury)
                    &&& post.signer == Some(signer)
                    &&& post.member_valor_id == Some(member_valor_id)
                    &&& post.name@ == "Valocracy"@
                    &&& post.symbol@ == "VALOR"@
                    &&& post.admin == pre.admin
                    &&& post.founder == pre.founder
                    &&& post.used_nonces == pre.used_nonces
                    &&& post.total_supply == genesis_members@.len()
                    &&& post.valors@ == valors
                    &&& post.user_stats@ == spec_enrolled(
                        pre.user_stats@,
                        genesis_members@,
                        UserStats {
                            level: rarity,
                            permanent_level: 0,
                            expiry: (now + VACANCY_PERIOD) as u64,
                            verified: false,
                        },
                    )
                    &&& post.token_owners@ == spec_issued_owners(
                        pre.token_owners@,
                        genesis_members@,
                        genesis_members@.len() as int,
                    )
                    &&& post.token_valor_ids@ == spec_issued_valor_ids(
                        pre.token_valor_ids@,
                        leadership_valor_id,
                        genesis_members@.len() as int,
                    )
                },
                Err(e) => {
                    &&& *final(self) == *old(self)
                    &&& match old(self).spec_initialize_check(*auth, genesis_members@) {
                        Err(c) => e == c,
                        Ok(_) => e == ValocracyError::NonExistentValor && spec_rarity_in(
                            spec_registered(
                                old(self).store.valors@,
                                valor_ids@,
                                valor_rarities@,
                                valor_metadatas@,
                                valor_ids@.len() as int,
                            ),
                            leadership_valor_id,
                        ) is None,
                    }
                },
            },
    {
        if is_initialized(&self.store) {
            return Err(ValocracyError::AlreadyInitialized);
        }
        if genesis_members.len() == 0 {
            return Err(ValocracyError::NotAuthorized);
        }
        if !auth.require_auth(&genesis_members[0]) {
            return Err(ValocracyError::NotAuthorized);
        }
        let leadership_rarity = match self.registered_rarity(
            &valor_ids,
            &valor_rarities,
            &valor_metadatas,
            leadership_valor_id,
        ) {
            Some(rarity) => rarity,
            None => {
                return Err(ValocracyError::NonExistentValor);
            },
        };

        set_initialized(&mut self.store);
        set_governor(&mut self.store, &governor);
        set_treasury(&mut self.store, &treasury);
        set_signer(&mut self.store, &signer);
        set_member_valor_id(&mut self.store, member_valor_id);
        self.store.name = "Valocracy".to_owned();
        self.store.symbol = "VALOR".to_owned();
        set_total_supply(&mut self.store, 0);

        let ghost pre = old(self).store;
        let ghost base = self.store;
        let count = valor_ids.len();
        let mut i: usize = 0;
        while i < count
            invariant
                i <= count,
                count == valor_ids@.len(),
                valor_rarities@.len() >= valor_ids@.len(),
                valor_metadatas@.len() >= valor_ids@.len(),
                self.store == (Storage { valors: self.store.valors, ..base }),
                self.store.valors@ == spec_registered(
                    pre.valors@,
                    valor_ids@,
                    valor_rarities@,
                    valor_metadatas@,
                    i as int,
                ),
            decreases count - i,
        {
            let valor = Valor {
                rarity: valor_rarities[i],
                metadata: valor_metadatas[i].clone(),
            };
            set_valor(&mut self.store, valor_ids[i], &valor);
            i += 1;
        }

        let expiry = now + VACANCY_PERIOD;
        let member_stats = UserStats {
            level: leadership_rarity,
            permanent_level: 0,
            expiry,
            verified: false,
        };
        let ghost mid = self.store;
        let _ = self.store.user_stats.len();
        let n = genesis_members.len();
        let mut k: usize = 0;
        while k < n
            invariant
                k <= n,
                n == genesis_members@.len(),
                self.store.user_stats.wf(),
                k > 0 ==> self.store.user_stats.keys().len() > 0,
                mid.user_stats == pre.user_stats,
                mid.token_owners == pre.token_owners,
                mid.token_valor_ids == pre.token_valor_ids,
                self.store == (Storage {
                    user_stats: self.store.user_stats,
                    token_owners: self.store.token_owners,
                    token_valor_ids: self.store.token_valor_ids,
                    ..mid
                }),
                self.store.user_stats@ == spec_enrolled(
                    pre.user_stats@,
                    genesis_members@.take(k as int),
                    member_stats,
                ),
                self.store.token_owners@ == spec_issued_owners(
                    pre.token_owners@,
                    genesis_members@,
                    k as int,
                ),
                self.store.token_valor_ids@ == spec_issued_valor_ids(
                    pre.token_valor_ids@,
                    leadership_valor_id,
                    k as int,
                ),
            decreases n - k,
        {
            let member = genesis_members[k];
            let current_token_id: u64 = (k as u64) + 1;
            let ghost before = self.store;
            set_user_stats(&mut self.store, &member, &member_stats);
            set_token_valor_id(&mut self.store, current_token_id, leadership_valor_id);
            set_token_owner(&mut self.store, current_token_id, &member);
            proof {
                let done = genesis_members@.take(k as int);
                let next = genesis_members@.take(k as int + 1);
                assert(next =~= done.push(member));
                assert forall|a: Address| next.contains(a) <==> done.contains(a) || a
                    == member by {
                    if next.contains(a) {
                        let j = choose|j: int| 0 <= j < next.len() && next[j] == a;
                        if j < done.len() {
                            assert(done[j] == a);
                        }
                    }
                    if done.contains(a) {
                        let j = choose|j: int| 0 <= j < done.len() && done[j] == a;
                        assert(next[j] == a);
                    }
                    assert(next[k as int] == member);
                }
                assert(self.store.user_stats@ =~= spec_enrolled(
                    pre.user_stats@,
                    next,
                    member_stats,
                ));
                assert(self.store.token_owners@ =~= spec_issued_owners(
                    pre.token_owners@,
                    genesis_members@,
                    k as int + 1,
                ));
                assert(self.store.token_valor_ids@ =~= spec_issued_valor_ids(
                    pre.token_valor_ids@,
                    leadership_valor_id,
                    k as int + 1,
                ));
            }
            k += 1;
        }
        proof {
            assert(genesis_members@.take(n as int) =~= genesis_members@);
        }
        set_total_supply(&mut self.store, n as u64);
        Ok(())
    }

    /// Requires the governance principal's authorization.
    fn require_governor(&self, auth: &Auth) -> (r: Result<(), ValocracyError>)
        ensures
            r == self.spec_governor_check(*auth),
    {
        match get_governor(&self.store) {
            None => Err(ValocracyError::NotInitialized),
            Some(governor) => if auth.require_auth(&governor) {
                Ok(())
            } else {
                Err(ValocracyError::NotAuthorized)
            },
        }
    }

    /// Decides whether `minter` may issue a badge of type `valor_id`, by the
    /// category of the type.
    pub fn check_mint_authorization(&self, minter: &Address, valor_id: u64) -> (r: Result<
        (),
        ValocracyError,
    >)
        requires
            spec_valid_badge_id(valor_id),
        ensures
            r == self.spec_mint_authorization(*minter, valor_id),
    {
        let category = Self::get_badge_category(valor_id);
        let governor = match get_governor(&self.store) {
            Some(g) => g,
            None => {
                return Err(ValocracyError::NotInitialized);
            },
        };
        match category {
            BadgeCategory::Member => {
                return Err(ValocracyError::BadgeNotMintable);
            },
            BadgeCategory::Founder => {
                return Err(ValocracyError::BadgeNotMintable);
            },
            BadgeCategory::Governance | BadgeCategory::Leadership => {
                if *minter != governor {
                    return Err(ValocracyError::MintNotAuthorized);
                }
            },
            BadgeCategory::Track => {
                if *minter != governor {
                    let has_leadership = match get_user_stats(&self.store, minter) {
                        Some(s) => s.level >= LEADERSHIP_LEVEL,
                        None => false,
                    };
                    if !has_leadership {
                        return Err(ValocracyError::MintNotAuthorized);
                    }
                }
            },
            BadgeCategory::Community => {
                let is_member = match get_user_stats(&self.store, minter) {
                    Some(s) => s.level > 0,
                    None => false,
                };
                if !is_member {
                    return Err(ValocracyError::MintNotAuthorized);
                }
            },
        }
        Ok(())
    }

    /// Accepts initialized ledgers and callers with a level above zero.
    pub fn require_member(&self, caller: &Address) -> (r: Result<(), ValocracyError>)
        ensures
            r == (if !self.store.initialized {
                Err::<(), ValocracyError>(ValocracyError::NotInitialized)
            } else if self.spec_level_of(*caller) == 0 {
                Err(ValocracyError::NotAuthorized)
            } else {
                Ok(())
            }),
    {
        if !is_initialized(&self.store) {
            return Err(ValocracyError::NotInitialized);
        }
        let level = match get_user_stats(&self.store, caller) {
            Some(s) => s.level,
            None => 0,
        };
        if level == 0 {
            return Err(ValocracyError::NotAuthorized);
        }
        Ok(())
    }

    /// Checks a voucher: the signing key is set, the voucher has not expired,
    /// its nonce is fresh and its signature verified. The nonce is not marked
    /// here; the operation that redeems the voucher marks it.
    pub fn verify_signature(
        &self,
        signature_valid: bool,
        account: &Address,
        nonce: u64,
        expiry: u64,
        now: u64,
    ) -> (r: Result<(), ValocracyError>)
        ensures
            r == self.spec_voucher_check(signature_valid, *account, nonce, expiry, now),
    {
        if get_signer(&self.store).is_none() {
            return Err(ValocracyError::NotInitialized);
        }
        if now > expiry {
            return Err(ValocracyError::SignatureExpired);
        }
        if is_nonce_used(&self.store, account, nonce) {
            return Err(ValocracyError::NonceUsed);
        }
        if !signature_valid {
            return Err(ValocracyError::InvalidSignature);
        }
        Ok(())
    }

    /// Looks up the weight of the badge that a grant of type `valor_id` adds.
    fn check_grant(&self, valor_id: u64) -> (r: Result<u64, ValocracyError>)
        ensures
            r == self.spec_grant_check(valor_id),
            r is Ok ==> r->Ok_0 == self.spec_rarity_of(valor_id),
    {
        match Self::validate_badge_id(valor_id) {
            Err(e) => {
                return Err(e);
            },
            Ok(_) => {},
        }
        match self.store.valors.get(&valor_id) {
            None => Err(ValocracyError::NonExistentValor),
            Some(v) => Ok(v.rarity),
        }
    }

    /// Records a grant of weight `rarity` and type `valor_id` to `account`.
    fn apply_grant(&mut self, account: &Address, valor_id: u64, rarity: u64, now: u64) -> (m:
        Minted)
        requires
            now + VACANCY_PERIOD <= u64::MAX,
            old(self).store.total_supply < u64::MAX,
            old(self).spec_level_of(*account) + rarity <= u64::MAX,
        ensures
            old(self).inv() ==> final(self).inv(),
            spec_grant_applied(
                old(self).store,
                final(self).store,
                *account,
                valor_id,
                rarity,
                now,
            ),
            m.token_id == old(self).store.total_supply + 1,
            m.deposit == spec_share_grant(old(self).store.treasury, *account, rarity),
    {
        let current_stats = get_user_stats(&self.store, account);
        let current_level = match current_stats {
            Some(s) => s.level,
            None => 0,
        };
        let current_permanent = match current_stats {
            Some(s) => s.permanent_level,
            None => 0,
        };
        let current_verified = match current_stats {
            Some(s) => s.verified,
            None => false,
        };
        let new_stats = UserStats {
            level: current_level + rarity,
            permanent_level: current_permanent,
            expiry: now + VACANCY_PERIOD,
            verified: current_verified,
        };
        set_user_stats(&mut self.store, account, &new_stats);

        let total_supply = get_total_supply(&self.store);
        let token_id = total_supply + 1;
        set_total_supply(&mut self.store, token_id);
        set_token_valor_id(&mut self.store, token_id, valor_id);
        set_token_owner(&mut self.store, token_id, account);

        let deposit = match get_treasury(&self.store) {
            Some(treasury) => if rarity > 0 {
                Some(ShareGrant { treasury, receiver: *account, shares: rarity as i128 })
            } else {
                None
            },
            None => None,
        };
        Minted { token_id, deposit }
    }

    /// Grants a badge of type `valor_id` to `account`.
    fn mint_internal(&mut self, account: &Address, valor_id: u64, now: u64) -> (r: Result<
        Minted,
        ValocracyError,
    >)
        requires
            old(self).spec_grant_check(valor_id) is Ok ==> old(self).spec_grant_fits(
                *account,
                valor_id,
                now,
            ),
        ensures
            old(self).inv() ==> final(self).inv(),
            match r {
                Ok(m) => old(self).spec_grant_check(valor_id) is Ok && spec_grant_applied(
                    old(self).store,
                    final(self).store,
                    *account,
                    valor_id,
                    old(self).spec_rarity_of(valor_id),
                    now,
                ) && m.token_id == old(self).store.total_supply + 1 && m.deposit
                    == spec_share_grant(
                    old(self).store.treasury,
                    *account,
                    old(self).spec_rarity_of(valor_id),
                ),
                Err(e) => old(self).spec_grant_check(valor_id) == Err::<u64, ValocracyError>(e)
                    && *final(self) == *old(self),
            },
    {
        let rarity = match self.check_grant(valor_id) {
            Ok(rarity) => rarity,
            Err(e) => {
                return Err(e);
            },
        };
        Ok(self.apply_grant(account, valor_id, rarity, now))
    }

    /// Issues a badge of type `valor_id` to `recipient` on behalf of `minter`.
    ///
    /// The minter must have authorized the call and be entitled to issue
    /// badges of the type's category. The recipient's level grows by the
    /// badge's weight and its decay starts anew.
    pub fn mint(
        &mut self,
        auth: &Auth,
        minter: &Address,
        recipient: &Address,
        valor_id: u64,
        now: u64,
    ) -> (r: Result<Minted, ValocracyError>)
        requires
            old(self).spec_mint_check(*auth, *minter, valor_id) is Ok ==> old(
                self,
            ).spec_grant_fits(*recipient, valor_id, now),
        ensures
            old(self).inv() ==> final(self).inv(),
            match r {
                Ok(m) => old(self).spec_mint_check(*auth, *minter, valor_id) is Ok
                    && spec_grant_applied(
                    old(self).store,
                    final(self).store,
                    *recipient,
                    valor_id,
                    old(self).spec_rarity_of(valor_id),
                    now,
                ) && m.token_id == old(self).store.total_supply + 1 && m.deposit
                    == spec_share_grant(
                    old(self).store.treasury,
                    *recipient,
                    old(self).spec_rarity_of(valor_id),
                ),
                Err(e) => old(self).spec_mint_check(*auth, *minter, valor_id) == Err::<
                    u64,
                    ValocracyError,
                >(e) && *final(self) == *old(self),
            },
    {
        if !auth.require_auth(minter) {
            return Err(ValocracyError::NotAuthorized);
        }
        match Self::validate_badge_id(valor_id) {
            Err(e) => {
                return Err(e);
            },
            Ok(_) => {},
        }
        match self.check_mint_authorization(minter, valor_id) {
            Err(e) => {
                return Err(e);
            },
            Ok(_) => {},
        }
        self.mint_internal(recipient, valor_id, now)
    }
}

impl ValocracyContract {
    /// Registers `caller` as a member under a voucher signed by the backend.
    ///
    /// The voucher is bound to the caller, a nonce and an expiry; each nonce is
    /// good once per account. Grants the designated member badge.
    pub fn self_register(
        &mut self,
        auth: &Auth,
        caller: &Address,
        signature_valid: bool,
        nonce: u64,
        expiry: u64,
        now: u64,
    ) -> (r: Result<Minted, ValocracyError>)
        requires
            old(self).spec_self_register_check(
                *auth,
                *caller,
                signature_valid,
                nonce,
                expiry,
                now,
            ) matches Ok(g) ==> old(self).spec_grant_fits(*caller, g.0, now),
        ensures
            old(self).inv() ==> final(self).inv(),
            match r {
                Ok(m) => {
                    &&& old(self).spec_self_register_check(
                        *auth,
                        *caller,
                        signature_valid,
                        nonce,
                        expiry,
                        now,
                    ) matches Ok(g)
                    &&& final(self).store.used_nonces@ == old(self).store.used_nonces@.push(
                        (*caller, nonce),
                    )
                    &&& spec_grant_applied(
                        Storage {
                            used_nonces: final(self).store.used_nonces,
                            ..old(self).store
                        },
                        final(self).store,
                        *caller,
                        g.0,
                        g.1,
                        now,
                    )
                    &&& final(self).store.nonce_used(*caller, nonce)
                    &&& final(self).store.stats(*caller) == Some(spec_granted(None, g.1, now))
                    &&& m.token_id == old(self).store.total_supply + 1
                    &&& m.deposit == spec_share_grant(old(self).store.treasury, *caller, g.1)
                },
                Err(e) => old(self).spec_self_register_check(
                    *auth,
                    *caller,
                    signature_valid,
                    nonce,
                    expiry,
                    now,
                ) == Err::<(u64, u64), ValocracyError>(e) && *final(self) == *old(self),
            },
    {
        if !auth.require_auth(caller) {
            return Err(ValocracyError::NotAuthorized);
        }
        if !is_initialized(&self.store) {
            return Err(ValocracyError::NotInitialized);
        }
        match self.verify_signature(signature_valid, caller, nonce, expiry, now) {
            Err(e) => {
                return Err(e);
            },
            Ok(_) => {},
        }
        if get_user_stats(&self.store, caller).is_some() {
            return Err(ValocracyError::AlreadyRegistered);
        }
        let member_valor_id = match get_member_valor_id(&self.store) {
            Some(id) => id,
            None => {
                return Err(ValocracyError::NotInitialized);
            },
        };
        let rarity = match self.check_grant(member_valor_id) {
            Ok(rarity) => rarity,
            Err(e) => {
                return Err(e);
            },
        };
        set_nonce_used(&mut self.store, caller, nonce);
        let m = self.apply_grant(caller, member_valor_id, rarity, now);
        Ok(m)
    }

    /// Issues a badge of type `valor_id` to `account` under a voucher signed
    /// by the backend. The account itself must have authorized the call.
    pub fn guardian_mint(
        &mut self,
        auth: &Auth,
        account: &Address,
        valor_id: u64,
        signature_valid: bool,
        nonce: u64,
        expiry: u64,
        now: u64,
    ) -> (r: Result<Minted, ValocracyError>)
        requires
            old(self).spec_guardian_mint_check(
                *auth,
                *account,
                valor_id,
                signature_valid,
                nonce,
                expiry,
                now,
            ) is Ok ==> old(self).spec_grant_fits(*account, valor_id, now),
        ensures
            old(self).inv() ==> final(self).inv(),
            match r {
                Ok(m) => {
                    &&& old(self).spec_guardian_mint_check(
                        *auth,
                        *account,
                        valor_id,
                        signature_valid,
                        nonce,
                        expiry,
                        now,
                    ) is Ok
                    &&& final(self).store.used_nonces@ == old(self).store.used_nonces@.push(
                        (*account, nonce),
                    )
                    &&& spec_grant_applied(
                        Storage {
                            used_nonces: final(self).store.used_nonces,
                            ..old(self).store
                        },
                        final(self).store,
                        *account,
                        valor_id,
                        old(self).spec_rarity_of(valor_id),
                        now,
                    )
                    &&& final(self).store.nonce_used(*account, nonce)
                    &&& final(self).store.stats(*account) == Some(
                        spec_granted(
                            old(self).store.stats(*account),
                            old(self).spec_rarity_of(valor_id),
                            now,
                        ),
                    )
                    &&& m.token_id == old(self).store.total_supply + 1
                    &&& m.deposit == spec_share_grant(
                        old(self).store.treasury,
                        *account,
                        old(self).spec_rarity_of(valor_id),
                    )
                },
                Err(e) => old(self).spec_guardian_mint_check(
                    *auth,
                    *account,
                    valor_id,
                    signature_valid,
                    nonce,
                    expiry,
                    now,
                ) == Err::<u64, ValocracyError>(e) && *final(self) == *old(self),
            },
    {
        if !auth.require_auth(account) {
            return Err(ValocracyError::NotAuthorized);
        }
        if !is_initialized(&self.store) {
            return Err(ValocracyError::NotInitialized);
        }
        match self.verify_signature(signature_valid, account, nonce, expiry, now) {
            Err(e) => {
                return Err(e);
            },
            Ok(_) => {},
        }
        let rarity = match self.check_grant(valor_id) {
            Ok(rarity) => rarity,
            Err(e) => {
                return Err(e);
            },
        };
        set_nonce_used(&mut self.store, account, nonce);
        let m = self.apply_grant(account, valor_id, rarity, now);
        Ok(m)
    }

    /// Revokes badge `token_id`. Governance only.
    ///
    /// The badge's weight leaves the owner's level and permanent level, each
    /// stopping at zero, and the badge is removed.
    pub fn revoke(&mut self, auth: &Auth, token_id: u64) -> (r: Result<(), ValocracyError>)
        ensures
            old(self).inv() ==> final(self).inv(),
            match r {
                Ok(_) => {
                    &&& old(self).spec_revoke_check(*auth, token_id) matches Ok(t)
                    &&& final(self).store == (Storage {
                        user_stats: final(self).store.user_stats,
                        token_valor_ids: final(self).store.token_valor_ids,
                        token_owners: final(self).store.token_owners,
                        ..old(self).store
                    })
                    &&& final(self).store.user_stats@ == old(self).store.user_stats@.insert(
                        t.0,
                        spec_revoked(old(self).store.user_stats@[t.0], t.1),
                    )
                    &&& final(self).store.token_owners@ == old(self).store.token_owners@.remove(
                        token_id,
                    )
                    &&& final(self).store.token_valor_ids@ == old(
                        self,
                    ).store.token_valor_ids@.remove(token_id)
                },
                Err(e) => old(self).spec_revoke_check(*auth, token_id) == Err::<
                    (Address, u64),
                    ValocracyError,
                >(e) && *final(self) == *old(self),
            },
    {
        match self.require_governor(auth) {
            Err(e) => {
                return Err(e);
            },
            Ok(_) => {},
        }
        let owner = match get_token_owner(&self.store, token_id) {
            Some(owner) => owner,
            None => {
                return Err(ValocracyError::NonExistentToken);
            },
        };
        let valor_id = match get_token_valor_id(&self.store, token_id) {
            Some(id) => id,
            None => {
                return Err(ValocracyError::NonExistentToken);
            },
        };
        let rarity = match self.store.valors.get(&valor_id) {
            Some(valor) => valor.rarity,
            None => {
                return Err(ValocracyError::NonExistentValor);
            },
        };
        let current_stats = match get_user_stats(&self.store, &owner) {
            Some(stats) => stats,
            None => {
                return Err(ValocracyError::NonExistentAccount);
            },
        };
        let new_level = current_stats.level.saturating_sub(rarity);
        let new_permanent = current_stats.permanent_level.saturating_sub(rarity);
        let new_stats = UserStats {
            level: new_level,
            permanent_level: new_permanent,
            expiry: current_stats.expiry,
            verified: current_stats.verified,
        };
        set_user_stats(&mut self.store, &owner, &new_stats);
        remove_token_owner(&mut self.store, token_id);
        remove_token_valor_id(&mut self.store, token_id);
        Ok(())
    }

    /// Registers or replaces badge type `valor_id`. Governance only.
    pub fn set_valor(&mut self, auth: &Auth, valor_id: u64, rarity: u64, metadata: String) -> (r:
        Result<(), ValocracyError>)
        ensures
            old(self).inv() ==> final(self).inv(),
            r == old(self).spec_governor_check(*auth),
            match r {
                Ok(_) => {
                    &&& final(self).store == (Storage {
                        valors: final(self).store.valors,
                        ..old(self).store
                    })
                    &&& final(self).store.valors@ == old(self).store.valors@.insert(
                        valor_id,
                        Valor { rarity, metadata },
                    )
                },
                Err(_) => *final(self) == *old(self),
            },
    {
        match self.require_governor(auth) {
            Err(e) => {
                return Err(e);
            },
            Ok(_) => {},
        }
        let valor = Valor { rarity, metadata };
        set_valor(&mut self.store, valor_id, &valor);
        Ok(())
    }

    /// Hands governance to `new_governor`. Governance only.
    pub fn update_governor(&mut self, auth: &Auth, new_governor: Address) -> (r: Result<
        (),
        ValocracyError,
    >)
        ensures
            old(self).inv() ==> final(self).inv(),
            r == old(self).spec_governor_check(*auth),
            match r {
                Ok(_) => final(self).store == (Storage {
                    governor: Some(new_governor),
                    ..old(self).store
                }),
                Err(_) => *final(self) == *old(self),
            },
    {
        match self.require_governor(auth) {
            Err(e) => {
                return Err(e);
            },
            Ok(_) => {},
        }
        set_governor(&mut self.store, &new_governor);
        Ok(())
    }

    /// Points the ledger at the vault `new_treasury`. Governance only.
    pub fn update_treasury(&mut self, auth: &Auth, new_treasury: Address) -> (r: Result<
        (),
        ValocracyError,
    >)
        ensures
            old(self).inv() ==> final(self).inv(),
            r == old(self).spec_governor_check(*auth),
            match r {
                Ok(_) => final(self).store == (Storage {
                    treasury: Some(new_treasury),
                    ..old(self).store
                }),
                Err(_) => *final(self) == *old(self),
            },
    {
        match self.require_governor(auth) {
            Err(e) => {
                return Err(e);
            },
            Ok(_) => {},
        }
        set_treasury(&mut self.store, &new_treasury);
        Ok(())
    }

    /// Decides whether the ledger's code may be replaced by the code with hash
    /// `new_wasm_hash`: governance only. Returns the hash to install.
    pub fn upgrade(&self, auth: &Auth, new_wasm_hash: [u8; 32]) -> (r: Result<
        [u8; 32],
        ValocracyError,
    >)
        ensures
            match r {
                Ok(hash) => self.spec_governor_check(*auth) is Ok && hash == new_wasm_hash,
                Err(e) => self.spec_governor_check(*auth) == Err::<(), ValocracyError>(e),
            },
    {
        match self.require_governor(auth) {
            Err(e) => Err(e),
            Ok(_) => Ok(new_wasm_hash),
        }
    }

    /// Sets whether `member` has completed identity verification. Governance
    /// only; the member must have a record.
    pub fn set_verified(&mut self, auth: &Auth, member: Address, verified: bool) -> (r: Result<
        (),
        ValocracyError,
    >)
        ensures
            old(self).inv() ==> final(self).inv(),
            match r {
                Ok(_) => {
                    &&& old(self).spec_governor_check(*auth) is Ok
                    &&& old(self).store.stats(member) matches Some(stats)
                    &&& final(self).store == (Storage {
                        user_stats: final(self).store.user_stats,
                        ..old(self).store
                    })
                    &&& final(self).store.user_stats@ == old(self).store.user_stats@.insert(
                        member,
                        UserStats { verified, ..stats },
                    )
                },
                Err(e) => {
                    &&& *final(self) == *old(self)
                    &&& match old(self).spec_governor_check(*auth) {
                        Err(g) => e == g,
                        Ok(_) => old(self).store.stats(member) is None && e
                            == ValocracyError::NonExistentAccount,
                    }
                },
            },
    {
        match self.require_governor(auth) {
            Err(e) => {
                return Err(e);
            },
            Ok(_) => {},
        }
        let mut stats = match get_user_stats(&self.store, &member) {
            Some(stats) => stats,
            None => {
                return Err(ValocracyError::NonExistentAccount);
            },
        };
        stats.verified = verified;
        set_user_stats(&mut self.store, &member, &stats);
        Ok(())
    }

    /// Display name.
    pub fn name(&self) -> (r: String)
        ensures
            r == self.store.name,
    {
        self.store.name.clone()
    }

    /// Display symbol.
    pub fn symbol(&self) -> (r: String)
        ensures
            r == self.store.symbol,
    {
        self.store.symbol.clone()
    }

    /// Number of badges issued.
    pub fn total_supply(&self) -> (r: u64)
        ensures
            r == self.store.total_supply,
    {
        get_total_supply(&self.store)
    }

    /// The decay window, in seconds.
    pub fn vacancy_period(&self) -> (r: u64)
        ensures
            r == VACANCY_PERIOD,
    {
        VACANCY_PERIOD
    }

    /// The governance principal.
    pub fn governor(&self) -> (r: Option<Address>)
        ensures
            r == self.store.governor,
    {
        get_governor(&self.store)
    }

    /// The vault.
    pub fn treasury(&self) -> (r: Option<Address>)
        ensures
            r == self.store.treasury,
    {
        get_treasury(&self.store)
    }

    /// The badge type of badge `token_id`.
    pub fn valor_id_of(&self, token_id: u64) -> (r: Option<u64>)
        ensures
            r == self.store.token_valor_id(token_id),
    {
        get_token_valor_id(&self.store, token_id)
    }

    /// The weight of badge type `valor_id`; zero where it is not registered.
    pub fn rarity_of(&self, valor_id: u64) -> (r: u64)
        ensures
            r == self.spec_rarity_of(valor_id),
    {
        match self.store.valors.get(&valor_id) {
            Some(v) => v.rarity,
            None => 0,
        }
    }

    /// The metadata of badge type `valor_id`; empty where it is not
    /// registered.
    pub fn metadata_of(&self, valor_id: u64) -> (r: String)
        ensures
            match self.store.valor(valor_id) {
                Some(v) => r == v.metadata,
                None => r@ == Seq::<char>::empty(),
            },
    {
        match self.store.valors.get(&valor_id) {
            Some(v) => v.metadata.clone(),
            None => String::new(),
        }
    }

    /// The owner of badge `token_id`.
    pub fn owner_of(&self, token_id: u64) -> (r: Option<Address>)
        ensures
            r == self.store.token_owner(token_id),
    {
        get_token_owner(&self.store, token_id)
    }

    /// Accumulated level of `account`, without decay.
    pub fn level_of(&self, account: &Address) -> (r: u64)
        ensures
            r == self.spec_level_of(*account),
    {
        match get_user_stats(&self.store, account) {
            Some(s) => s.level,
            None => 0,
        }
    }

    /// Permanent level of `account`.
    pub fn permanent_level_of(&self, account: &Address) -> (r: u64)
        ensures
            r == (match self.store.stats(*account) {
                Some(s) => s.permanent_level,
                None => 0,
            }),
    {
        match get_user_stats(&self.store, account) {
            Some(s) => s.permanent_level,
            None => 0,
        }
    }

    /// The expiry of `account`'s level while it lies after `now`, else zero.
    pub fn expiry_of(&self, account: &Address, now: u64) -> (r: u64)
        ensures
            r == (match self.store.stats(*account) {
                Some(s) => if s.expiry > now {
                    s.expiry
                } else {
                    0
                },
                None => 0,
            }),
    {
        let expiry = match get_user_stats(&self.store, account) {
            Some(s) => s.expiry,
            None => 0,
        };
        if expiry > now {
            expiry
        } else {
            0
        }
    }

    /// Voting power of `account` at the present time `now`.
    pub fn get_votes(&self, account: &Address, now: u64) -> (r: u64)
        requires
            self.spec_votes_at(*account, now) <= u64::MAX,
        ensures
            r == self.spec_votes_at(*account, now),
            self.spec_level_of(*account) > 0 ==> r >= MEMBER_FLOOR,
    {
        self.get_votes_at(account, now)
    }

    /// Voting power of `account` at time `timestamp`, by the record as it
    /// stands now. The time is the caller's to choose: past, present or
    /// future.
    pub fn get_votes_at(&self, account: &Address, timestamp: u64) -> (r: u64)
        requires
            self.spec_votes_at(*account, timestamp) <= u64::MAX,
        ensures
            r == self.spec_votes_at(*account, timestamp),
            self.spec_level_of(*account) > 0 ==> r >= MEMBER_FLOOR,
    {
        let stats = match get_user_stats(&self.store, account) {
            Some(s) => s,
            None => {
                return 0;
            },
        };
        Self::calculate_mana(stats.level, stats.permanent_level, stats.expiry, timestamp)
    }

    /// Whether `account` has any voting power: whether its level is above
    /// zero.
    pub fn has_voting_power(&self, account: &Address) -> (r: bool)
        ensures
            r == (self.spec_level_of(*account) > 0),
    {
        self.level_of(account) > 0
    }

    /// Whether `account` has completed identity verification.
    pub fn is_verified(&self, account: &Address) -> (r: bool)
        ensures
            r == (match self.store.stats(*account) {
                Some(s) => s.verified,
                None => false,
            }),
    {
        match get_user_stats(&self.store, account) {
            Some(s) => s.verified,
            None => false,
        }
    }

    /// Voting power of `account` at time `timestamp`, or `None` where it
    /// exceeds the range of `u64`.
    pub fn checked_votes_at(&self, account: &Address, timestamp: u64) -> (r: Option<u64>)
        ensures
            r == (if self.spec_votes_at(*account, timestamp) <= u64::MAX {
                Some(self.spec_votes_at(*account, timestamp) as u64)
            } else {
                None
            }),
    {
        match get_user_stats(&self.store, account) {
            Some(s) => Self::checked_calculate_mana(
                s.level,
                s.permanent_level,
                s.expiry,
                timestamp,
            ),
            None => Some(0),
        }
    }

    /// The floor times the number of badges issued, or `None` where it
    /// exceeds the range of `u64`.
    pub fn checked_total_mana(&self) -> (r: Option<u64>)
        ensures
            r == (if self.spec_total_mana() <= u64::MAX {
                Some(self.spec_total_mana() as u64)
            } else {
                None
            }),
    {
        get_total_supply(&self.store).checked_mul(MEMBER_FLOOR)
    }

    /// Whether the level, the expiry and the badge id of a grant of type
    /// `valor_id` to `account` at time `now` fit their types.
    pub fn grant_fits(&self, account: &Address, valor_id: u64, now: u64) -> (r: bool)
        ensures
            r == self.spec_grant_fits(*account, valor_id, now),
    {
        let level = match get_user_stats(&self.store, account) {
            Some(s) => s.level,
            None => 0,
        };
        let rarity = self.rarity_of(valor_id);
        now <= u64::MAX - VACANCY_PERIOD && get_total_supply(&self.store) < u64::MAX && level
            <= u64::MAX - rarity
    }

    /// The floor times the number of badges issued.
    pub fn total_mana(&self) -> (r: u64)
        requires
            self.spec_total_mana() <= u64::MAX,
        ensures
            r == self.spec_total_mana(),
    {
        let total_supply = get_total_supply(&self.store);
        total_supply * MEMBER_FLOOR
    }
}

} // verus!
