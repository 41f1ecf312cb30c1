//! The distribution pallet: airdrops of an asset from a per-distribution stash account, and
//! crowdfunds whose contributors later claim their share of the stash.
use vstd::prelude::*;
use vstd::hash_map::HashMapWithView;
use crate::accounts::{
    account_bytes, account_of, into_sub_account_truncating, lemma_account_by_bytes, lemma_account_of,
    modl, short_ascii, sub_seed, u32_le,
};
use crate::ledger::{AccountBook, BookKey};
use crate::perbill::{from_rational_parts, mul_parts, perbill_from_rational, perbill_mul};
use crate::support::{
    account_eq, ensure_signed, signer, AccountId, ArithmeticError, AssetId, AssetTransfer, Balance,
    DispatchError, NativeTransfer, Origin, Preservation, RelayChainBlockNumber,
};

verus! {

/// The index of a distribution.
pub type DistributionId = u32;

/// The pallet identifier from which stash accounts are derived (`b"dropit/d"`).
pub const DISTRIBUTION_PALLET_ID: [u8; 8] = [100, 114, 111, 112, 105, 116, 47, 100];

/// The phases of a crowdfund.
#[derive(PartialEq, Eq, Structural, Clone, Copy, Debug)]
pub enum CrowdfundPhase {
    /// The crowdfund is currently raising funds.
    Raising,
    /// The crowdfund is currently distributing tokens to users.
    Distributing,
    /// The crowdfund has ended successfully.
    Ended,
    /// The crowdfund has failed to raise enough funds.
    Failed,
}

/// What is stored about a distribution.
#[derive(Clone, Copy, Debug, PartialEq, Eq)]
pub struct DistributionInfo {
    pub creator: AccountId,
    pub asset_id: AssetId,
    pub stash_account: AccountId,
    pub crowdfunded: bool,
    pub root_hash: Option<[u8; 32]>,
}

/// The configuration and running totals of a crowdfund.
#[derive(Clone, Copy, Debug, PartialEq, Eq)]
pub struct CrowdfundInfo {
    pub phase: CrowdfundPhase,
    pub fund_min: Balance,
    pub fund_max: Option<Balance>,
    pub min_contribution: Balance,
    pub max_contribution: Option<Balance>,
    pub total_contributed: Balance,
    pub total_claimed: Balance,
    pub end_block: RelayChainBlockNumber,
}

/// Events deposited by the pallet.
#[derive(Clone, Copy, Debug, PartialEq, Eq)]
pub enum Event {
    DistributionCreated { id: DistributionId, crowdfunded: bool },
    DistributionAdded { id: DistributionId, recipient: AccountId, amount: Balance },
    DistributionClaimed { id: DistributionId, recipient: AccountId, amount: Balance },
    CrowdfundConfigured {
        id: DistributionId,
        fund_min: Balance,
        fund_max: Option<Balance>,
        min_contribution: Balance,
        max_contribution: Option<Balance>,
    },
    NewCrowdfundPhase { id: DistributionId, new_phase: CrowdfundPhase },
}

/// Errors of the pallet.
#[derive(Clone, Copy, Debug, PartialEq, Eq)]
pub enum Error {
    /// The provided distribution id does not exist.
    DistributionIdDoesNotExist,
    /// The distribution does not exist.
    DistributionDoesNotExist,
    /// Zero value is not allowed.
    ZeroNotAllowed,
    /// The call is only accessible by the distribution creator.
    CreatorOnly,
    /// The distribution is crowdfunded.
    Crowdfunded,
    /// The distribution is not crowdfunded.
    NotCrowdfunded,
    /// Contribution is larger than the maximum allowed.
    ContributionTooBig,
    /// Contribution is smaller than the minimum allowed.
    ContributionTooSmall,
    /// Contribution limit for the crowdfund has been reached.
    ContributionLimitReached,
    /// Contribution period has ended.
    ContributionPeriodEnded,
    /// Contribution period is still ongoing.
    ContributionPeriodOngoing,
    /// Wrong crowdfund phase.
    WrongPhase,
    /// A crowdfund is already configured for the distribution.
    CrowdfundAlreadyConfigured,
    /// Some contributors have not claimed their distribution yet.
    ClaimsOutstanding,
}

/// The result of a call of this pallet.
pub type DispatchResult = Result<(), DispatchError<Error>>;

/// The pallet's storage and deposited events, as mathematical values.
pub struct DistributionState {
    pub next_distribution_id: DistributionId,
    pub distribution_infos: Map<DistributionId, DistributionInfo>,
    pub crowdfund_infos: Map<DistributionId, CrowdfundInfo>,
    pub crowdfund_contributions: Map<BookKey, Balance>,
    pub asset_distribution: Map<BookKey, Balance>,
    pub events: Seq<Event>,
}

/// The bytes of the stash account of distribution `id`: `"modl" ++ b"dropit/d"` followed by the
/// encoded sub-seed `("sa", id)` (`8, b's', b'a'` and the id's four bytes) and zeros.
pub open spec fn stash_bytes(id: DistributionId) -> Seq<u8> {
    account_bytes(modl() + DISTRIBUTION_PALLET_ID@ + seq![8u8, 115u8, 97u8] + u32_le(id))
}

/// The stash account of distribution `id`.
pub open spec fn stash_account_of(id: DistributionId) -> AccountId {
    account_of(stash_bytes(id))
}

/// The error of this pallet `e`, as a dispatch error.
pub open spec fn module_err<T>(e: Error) -> Result<T, DispatchError<Error>> {
    Err(DispatchError::Module(e))
}

/// What `create_distribution` does: the new state, or the error.
pub open spec fn create_distribution_step(
    s: DistributionState,
    origin: Origin,
    asset_id: AssetId,
    crowdfunded: bool,
) -> Result<DistributionState, DispatchError<Error>> {
    match signer(origin) {
        None => Err(DispatchError::BadOrigin),
        Some(creator) => {
            let id = s.next_distribution_id;
            if id == u32::MAX {
                Err(DispatchError::Arithmetic(ArithmeticError::Overflow))
            } else {
                let info = DistributionInfo {
                    creator,
                    asset_id,
                    stash_account: stash_account_of(id),
                    crowdfunded,
                    root_hash: None,
                };
                Ok(
                    DistributionState {
                        next_distribution_id: (id + 1) as u32,
                        distribution_infos: s.distribution_infos.insert(id, info),
                        events: s.events.push(Event::DistributionCreated { id, crowdfunded }),
                        ..s
                    },
                )
            }
        },
    }
}

/// What `fund_distribution` asks the assets pallet to do, or the error.
pub open spec fn fund_distribution_step(
    s: DistributionState,
    origin: Origin,
    id: DistributionId,
    amount: Balance,
) -> Result<AssetTransfer, DispatchError<Error>> {
    match signer(origin) {
        None => Err(DispatchError::BadOrigin),
        Some(from) => if !s.distribution_infos.contains_key(id) {
            module_err(Error::DistributionIdDoesNotExist)
        } else {
            let info = s.distribution_infos[id];
            Ok(
                AssetTransfer {
                    asset: info.asset_id,
                    source: from,
                    dest: info.stash_account,
                    amount,
                    preservation: Preservation::Protect,
                },
            )
        },
    }
}

/// The checks that `add_distribution` and `add_distributions` make before writing entries.
pub open spec fn allocation_check(s: DistributionState, origin: Origin, id: DistributionId) -> Result<
    (),
    DispatchError<Error>,
> {
    match signer(origin) {
        None => Err(DispatchError::BadOrigin),
        Some(who) => if !s.distribution_infos.contains_key(id) {
            module_err(Error::DistributionIdDoesNotExist)
        } else if s.distribution_infos[id].crowdfunded {
            module_err(Error::Crowdfunded)
        } else if who != s.distribution_infos[id].creator {
            module_err(Error::CreatorOnly)
        } else {
            Ok(())
        },
    }
}

/// The state after entry `recipient: amount` is written to distribution `id`.
pub open spec fn allocate(
    s: DistributionState,
    id: DistributionId,
    recipient: AccountId,
    amount: Balance,
) -> DistributionState {
    DistributionState {
        asset_distribution: s.asset_distribution.insert((id, recipient), amount),
        events: s.events.push(Event::DistributionAdded { id, recipient, amount }),
        ..s
    }
}

/// The state after the entries of `recipients` are written to distribution `id`, in order.
pub open spec fn allocate_all(
    s: DistributionState,
    id: DistributionId,
    recipients: Seq<(AccountId, Balance)>,
) -> DistributionState
    decreases recipients.len(),
{
    if recipients.len() == 0 {
        s
    } else {
        let last = recipients.last();
        allocate(allocate_all(s, id, recipients.drop_last()), id, last.0, last.1)
    }
}

/// What `add_distribution` does: the new state, or the error.
pub open spec fn add_distribution_step(
    s: DistributionState,
    origin: Origin,
    id: DistributionId,
    recipient: AccountId,
    amount: Balance,
) -> Result<DistributionState, DispatchError<Error>> {
    match allocation_check(s, origin, id) {
        Err(e) => Err(e),
        Ok(()) => Ok(allocate(s, id, recipient, amount)),
    }
}

/// What `add_distributions` does: the new state, or the error.
pub open spec fn add_distributions_step(
    s: DistributionState,
    origin: Origin,
    id: DistributionId,
    recipients: Seq<(AccountId, Balance)>,
) -> Result<DistributionState, DispatchError<Error>> {
    match allocation_check(s, origin, id) {
        Err(e) => Err(e),
        Ok(()) => Ok(allocate_all(s, id, recipients)),
    }
}

/// What `claim_distribution` does: the new state and the transfer it asks for, or the error.
pub open spec fn claim_distribution_step(
    s: DistributionState,
    origin: Origin,
    id: DistributionId,
    recipient: AccountId,
) -> Result<(DistributionState, AssetTransfer), DispatchError<Error>> {
    match signer(origin) {
        None => Err(DispatchError::BadOrigin),
        Some(_) => if !s.distribution_infos.contains_key(id) {
            module_err(Error::DistributionIdDoesNotExist)
        } else if !s.asset_distribution.contains_key((id, recipient)) {
            module_err(Error::DistributionDoesNotExist)
        } else {
            let info = s.distribution_infos[id];
            let amount = s.asset_distribution[(id, recipient)];
            let post = DistributionState {
                asset_distribution: s.asset_distribution.remove((id, recipient)),
                events: s.events.push(Event::DistributionClaimed { id, recipient, amount }),
                ..s
            };
            Ok(
                (
                    post,
                    AssetTransfer {
                        asset: info.asset_id,
                        source: info.stash_account,
                        dest: recipient,
                        amount,
                        preservation: Preservation::Expendable,
                    },
                ),
            )
        },
    }
}

/// Some bound `max` that is zero.
pub open spec fn is_zero_bound(max: Option<Balance>) -> bool {
    match max {
        Some(m) => m == 0,
        None => false,
    }
}

/// What `configure_crowdfund` does: the new state, or the error.
pub open spec fn configure_crowdfund_step(
    s: DistributionState,
    origin: Origin,
    id: DistributionId,
    fund_min: Balance,
    fund_max: Option<Balance>,
    min_contribution: Balance,
    max_contribution: Option<Balance>,
    end_block: RelayChainBlockNumber,
) -> Result<DistributionState, DispatchError<Error>> {
    match signer(origin) {
        None => Err(DispatchError::BadOrigin),
        Some(who) => if is_zero_bound(max_contribution) || is_zero_bound(fund_max)
            || min_contribution == 0 || fund_min == 0 {
            module_err(Error::ZeroNotAllowed)
        } else if !s.distribution_infos.contains_key(id) {
            module_err(Error::DistributionIdDoesNotExist)
        } else if !s.distribution_infos[id].crowdfunded {
            module_err(Error::NotCrowdfunded)
        } else if who != s.distribution_infos[id].creator {
            module_err(Error::CreatorOnly)
        } else if s.crowdfund_infos.contains_key(id) {
            module_err(Error::CrowdfundAlreadyConfigured)
        } else {
            let info = CrowdfundInfo {
                phase: CrowdfundPhase::Raising,
                fund_min,
                fund_max,
                min_contribution,
                max_contribution,
                total_contributed: 0,
                total_claimed: 0,
                end_block,
            };
            Ok(
                DistributionState {
                    crowdfund_infos: s.crowdfund_infos.insert(id, info),
                    events: s.events.push(
                        Event::CrowdfundConfigured {
                            id,
                            fund_min,
                            fund_max,
                            min_contribution,
                            max_contribution,
                        },
                    ),
                    ..s
                },
            )
        },
    }
}

/// Whether a raising crowdfund cannot take another minimum contribution.
pub open spec fn contributions_full(cf: CrowdfundInfo) -> bool {
    match cf.max_contribution {
        Some(max) => cf.total_contributed + cf.min_contribution > max,
        None => false,
    }
}

/// The phase that follows `Raising` once the raising period is over: `Distributing` when at least
/// `fund_min` was raised, `Failed` otherwise.
pub open spec fn phase_after_raising(cf: CrowdfundInfo) -> CrowdfundPhase {
    if cf.total_contributed >= cf.fund_min {
        CrowdfundPhase::Distributing
    } else {
        CrowdfundPhase::Failed
    }
}

/// The state after crowdfund `id`, whose info is `cf`, moves to `phase`.
pub open spec fn enter_phase(
    s: DistributionState,
    id: DistributionId,
    cf: CrowdfundInfo,
    phase: CrowdfundPhase,
) -> DistributionState {
    if cf.phase == phase {
        s
    } else {
        DistributionState {
            crowdfund_infos: s.crowdfund_infos.insert(id, CrowdfundInfo { phase, ..cf }),
            events: s.events.push(Event::NewCrowdfundPhase { id, new_phase: phase }),
            ..s
        }
    }
}

/// What `crowdfund_next_phase` does at relay block `relay_block`: the new state, or the error.
pub open spec fn crowdfund_next_phase_step(
    s: DistributionState,
    origin: Origin,
    id: DistributionId,
    relay_block: RelayChainBlockNumber,
) -> Result<DistributionState, DispatchError<Error>> {
    match signer(origin) {
        None => Err(DispatchError::BadOrigin),
        Some(_) => if !s.crowdfund_infos.contains_key(id) {
            module_err(Error::NotCrowdfunded)
        } else {
            let cf = s.crowdfund_infos[id];
            if cf.phase != CrowdfundPhase::Raising {
                Ok(s)
            } else if contributions_full(cf) {
                Ok(enter_phase(s, id, cf, CrowdfundPhase::Distributing))
            } else if relay_block <= cf.end_block {
                module_err(Error::ContributionPeriodOngoing)
            } else {
                Ok(enter_phase(s, id, cf, phase_after_raising(cf)))
            }
        },
    }
}

/// Some bound `max` that is below `x`.
pub open spec fn exceeds_bound(x: int, max: Option<Balance>) -> bool {
    match max {
        Some(m) => x > m,
        None => false,
    }
}

/// The contribution recorded under `k`, zero when there is none.
pub open spec fn recorded(m: Map<BookKey, Balance>, k: BookKey) -> int {
    if m.contains_key(k) {
        m[k] as int
    } else {
        0
    }
}

/// What `contribute_crowdfund` does at relay block `relay_block`: the new state and the native
/// transfer it asks for, or the error.
pub open spec fn contribute_crowdfund_step(
    s: DistributionState,
    origin: Origin,
    id: DistributionId,
    amount: Balance,
    relay_block: RelayChainBlockNumber,
) -> Result<(DistributionState, NativeTransfer), DispatchError<Error>> {
    match signer(origin) {
        None => Err(DispatchError::BadOrigin),
        Some(who) => if !s.crowdfund_infos.contains_key(id) {
            module_err(Error::NotCrowdfunded)
        } else {
            let cf = s.crowdfund_infos[id];
            let new_total = cf.total_contributed + amount;
            let new_record = recorded(s.crowdfund_contributions, (id, who)) + amount;
            if cf.phase != CrowdfundPhase::Raising {
                module_err(Error::WrongPhase)
            } else if exceeds_bound(amount as int, cf.max_contribution) {
                module_err(Error::ContributionTooBig)
            } else if amount < cf.min_contribution {
                module_err(Error::ContributionTooSmall)
            } else if new_total > u128::MAX || new_record > u128::MAX {
                Err(DispatchError::Arithmetic(ArithmeticError::Overflow))
            } else if exceeds_bound(new_total, cf.fund_max) {
                module_err(Error::ContributionLimitReached)
            } else if relay_block > cf.end_block {
                module_err(Error::ContributionPeriodEnded)
            } else if !s.distribution_infos.contains_key(id) {
                module_err(Error::DistributionIdDoesNotExist)
            } else {
                let post = DistributionState {
                    crowdfund_contributions: s.crowdfund_contributions.insert(
                        (id, who),
                        new_record as u128,
                    ),
                    crowdfund_infos: s.crowdfund_infos.insert(
                        id,
                        CrowdfundInfo { total_contributed: new_total as u128, ..cf },
                    ),
                    ..s
                };
                Ok(
                    (
                        post,
                        NativeTransfer {
                            source: who,
                            dest: s.distribution_infos[id].stash_account,
                            amount,
                            preservation: Preservation::Preserve,
                        },
                    ),
                )
            }
        },
    }
}

/// The tokens owed to a contributor of `contribution` out of `claimable` still unclaimed
/// contributions, when the stash holds `stash_balance` tokens.
pub open spec fn claim_share(contribution: Balance, claimable: Balance, stash_balance: Balance) -> int {
    mul_parts(from_rational_parts(contribution, claimable) as u32, stash_balance)
}

/// What `claim_crowdfund_distribution` does at relay block `relay_block`, when the stash holds
/// `stash_balance` tokens of the distributed asset: the new state and the transfer it asks for, or
/// the error.
pub open spec fn claim_crowdfund_distribution_step(
    s: DistributionState,
    origin: Origin,
    id: DistributionId,
    recipient: AccountId,
    relay_block: RelayChainBlockNumber,
    stash_balance: Balance,
) -> Result<(DistributionState, AssetTransfer), DispatchError<Error>> {
    match signer(origin) {
        None => Err(DispatchError::BadOrigin),
        Some(_) => if !s.crowdfund_contributions.contains_key((id, recipient)) {
            module_err(Error::DistributionDoesNotExist)
        } else if !s.crowdfund_infos.contains_key(id) {
            module_err(Error::NotCrowdfunded)
        } else {
            let cf = s.crowdfund_infos[id];
            let contribution = s.crowdfund_contributions[(id, recipient)];
            if cf.phase != CrowdfundPhase::Distributing {
                module_err(Error::WrongPhase)
            } else if relay_block <= cf.end_block {
                module_err(Error::ContributionPeriodOngoing)
            } else if !s.distribution_infos.contains_key(id) {
                module_err(Error::DistributionIdDoesNotExist)
            } else if cf.total_contributed < cf.total_claimed {
                Err(DispatchError::Arithmetic(ArithmeticError::Underflow))
            } else if cf.total_contributed == cf.total_claimed {
                module_err(Error::ZeroNotAllowed)
            } else if cf.total_claimed + contribution > u128::MAX {
                Err(DispatchError::Arithmetic(ArithmeticError::Overflow))
            } else {
                let info = s.distribution_infos[id];
                let claimable = (cf.total_contributed - cf.total_claimed) as u128;
                let post = DistributionState {
                    crowdfund_contributions: s.crowdfund_contributions.remove((id, recipient)),
                    crowdfund_infos: s.crowdfund_infos.insert(
                        id,
                        CrowdfundInfo { total_claimed: (cf.total_claimed + contribution) as u128, ..cf },
                    ),
                    ..s
                };
                Ok(
                    (
                        post,
                        AssetTransfer {
                            asset: info.asset_id,
                            source: info.stash_account,
                            dest: recipient,
                            amount: claim_share(contribution, claimable, stash_balance) as u128,
                            preservation: Preservation::Expendable,
                        },
                    ),
                )
            }
        },
    }
}


/// What `claim_crowdfund_raise` does: the new state (the crowdfund has `Ended`) and the native
/// transfer of the raised funds to the creator it asks for, or the error.
pub open spec fn claim_crowdfund_raise_step(s: DistributionState, origin: Origin, id: DistributionId) -> Result<
    (DistributionState, NativeTransfer),
    DispatchError<Error>,
> {
    match signer(origin) {
        None => Err(DispatchError::BadOrigin),
        Some(who) => if !s.crowdfund_infos.contains_key(id) {
            module_err(Error::NotCrowdfunded)
        } else if !s.distribution_infos.contains_key(id) {
            module_err(Error::DistributionIdDoesNotExist)
        } else {
            let cf = s.crowdfund_infos[id];
            let info = s.distribution_infos[id];
            if who != info.creator {
                module_err(Error::CreatorOnly)
            } else if cf.phase != CrowdfundPhase::Distributing {
                module_err(Error::WrongPhase)
            } else if cf.total_claimed != cf.total_contributed {
                module_err(Error::ClaimsOutstanding)
            } else {
                Ok(
                    (
                        enter_phase(s, id, cf, CrowdfundPhase::Ended),
                        NativeTransfer {
                            source: info.stash_account,
                            dest: who,
                            amount: cf.total_contributed,
                            preservation: Preservation::Expendable,
                        },
                    ),
                )
            }
        },
    }
}

/// The state and result that a step leaves: its new state and output, or the unchanged state and
/// its error.
pub open spec fn settle<T>(
    pre: DistributionState,
    step: Result<(DistributionState, T), DispatchError<Error>>,
) -> (DistributionState, Result<T, DispatchError<Error>>) {
    match step {
        Ok((post, out)) => (post, Ok(out)),
        Err(e) => (pre, Err(e)),
    }
}

/// The state and result that a step without output leaves.
pub open spec fn settle_unit(
    pre: DistributionState,
    step: Result<DistributionState, DispatchError<Error>>,
) -> (DistributionState, DispatchResult) {
    match step {
        Ok(post) => (post, Ok(())),
        Err(e) => (pre, Err(e)),
    }
}

/// The pallet: its storage and the events it has deposited.
pub struct Pallet {
    next_distribution_id: DistributionId,
    distribution_infos: HashMapWithView<DistributionId, DistributionInfo>,
    crowdfund_infos: HashMapWithView<DistributionId, CrowdfundInfo>,
    crowdfund_contributions: AccountBook,
    asset_distribution: AccountBook,
    events: Vec<Event>,
}

impl View for Pallet {
    type V = DistributionState;

    closed spec fn view(&self) -> DistributionState {
        DistributionState {
            next_distribution_id: self.next_distribution_id,
            distribution_infos: self.distribution_infos@,
            crowdfund_infos: self.crowdfund_infos@,
            crowdfund_contributions: self.crowdfund_contributions@,
            asset_distribution: self.asset_distribution@,
            events: self.events@,
        }
    }
}

impl Pallet {
    /// The pallet's storage is well formed.
    pub closed spec fn wf(&self) -> bool {
        self.crowdfund_contributions.wf() && self.asset_distribution.wf()
    }

    /// A well-formed pallet holds finitely many contribution records and allocations.
    pub proof fn lemma_storage_finite(&self)
        requires
            self.wf(),
        ensures
            self@.crowdfund_contributions.dom().finite(),
            self@.asset_distribution.dom().finite(),
    {
        self.crowdfund_contributions.lemma_wf_finite();
        self.asset_distribution.lemma_wf_finite();
    }

    /// The pallet at genesis: no distributions, next id 0, no events.
    pub fn new() -> (r: Self)
        ensures
            r.wf(),
            r@.next_distribution_id == 0,
            r@.distribution_infos == Map::<DistributionId, DistributionInfo>::empty(),
            r@.crowdfund_infos == Map::<DistributionId, CrowdfundInfo>::empty(),
            r@.crowdfund_contributions == Map::<BookKey, Balance>::empty(),
            r@.asset_distribution == Map::<BookKey, Balance>::empty(),
            r@.events == Seq::<Event>::empty(),
    {
        broadcast use vstd::std_specs::hash::group_hash_axioms;
        Pallet {
            next_distribution_id: 0,
            distribution_infos: HashMapWithView::new(),
            crowdfund_infos: HashMapWithView::new(),
            crowdfund_contributions: AccountBook::new(),
            asset_distribution: AccountBook::new(),
            events: Vec::new(),
        }
    }

    /// The stash account used for distributing the funds of distribution `id`.
    pub fn stash_account(id: DistributionId) -> (r: AccountId)
        ensures
            r == stash_account_of(id),
            r@ == stash_bytes(id),
    {
        let r = into_sub_account_truncating(DISTRIBUTION_PALLET_ID, "sa", id);
        proof {
            reveal_strlit("sa");
            assert(short_ascii("sa"@));
            assert(modl() + DISTRIBUTION_PALLET_ID@ + sub_seed("sa"@, id) =~= modl()
                + DISTRIBUTION_PALLET_ID@ + seq![8u8, 115u8, 97u8] + u32_le(id));
            assert(stash_bytes(id).len() == 32);
            lemma_account_of(stash_bytes(id));
            lemma_account_by_bytes(r, stash_account_of(id));
        }
        r
    }

    /// Creates a new distribution of `asset_id`, with the next free id and its stash account.
    pub fn create_distribution(&mut self, origin: Origin, asset_id: AssetId, crowdfunded: bool) -> (r:
        DispatchResult)
        requires
            old(self).wf(),
        ensures
            final(self).wf(),
            (final(self)@, r) == settle_unit(
                old(self)@,
                create_distribution_step(old(self)@, origin, asset_id, crowdfunded),
            ),
    {
        let creator = ensure_signed(origin)?;
        let id = self.next_distribution_id;
        if id == u32::MAX {
            return Err(DispatchError::Arithmetic(ArithmeticError::Overflow));
        }
        let stash_account = Self::stash_account(id);
        let info = DistributionInfo { creator, asset_id, stash_account, crowdfunded, root_hash: None };
        self.next_distribution_id = id + 1;
        self.distribution_infos.insert(id, info);
        self.events.push(Event::DistributionCreated { id, crowdfunded });
        Ok(())
    }

    /// The info of distribution `id`, or `err` when there is none.
    fn info_of(&self, id: DistributionId) -> (r: Result<DistributionInfo, DispatchError<Error>>)
        ensures
            r == if self@.distribution_infos.contains_key(id) {
                Ok(self@.distribution_infos[id])
            } else {
                module_err::<DistributionInfo>(Error::DistributionIdDoesNotExist)
            },
    {
        match self.distribution_infos.get(&id) {
            Some(info) => Ok(*info),
            None => Err(DispatchError::Module(Error::DistributionIdDoesNotExist)),
        }
    }

    /// The crowdfund info of distribution `id`, or `NotCrowdfunded` when there is none.
    fn crowdfund_of(&self, id: DistributionId) -> (r: Result<CrowdfundInfo, DispatchError<Error>>)
        ensures
            r == if self@.crowdfund_infos.contains_key(id) {
                Ok(self@.crowdfund_infos[id])
            } else {
                module_err::<CrowdfundInfo>(Error::NotCrowdfunded)
            },
    {
        match self.crowdfund_infos.get(&id) {
            Some(info) => Ok(*info),
            None => Err(DispatchError::Module(Error::NotCrowdfunded)),
        }
    }

    /// Moves `amount` of the distribution's asset from the signer to the stash account of
    /// distribution `id`, through `transfer`, the assets pallet's transfer.
    pub fn fund_distribution(
        &self,
        origin: Origin,
        id: DistributionId,
        amount: Balance,
        transfer: impl FnOnce(AssetTransfer) -> DispatchResult,
    ) -> (r: DispatchResult)
        requires
            forall|t: AssetTransfer| transfer.requires((t,)),
        ensures
            match fund_distribution_step(self@, origin, id, amount) {
                Err(e) => r == Err::<(), DispatchError<Error>>(e),
                Ok(t) => transfer.ensures((t,), r),
            },
    {
        let from = ensure_signed(origin)?;
        let info = self.info_of(id)?;
        transfer(
            AssetTransfer {
                asset: info.asset_id,
                source: from,
                dest: info.stash_account,
                amount,
                preservation: Preservation::Protect,
            },
        )
    }

    /// Checks that the signer of `origin` may write entries of distribution `id`.
    fn check_allocation(&self, origin: Origin, id: DistributionId) -> (r: DispatchResult)
        ensures
            r == allocation_check(self@, origin, id),
    {
        let who = ensure_signed(origin)?;
        let info = self.info_of(id)?;
        if info.crowdfunded {
            return Err(DispatchError::Module(Error::Crowdfunded));
        }
        if !account_eq(&who, &info.creator) {
            return Err(DispatchError::Module(Error::CreatorOnly));
        }
        Ok(())
    }

    /// Writes entry `recipient: amount` of distribution `id` and deposits its event.
    fn allocate(&mut self, id: DistributionId, recipient: AccountId, amount: Balance)
        requires
            old(self).wf(),
        ensures
            final(self).wf(),
            final(self)@ == allocate(old(self)@, id, recipient, amount),
    {
        self.asset_distribution.insert(id, recipient, amount);
        self.events.push(Event::DistributionAdded { id, recipient, amount });
    }

    /// Adds an entry `recipient: amount` to distribution `id`; only its creator may, and only
    /// when it is not crowdfunded. An existing entry of `recipient` is overwritten.
    pub fn add_distribution(
        &mut self,
        origin: Origin,
        id: DistributionId,
        recipient: AccountId,
        amount: Balance,
    ) -> (r: DispatchResult)
        requires
            old(self).wf(),
        ensures
            final(self).wf(),
            (final(self)@, r) == settle_unit(
                old(self)@,
                add_distribution_step(old(self)@, origin, id, recipient, amount),
            ),
    {
        self.check_allocation(origin, id)?;
        self.allocate(id, recipient, amount);
        Ok(())
    }

    /// Adds the entries `recipients` to distribution `id`, in order; only its creator may, and
    /// only when it is not crowdfunded. Existing entries are overwritten.
    pub fn add_distributions(
        &mut self,
        origin: Origin,
        id: DistributionId,
        recipients: Vec<(AccountId, Balance)>,
    ) -> (r: DispatchResult)
        requires
            old(self).wf(),
        ensures
            final(self).wf(),
            (final(self)@, r) == settle_unit(
                old(self)@,
                add_distributions_step(old(self)@, origin, id, recipients@),
            ),
    {
        self.check_allocation(origin, id)?;
        let ghost start = self@;
        let mut i: usize = 0;
        while i < recipients.len()
            invariant
                0 <= i <= recipients@.len(),
                self.wf(),
                self@ == allocate_all(start, id, recipients@.take(i as int)),
            decreases recipients@.len() - i,
        {
            let (recipient, amount) = recipients[i];
            self.allocate(id, recipient, amount);
            proof {
                assert(recipients@.take(i + 1).drop_last() =~= recipients@.take(i as int));
            }
            i = i + 1;
        }
        proof {
            assert(recipients@.take(recipients@.len() as int) =~= recipients@);
        }
        Ok(())
    }

    /// Pays out the entry of `recipient` in distribution `id` from the stash account, through
    /// `transfer`, the assets pallet's transfer. Anyone may call it. The entry is removed, so it
    /// is paid once.
    pub fn claim_distribution(
        &mut self,
        origin: Origin,
        id: DistributionId,
        recipient: AccountId,
        transfer: impl FnOnce(AssetTransfer) -> DispatchResult,
    ) -> (r: DispatchResult)
        requires
            old(self).wf(),
            forall|t: AssetTransfer| transfer.requires((t,)),
        ensures
            final(self).wf(),
            match claim_distribution_step(old(self)@, origin, id, recipient) {
                Err(e) => r == Err::<(), DispatchError<Error>>(e) && final(self)@ == old(self)@,
                Ok((post, t)) => transfer.ensures((t,), r) && final(self)@ == if r is Ok {
                    post
                } else {
                    old(self)@
                },
            },
    {
        ensure_signed(origin)?;
        let info = self.info_of(id)?;
        let amount = match self.asset_distribution.get(id, &recipient) {
            Some(a) => a,
            None => return Err(DispatchError::Module(Error::DistributionDoesNotExist)),
        };
        let t = AssetTransfer {
            asset: info.asset_id,
            source: info.stash_account,
            dest: recipient,
            amount,
            preservation: Preservation::Expendable,
        };
        transfer(t)?;
        let _ = self.asset_distribution.take(id, &recipient);
        self.events.push(Event::DistributionClaimed { id, recipient, amount });
        Ok(())
    }

    /// Configures distribution `id`, which must be crowdfunded, as a crowdfund in its `Raising`
    /// phase with the given bounds and end block; only its creator may, and only once. None of the
    /// bounds may be zero.
    pub fn configure_crowdfund(
        &mut self,
        origin: Origin,
        id: DistributionId,
        fund_min: Balance,
        fund_max: Option<Balance>,
        min_contribution: Balance,
        max_contribution: Option<Balance>,
        end_block: RelayChainBlockNumber,
    ) -> (r: DispatchResult)
        requires
            old(self).wf(),
        ensures
            final(self).wf(),
            (final(self)@, r) == settle_unit(
                old(self)@,
                configure_crowdfund_step(
                    old(self)@,
                    origin,
                    id,
                    fund_min,
                    fund_max,
                    min_contribution,
                    max_contribution,
                    end_block,
                ),
            ),
    {
        let who = ensure_signed(origin)?;
        if let Some(max) = max_contribution {
            if max == 0 {
                return Err(DispatchError::Module(Error::ZeroNotAllowed));
            }
        }
        if let Some(max) = fund_max {
            if max == 0 {
                return Err(DispatchError::Module(Error::ZeroNotAllowed));
            }
        }
        if min_contribution == 0 || fund_min == 0 {
            return Err(DispatchError::Module(Error::ZeroNotAllowed));
        }
        let info = self.info_of(id)?;
        if !info.crowdfunded {
            return Err(DispatchError::Module(Error::NotCrowdfunded));
        }
        if !account_eq(&who, &info.creator) {
            return Err(DispatchError::Module(Error::CreatorOnly));
        }
        if self.crowdfund_infos.contains_key(&id) {
            return Err(DispatchError::Module(Error::CrowdfundAlreadyConfigured));
        }
        let crowdfund_info = CrowdfundInfo {
            phase: CrowdfundPhase::Raising,
            fund_min,
            fund_max,
            min_contribution,
            max_contribution,
            total_contributed: 0,
            total_claimed: 0,
            end_block,
        };
        self.crowdfund_infos.insert(id, crowdfund_info);
        self.events.push(
            Event::CrowdfundConfigured { id, fund_min, fund_max, min_contribution, max_contribution },
        );
        Ok(())
    }

    /// Moves crowdfund `id` out of its `Raising` phase when it may leave it at relay block
    /// `last_relay_block_number`: to `Distributing` early when no further minimum contribution
    /// fits under the maximum contribution; otherwise, once the raising period is over, to
    /// `Distributing` when at least `fund_min` was raised and to `Failed` when not. Other phases
    /// are left as they are. Anyone may call it.
    pub fn crowdfund_next_phase(
        &mut self,
        origin: Origin,
        id: DistributionId,
        last_relay_block_number: RelayChainBlockNumber,
    ) -> (r: DispatchResult)
        requires
            old(self).wf(),
        ensures
            final(self).wf(),
            (final(self)@, r) == settle_unit(
                old(self)@,
                crowdfund_next_phase_step(old(self)@, origin, id, last_relay_block_number),
            ),
    {
        ensure_signed(origin)?;
        let crowdfund_info = self.crowdfund_of(id)?;
        let new_phase = match crowdfund_info.phase {
            CrowdfundPhase::Raising => {
                let contributions_full = match crowdfund_info.max_contribution {
                    Some(max_contribution) => match crowdfund_info.total_contributed.checked_add(
                        crowdfund_info.min_contribution,
                    ) {
                        Some(total_plus_one) => total_plus_one > max_contribution,
                        None => true,
                    },
                    None => false,
                };
                if contributions_full {
                    CrowdfundPhase::Distributing
                } else {
                    if last_relay_block_number <= crowdfund_info.end_block {
                        return Err(DispatchError::Module(Error::ContributionPeriodOngoing));
                    }
                    if crowdfund_info.total_contributed >= crowdfund_info.fund_min {
                        CrowdfundPhase::Distributing
                    } else {
                        CrowdfundPhase::Failed
                    }
                }
            },
            phase => phase,
        };
        if crowdfund_info.phase != new_phase {
            self.crowdfund_infos.insert(id, CrowdfundInfo { phase: new_phase, ..crowdfund_info });
            self.events.push(Event::NewCrowdfundPhase { id, new_phase });
        }
        Ok(())
    }

    /// Contributes `amount` native tokens of the signer to crowdfund `id` while it is raising and
    /// its period (up to relay block `end_block`) is open at `last_relay_block_number`, within the
    /// per-contribution and total bounds. The tokens move to the stash account through
    /// `transfer`, the balances pallet's transfer; the signer's recorded contribution and the
    /// crowdfund's total then both grow by `amount`.
    pub fn contribute_crowdfund(
        &mut self,
        origin: Origin,
        id: DistributionId,
        amount: Balance,
        last_relay_block_number: RelayChainBlockNumber,
        transfer: impl FnOnce(NativeTransfer) -> DispatchResult,
    ) -> (r: DispatchResult)
        requires
            old(self).wf(),
            forall|t: NativeTransfer| transfer.requires((t,)),
        ensures
            final(self).wf(),
            match contribute_crowdfund_step(old(self)@, origin, id, amount, last_relay_block_number) {
                Err(e) => r == Err::<(), DispatchError<Error>>(e) && final(self)@ == old(self)@,
                Ok((post, t)) => transfer.ensures((t,), r) && final(self)@ == if r is Ok {
                    post
                } else {
                    old(self)@
                },
            },
    {
        let who = ensure_signed(origin)?;
        let mut crowdfund_info = self.crowdfund_of(id)?;
        if crowdfund_info.phase != CrowdfundPhase::Raising {
            return Err(DispatchError::Module(Error::WrongPhase));
        }
        if let Some(max) = crowdfund_info.max_contribution {
            if max < amount {
                return Err(DispatchError::Module(Error::ContributionTooBig));
            }
        }
        if crowdfund_info.min_contribution > amount {
            return Err(DispatchError::Module(Error::ContributionTooSmall));
        }
        let new_total_contributed = match crowdfund_info.total_contributed.checked_add(amount) {
            Some(total) => total,
            None => return Err(DispatchError::Arithmetic(ArithmeticError::Overflow)),
        };
        let earlier = match self.crowdfund_contributions.get(id, &who) {
            Some(a) => a,
            None => 0,
        };
        let new_record = match earlier.checked_add(amount) {
            Some(total) => total,
            None => return Err(DispatchError::Arithmetic(ArithmeticError::Overflow)),
        };
        if let Some(max) = crowdfund_info.fund_max {
            if max < new_total_contributed {
                return Err(DispatchError::Module(Error::ContributionLimitReached));
            }
        }
        if last_relay_block_number > crowdfund_info.end_block {
            return Err(DispatchError::Module(Error::ContributionPeriodEnded));
        }
        let info = self.info_of(id)?;
        transfer(
            NativeTransfer {
                source: who,
                dest: info.stash_account,
                amount,
                preservation: Preservation::Preserve,
            },
        )?;
        self.crowdfund_contributions.insert(id, who, new_record);
        crowdfund_info.total_contributed = new_total_contributed;
        self.crowdfund_infos.insert(id, crowdfund_info);
        Ok(())
    }

    /// Pays `recipient` its share of the tokens in the stash of crowdfund `id` while it is
    /// distributing, once the raising period is over at `last_relay_block_number`: the fraction, in parts per billion rounded
    /// down, that its contribution makes of the contributions not yet claimed (a whole when it is
    /// larger), applied to `stash_balance`, the stash account's balance of the distributed asset,
    /// and rounded to the nearest token. The tokens move
    /// through `transfer`, the assets pallet's transfer; the contribution record is removed and
    /// counted as claimed. Anyone may call it.
    pub fn claim_crowdfund_distribution(
        &mut self,
        origin: Origin,
        id: DistributionId,
        recipient: AccountId,
        last_relay_block_number: RelayChainBlockNumber,
        stash_balance: Balance,
        transfer: impl FnOnce(AssetTransfer) -> DispatchResult,
    ) -> (r: DispatchResult)
        requires
            old(self).wf(),
            forall|t: AssetTransfer| transfer.requires((t,)),
        ensures
            final(self).wf(),
            match claim_crowdfund_distribution_step(
                old(self)@,
                origin,
                id,
                recipient,
                last_relay_block_number,
                stash_balance,
            ) {
                Err(e) => r == Err::<(), DispatchError<Error>>(e) && final(self)@ == old(self)@,
                Ok((post, t)) => transfer.ensures((t,), r) && final(self)@ == if r is Ok {
                    post
                } else {
                    old(self)@
                },
            },
    {
        ensure_signed(origin)?;
        let contribution_amount = match self.crowdfund_contributions.get(id, &recipient) {
            Some(a) => a,
            None => return Err(DispatchError::Module(Error::DistributionDoesNotExist)),
        };
        let mut crowdfund_info = self.crowdfund_of(id)?;
        if crowdfund_info.phase != CrowdfundPhase::Distributing {
            return Err(DispatchError::Module(Error::WrongPhase));
        }
        if last_relay_block_number <= crowdfund_info.end_block {
            return Err(DispatchError::Module(Error::ContributionPeriodOngoing));
        }
        let info = self.info_of(id)?;
        let claimable = match crowdfund_info.total_contributed.checked_sub(
            crowdfund_info.total_claimed,
        ) {
            Some(c) => c,
            None => return Err(DispatchError::Arithmetic(ArithmeticError::Underflow)),
        };
        if claimable == 0 {
            return Err(DispatchError::Module(Error::ZeroNotAllowed));
        }
        let new_total_claimed = match crowdfund_info.total_claimed.checked_add(contribution_amount) {
            Some(c) => c,
            None => return Err(DispatchError::Arithmetic(ArithmeticError::Overflow)),
        };
        let claim_parts = perbill_from_rational(contribution_amount, claimable);
        proof {
            crate::perbill::lemma_from_rational_parts_bounded(contribution_amount, claimable);
        }
        let claimable_tokens = perbill_mul(claim_parts, stash_balance);
        transfer(
            AssetTransfer {
                asset: info.asset_id,
                source: info.stash_account,
                dest: recipient,
                amount: claimable_tokens,
                preservation: Preservation::Expendable,
            },
        )?;
        let _ = self.crowdfund_contributions.take(id, &recipient);
        crowdfund_info.total_claimed = new_total_claimed;
        self.crowdfund_infos.insert(id, crowdfund_info);
        Ok(())
    }

    /// The id the next distribution will take.
    pub fn next_distribution_id(&self) -> (r: DistributionId)
        ensures
            r == self@.next_distribution_id,
    {
        self.next_distribution_id
    }

    /// The info of distribution `id`.
    pub fn distribution_info(&self, id: DistributionId) -> (r: Option<DistributionInfo>)
        ensures
            r == if self@.distribution_infos.contains_key(id) {
                Some(self@.distribution_infos[id])
            } else {
                None::<DistributionInfo>
            },
    {
        match self.distribution_infos.get(&id) {
            Some(info) => Some(*info),
            None => None,
        }
    }

    /// The crowdfund info of distribution `id`.
    pub fn crowdfund_info(&self, id: DistributionId) -> (r: Option<CrowdfundInfo>)
        ensures
            r == if self@.crowdfund_infos.contains_key(id) {
                Some(self@.crowdfund_infos[id])
            } else {
                None::<CrowdfundInfo>
            },
    {
        match self.crowdfund_infos.get(&id) {
            Some(info) => Some(*info),
            None => None,
        }
    }

    /// The recorded contribution of `who` to crowdfund `id`.
    pub fn crowdfund_contribution(&self, id: DistributionId, who: &AccountId) -> (r: Option<Balance>)
        requires
            self.wf(),
        ensures
            r == if self@.crowdfund_contributions.contains_key((id, *who)) {
                Some(self@.crowdfund_contributions[(id, *who)])
            } else {
                None::<Balance>
            },
    {
        self.crowdfund_contributions.get(id, who)
    }

    /// The entry of `who` in distribution `id`.
    pub fn asset_distribution(&self, id: DistributionId, who: &AccountId) -> (r: Option<Balance>)
        requires
            self.wf(),
        ensures
            r == if self@.asset_distribution.contains_key((id, *who)) {
                Some(self@.asset_distribution[(id, *who)])
            } else {
                None::<Balance>
            },
    {
        self.asset_distribution.get(id, who)
    }

    /// The events deposited so far, oldest first.
    pub fn events(&self) -> (r: &Vec<Event>)
        ensures
            r@ == self@.events,
    {
        &self.events
    }

    /// Lets the creator of crowdfund `id` withdraw the raised native funds from the stash, through
    /// `transfer`, the balances pallet's transfer: only while the crowdfund is distributing and
    /// after every contributor has claimed. The crowdfund then has `Ended`.
    pub fn claim_crowdfund_raise(
        &mut self,
        origin: Origin,
        id: DistributionId,
        transfer: impl FnOnce(NativeTransfer) -> DispatchResult,
    ) -> (r: DispatchResult)
        requires
            old(self).wf(),
            forall|t: NativeTransfer| transfer.requires((t,)),
        ensures
            final(self).wf(),
            match claim_crowdfund_raise_step(old(self)@, origin, id) {
                Err(e) => r == Err::<(), DispatchError<Error>>(e) && final(self)@ == old(self)@,
                Ok((post, t)) => transfer.ensures((t,), r) && final(self)@ == if r is Ok {
                    post
                } else {
                    old(self)@
                },
            },
    {
        let who = ensure_signed(origin)?;
        let mut crowdfund_info = self.crowdfund_of(id)?;
        let info = self.info_of(id)?;
        if !account_eq(&who, &info.creator) {
            return Err(DispatchError::Module(Error::CreatorOnly));
        }
        if crowdfund_info.phase != CrowdfundPhase::Distributing {
            return Err(DispatchError::Module(Error::WrongPhase));
        }
        if crowdfund_info.total_claimed != crowdfund_info.total_contributed {
            return Err(DispatchError::Module(Error::ClaimsOutstanding));
        }
        transfer(
            NativeTransfer {
                source: info.stash_account,
                dest: who,
                amount: crowdfund_info.total_contributed,
                preservation: Preservation::Expendable,
            },
        )?;
        crowdfund_info.phase = CrowdfundPhase::Ended;
        self.crowdfund_infos.insert(id, crowdfund_info);
        self.events.push(Event::NewCrowdfundPhase { id, new_phase: CrowdfundPhase::Ended });
        Ok(())
    }
}

} // verus!

verus! {

/// The pallet's storage is coherent: ids below the next id, crowdfunds only for crowdfunded
/// distributions, entries only where the calls that write them allow, totals within `fund_max`,
/// and each distribution's stash the account derived from its id.
pub open spec fn consistent(s: DistributionState) -> bool {
    &&& forall|id: DistributionId| #[trigger]
        s.distribution_infos.contains_key(id) ==> id < s.next_distribution_id
    &&& forall|id: DistributionId| #[trigger]
        s.distribution_infos.contains_key(id) ==> s.distribution_infos[id].stash_account
            == stash_account_of(id)
    &&& forall|id: DistributionId| #[trigger]
        s.crowdfund_infos.contains_key(id) ==> s.distribution_infos.contains_key(id)
            && s.distribution_infos[id].crowdfunded && !exceeds_bound(
            s.crowdfund_infos[id].total_contributed as int,
            s.crowdfund_infos[id].fund_max,
        )
    &&& forall|k: BookKey| #[trigger]
        s.asset_distribution.contains_key(k) ==> s.distribution_infos.contains_key(k.0)
            && !s.distribution_infos[k.0].crowdfunded
    &&& forall|k: BookKey| #[trigger]
        s.crowdfund_contributions.contains_key(k) ==> s.crowdfund_infos.contains_key(k.0)
}

/// The pallet at genesis is coherent.
pub proof fn lemma_genesis_consistent(s: DistributionState)
    requires
        s.next_distribution_id == 0,
        s.distribution_infos == Map::<DistributionId, DistributionInfo>::empty(),
        s.crowdfund_infos == Map::<DistributionId, CrowdfundInfo>::empty(),
        s.crowdfund_contributions == Map::<BookKey, Balance>::empty(),
        s.asset_distribution == Map::<BookKey, Balance>::empty(),
    ensures
        consistent(s),
{
}

/// A new distribution takes the next id, which no distribution had, and the stash derived from
/// it; the next id grows by one.
pub proof fn lemma_create_distribution_fresh_id(
    s: DistributionState,
    origin: Origin,
    asset_id: AssetId,
    crowdfunded: bool,
)
    requires
        consistent(s),
        create_distribution_step(s, origin, asset_id, crowdfunded) is Ok,
    ensures
        ({
            let post = create_distribution_step(s, origin, asset_id, crowdfunded)->Ok_0;
            let id = s.next_distribution_id;
            &&& !s.distribution_infos.contains_key(id)
            &&& post.next_distribution_id == id + 1
            &&& post.distribution_infos.contains_key(id)
            &&& post.distribution_infos[id].stash_account == stash_account_of(id)
            &&& post.distribution_infos[id].creator == signer(origin)->Some_0
            &&& post.distribution_infos[id].asset_id == asset_id
            &&& post.distribution_infos[id].crowdfunded == crowdfunded
            &&& post.distribution_infos.remove(id) == s.distribution_infos
            &&& consistent(post)
        }),
{
    let post = create_distribution_step(s, origin, asset_id, crowdfunded)->Ok_0;
    assert(post.distribution_infos.remove(s.next_distribution_id) =~= s.distribution_infos);
}

/// Writing entries keeps the storage coherent.
pub(crate) proof fn lemma_allocate_all_consistent(
    s: DistributionState,
    id: DistributionId,
    recipients: Seq<(AccountId, Balance)>,
)
    requires
        consistent(s),
        s.distribution_infos.contains_key(id),
        !s.distribution_infos[id].crowdfunded,
    ensures
        consistent(allocate_all(s, id, recipients)),
        allocate_all(s, id, recipients).distribution_infos == s.distribution_infos,
        allocate_all(s, id, recipients).crowdfund_infos == s.crowdfund_infos,
        allocate_all(s, id, recipients).crowdfund_contributions == s.crowdfund_contributions,
        allocate_all(s, id, recipients).next_distribution_id == s.next_distribution_id,
    decreases recipients.len(),
{
    if recipients.len() > 0 {
        lemma_allocate_all_consistent(s, id, recipients.drop_last());
    }
}

/// Every call keeps the storage coherent.
pub proof fn lemma_calls_keep_consistency(
    s: DistributionState,
    origin: Origin,
    id: DistributionId,
    asset_id: AssetId,
    crowdfunded: bool,
    account: AccountId,
    amount: Balance,
    recipients: Seq<(AccountId, Balance)>,
    fund_min: Balance,
    fund_max: Option<Balance>,
    min_contribution: Balance,
    max_contribution: Option<Balance>,
    end_block: RelayChainBlockNumber,
    relay_block: RelayChainBlockNumber,
    stash_balance: Balance,
)
    requires
        consistent(s),
    ensures
        create_distribution_step(s, origin, asset_id, crowdfunded) is Ok ==> consistent(
            create_distribution_step(s, origin, asset_id, crowdfunded)->Ok_0,
        ),
        add_distribution_step(s, origin, id, account, amount) is Ok ==> consistent(
            add_distribution_step(s, origin, id, account, amount)->Ok_0,
        ),
        add_distributions_step(s, origin, id, recipients) is Ok ==> consistent(
            add_distributions_step(s, origin, id, recipients)->Ok_0,
        ),
        claim_distribution_step(s, origin, id, account) is Ok ==> consistent(
            claim_distribution_step(s, origin, id, account)->Ok_0.0,
        ),
        configure_crowdfund_step(
            s,
            origin,
            id,
            fund_min,
            fund_max,
            min_contribution,
            max_contribution,
            end_block,
        ) is Ok ==> consistent(
            configure_crowdfund_step(
                s,
                origin,
                id,
                fund_min,
                fund_max,
                min_contribution,
                max_contribution,
                end_block,
            )->Ok_0,
        ),
        crowdfund_next_phase_step(s, origin, id, relay_block) is Ok ==> consistent(
            crowdfund_next_phase_step(s, origin, id, relay_block)->Ok_0,
        ),
        contribute_crowdfund_step(s, origin, id, amount, relay_block) is Ok ==> consistent(
            contribute_crowdfund_step(s, origin, id, amount, relay_block)->Ok_0.0,
        ),
        claim_crowdfund_distribution_step(s, origin, id, account, relay_block, stash_balance) is Ok
            ==> consistent(
            claim_crowdfund_distribution_step(
                s,
                origin,
                id,
                account,
                relay_block,
                stash_balance,
            )->Ok_0.0,
        ),
        claim_crowdfund_raise_step(s, origin, id) is Ok ==> consistent(
            claim_crowdfund_raise_step(s, origin, id)->Ok_0.0,
        ),
{
    if add_distributions_step(s, origin, id, recipients) is Ok {
        lemma_allocate_all_consistent(s, id, recipients);
    }
    if add_distribution_step(s, origin, id, account, amount) is Ok {
        lemma_allocate_all_consistent(s, id, seq![(account, amount)]);
        assert(seq![(account, amount)].drop_last() =~= Seq::<(AccountId, Balance)>::empty());
    }
}

/// An entry is paid at most once: after a successful claim, claiming the same entry again
/// fails with `DistributionDoesNotExist`, whoever calls.
pub proof fn lemma_claim_distribution_once(
    s: DistributionState,
    origin: Origin,
    id: DistributionId,
    recipient: AccountId,
    caller: AccountId,
)
    requires
        claim_distribution_step(s, origin, id, recipient) is Ok,
    ensures
        claim_distribution_step(
            claim_distribution_step(s, origin, id, recipient)->Ok_0.0,
            Origin::Signed(caller),
            id,
            recipient,
        ) == module_err::<(DistributionState, AssetTransfer)>(Error::DistributionDoesNotExist),
{
}

/// A claim pays what the creator last wrote: after `add_distribution` of `recipient: amount`,
/// a claim of that entry asks the assets pallet to move exactly `amount` of the distribution's
/// asset from its stash to `recipient`.
pub proof fn lemma_claim_pays_added_amount(
    s: DistributionState,
    creator: Origin,
    id: DistributionId,
    recipient: AccountId,
    amount: Balance,
    caller: AccountId,
)
    requires
        add_distribution_step(s, creator, id, recipient, amount) is Ok,
    ensures
        ({
            let post = add_distribution_step(s, creator, id, recipient, amount)->Ok_0;
            let info = s.distribution_infos[id];
            &&& claim_distribution_step(post, Origin::Signed(caller), id, recipient) is Ok
            &&& claim_distribution_step(post, Origin::Signed(caller), id, recipient)->Ok_0.1
                == AssetTransfer {
                asset: info.asset_id,
                source: info.stash_account,
                dest: recipient,
                amount,
                preservation: Preservation::Expendable,
            }
        }),
{
}

/// A crowdfund only leaves `Raising`: once in another phase, `crowdfund_next_phase` changes
/// nothing; from `Raising` it moves to `Distributing` or `Failed`, or stays while the raising
/// period is open.
pub proof fn lemma_next_phase_only_leaves_raising(
    s: DistributionState,
    origin: Origin,
    id: DistributionId,
    relay_block: RelayChainBlockNumber,
)
    requires
        crowdfund_next_phase_step(s, origin, id, relay_block) is Ok,
    ensures
        ({
            let post = crowdfund_next_phase_step(s, origin, id, relay_block)->Ok_0;
            let phase = s.crowdfund_infos[id].phase;
            &&& phase != CrowdfundPhase::Raising ==> post == s
            &&& phase == CrowdfundPhase::Raising ==> post.crowdfund_infos[id].phase
                == CrowdfundPhase::Distributing || post.crowdfund_infos[id].phase
                == CrowdfundPhase::Failed
            &&& post.crowdfund_infos.dom() == s.crowdfund_infos.dom()
        }),
{
    let post = crowdfund_next_phase_step(s, origin, id, relay_block)->Ok_0;
    assert(post.crowdfund_infos.dom() =~= s.crowdfund_infos.dom());
}

/// An accepted contribution lies within the crowdfund's bounds: at least `min_contribution`, at
/// most `max_contribution`, made while raising and before the end block, and the new total, which
/// grows by exactly the contribution, stays within `fund_max`.
pub proof fn lemma_accepted_contribution_within_bounds(
    s: DistributionState,
    origin: Origin,
    id: DistributionId,
    amount: Balance,
    relay_block: RelayChainBlockNumber,
)
    requires
        contribute_crowdfund_step(s, origin, id, amount, relay_block) is Ok,
    ensures
        ({
            let post = contribute_crowdfund_step(s, origin, id, amount, relay_block)->Ok_0.0;
            let cf = s.crowdfund_infos[id];
            &&& cf.phase == CrowdfundPhase::Raising
            &&& relay_block <= cf.end_block
            &&& cf.min_contribution <= amount
            &&& match cf.max_contribution {
                Some(max) => amount <= max,
                None => true,
            }
            &&& post.crowdfund_infos[id].total_contributed == cf.total_contributed + amount
            &&& match cf.fund_max {
                Some(max) => post.crowdfund_infos[id].total_contributed <= max,
                None => true,
            }
            &&& s.distribution_infos.contains_key(id)
            &&& post.crowdfund_contributions[(id, signer(origin)->Some_0)] == (
            if s.crowdfund_contributions.contains_key((id, signer(origin)->Some_0)) {
                s.crowdfund_contributions[(id, signer(origin)->Some_0)] as int
            } else {
                0
            }) + amount
        }),
{
}

/// A crowdfund claim never asks for more tokens than the stash holds, and the claimant whose
/// contribution is all that remains unclaimed receives the stash's whole balance.
pub proof fn lemma_claim_share_within_stash(
    s: DistributionState,
    origin: Origin,
    id: DistributionId,
    recipient: AccountId,
    relay_block: RelayChainBlockNumber,
    stash_balance: Balance,
)
    requires
        claim_crowdfund_distribution_step(s, origin, id, recipient, relay_block, stash_balance) is Ok,
    ensures
        ({
            let t = claim_crowdfund_distribution_step(
                s,
                origin,
                id,
                recipient,
                relay_block,
                stash_balance,
            )->Ok_0.1;
            let cf = s.crowdfund_infos[id];
            &&& t.amount <= stash_balance
            &&& s.crowdfund_contributions[(id, recipient)] == cf.total_contributed - cf.total_claimed
                ==> t.amount == stash_balance
        }),
{
    let cf = s.crowdfund_infos[id];
    let contribution = s.crowdfund_contributions[(id, recipient)];
    let claimable = (cf.total_contributed - cf.total_claimed) as u128;
    crate::perbill::lemma_from_rational_parts_bounded(contribution, claimable);
    crate::perbill::lemma_mul_parts_bounded(
        from_rational_parts(contribution, claimable) as u32,
        stash_balance,
    );
    if contribution == claimable {
        crate::perbill::lemma_from_rational_whole(contribution);
        crate::perbill::lemma_mul_whole(stash_balance);
    }
}

/// A contribution is claimed at most once: after a successful claim, claiming it again fails with
/// `DistributionDoesNotExist`, whoever calls.
pub proof fn lemma_claim_crowdfund_once(
    s: DistributionState,
    origin: Origin,
    id: DistributionId,
    recipient: AccountId,
    relay_block: RelayChainBlockNumber,
    stash_balance: Balance,
    caller: AccountId,
    later_block: RelayChainBlockNumber,
    later_balance: Balance,
)
    requires
        claim_crowdfund_distribution_step(s, origin, id, recipient, relay_block, stash_balance) is Ok,
    ensures
        claim_crowdfund_distribution_step(
            claim_crowdfund_distribution_step(
                s,
                origin,
                id,
                recipient,
                relay_block,
                stash_balance,
            )->Ok_0.0,
            Origin::Signed(caller),
            id,
            recipient,
            later_block,
            later_balance,
        ) == module_err::<(DistributionState, AssetTransfer)>(Error::DistributionDoesNotExist),
{
}

/// A crowdfund is configured once: a successful configuration finds none for the id, and a
/// configured crowdfund is never replaced.
pub proof fn lemma_crowdfund_configured_once(
    s: DistributionState,
    origin: Origin,
    id: DistributionId,
    fund_min: Balance,
    fund_max: Option<Balance>,
    min_contribution: Balance,
    max_contribution: Option<Balance>,
    end_block: RelayChainBlockNumber,
)
    ensures
        configure_crowdfund_step(
            s,
            origin,
            id,
            fund_min,
            fund_max,
            min_contribution,
            max_contribution,
            end_block,
        ) is Ok ==> !s.crowdfund_infos.contains_key(id),
        s.crowdfund_infos.contains_key(id) ==> configure_crowdfund_step(
            s,
            origin,
            id,
            fund_min,
            fund_max,
            min_contribution,
            max_contribution,
            end_block,
        ) is Err,
{
}

/// Crowdfund tokens leave the stash only while the crowdfund is distributing.
pub proof fn lemma_claims_only_while_distributing(
    s: DistributionState,
    origin: Origin,
    id: DistributionId,
    recipient: AccountId,
    relay_block: RelayChainBlockNumber,
    stash_balance: Balance,
)
    requires
        s.crowdfund_infos.contains_key(id),
        s.crowdfund_infos[id].phase != CrowdfundPhase::Distributing,
        signer(origin) is Some,
        s.crowdfund_contributions.contains_key((id, recipient)),
    ensures
        claim_crowdfund_distribution_step(s, origin, id, recipient, relay_block, stash_balance)
            == module_err::<(DistributionState, AssetTransfer)>(Error::WrongPhase),
{
}

/// The raised funds go to the creator once, in full, after every contributor has claimed: a
/// successful withdrawal is the creator's, of a distributing crowdfund whose contributions are all
/// claimed; it moves the whole raise from the stash to the creator and ends the crowdfund, after
/// which a second withdrawal is refused.
pub proof fn lemma_raise_once_after_all_claims(
    s: DistributionState,
    origin: Origin,
    id: DistributionId,
    caller: Origin,
)
    requires
        claim_crowdfund_raise_step(s, origin, id) is Ok,
        signer(caller) is Some,
    ensures
        ({
            let (post, t) = claim_crowdfund_raise_step(s, origin, id)->Ok_0;
            let cf = s.crowdfund_infos[id];
            let info = s.distribution_infos[id];
            &&& signer(origin) == Some(info.creator)
            &&& cf.phase == CrowdfundPhase::Distributing
            &&& cf.total_claimed == cf.total_contributed
            &&& t == NativeTransfer {
                source: info.stash_account,
                dest: info.creator,
                amount: cf.total_contributed,
                preservation: Preservation::Expendable,
            }
            &&& post.crowdfund_infos[id].phase == CrowdfundPhase::Ended
            &&& claim_crowdfund_raise_step(post, caller, id) is Err
        }),
{
}

/// The result of calling `add_distribution` for each entry of `recipients`, in order, stopping at
/// the first error.
pub open spec fn add_each(
    s: DistributionState,
    origin: Origin,
    id: DistributionId,
    recipients: Seq<(AccountId, Balance)>,
) -> Result<DistributionState, DispatchError<Error>>
    decreases recipients.len(),
{
    if recipients.len() == 0 {
        Ok(s)
    } else {
        match add_each(s, origin, id, recipients.drop_last()) {
            Err(e) => Err(e),
            Ok(s1) => add_distribution_step(s1, origin, id, recipients.last().0, recipients.last().1),
        }
    }
}

/// Writing entries leaves the distributions themselves alone.
proof fn lemma_allocate_all_keeps_infos(
    s: DistributionState,
    id: DistributionId,
    recipients: Seq<(AccountId, Balance)>,
)
    ensures
        allocate_all(s, id, recipients).distribution_infos == s.distribution_infos,
    decreases recipients.len(),
{
    if recipients.len() > 0 {
        lemma_allocate_all_keeps_infos(s, id, recipients.drop_last());
    }
}

/// `add_distributions` with a non-empty list does what calling `add_distribution` for each entry,
/// in order, does: the same result, storage and events (the shared checks pass for all entries or
/// fail at the first). With an empty list it only makes the checks.
pub proof fn lemma_add_distributions_is_each_add(
    s: DistributionState,
    origin: Origin,
    id: DistributionId,
    recipients: Seq<(AccountId, Balance)>,
)
    ensures
        recipients.len() > 0 ==> add_distributions_step(s, origin, id, recipients) == add_each(
            s,
            origin,
            id,
            recipients,
        ),
        recipients.len() == 0 ==> add_distributions_step(s, origin, id, recipients) == match allocation_check(
            s,
            origin,
            id,
        ) {
            Ok(()) => Ok(s),
            Err(e) => Err::<DistributionState, DispatchError<Error>>(e),
        },
    decreases recipients.len(),
{
    if recipients.len() > 0 {
        let prefix = recipients.drop_last();
        lemma_add_distributions_is_each_add(s, origin, id, prefix);
        lemma_allocate_all_keeps_infos(s, id, prefix);
        if allocation_check(s, origin, id) is Ok {
            assert(allocation_check(allocate_all(s, id, prefix), origin, id) == allocation_check(
                s,
                origin,
                id,
            ));
        }
    }
}

/// Different distributions have different stash accounts: the stash's bytes hold the id in full
/// (19 bytes of seed, no truncation).
pub proof fn lemma_stash_accounts_distinct(id1: DistributionId, id2: DistributionId)
    requires
        id1 != id2,
    ensures
        stash_bytes(id1) != stash_bytes(id2),
        stash_account_of(id1) != stash_account_of(id2),
{
    let seed1 = modl() + DISTRIBUTION_PALLET_ID@ + seq![8u8, 115u8, 97u8] + u32_le(id1);
    let seed2 = modl() + DISTRIBUTION_PALLET_ID@ + seq![8u8, 115u8, 97u8] + u32_le(id2);
    assert(seed1.len() == 19 && seed2.len() == 19);
    if stash_bytes(id1) == stash_bytes(id2) {
        assert(u32_le(id1) =~= stash_bytes(id1).subrange(15, 19));
        assert(u32_le(id2) =~= stash_bytes(id2).subrange(15, 19));
        crate::accounts::lemma_u32_le_injective(id1, id2);
    }
    lemma_account_of(stash_bytes(id1));
    lemma_account_of(stash_bytes(id2));
}

/// In coherent storage, two distributions never share a stash account.
pub proof fn lemma_distributions_have_own_stash(
    s: DistributionState,
    id1: DistributionId,
    id2: DistributionId,
)
    requires
        consistent(s),
        s.distribution_infos.contains_key(id1),
        s.distribution_infos.contains_key(id2),
        id1 != id2,
    ensures
        s.distribution_infos[id1].stash_account != s.distribution_infos[id2].stash_account,
{
    lemma_stash_accounts_distinct(id1, id2);
}

/// A crowdfund claim pays the claimant their own share of the stash: the `Perbill` ratio of their
/// recorded contribution to what was still unclaimed before the claim, times the stash balance.
/// The tokens go from the distribution's stash to the claimant, the claimed total grows by the
/// contribution, and the contribution's record is gone.
pub proof fn lemma_crowdfund_claim_pays_own_share(
    s: DistributionState,
    origin: Origin,
    id: DistributionId,
    recipient: AccountId,
    relay_block: RelayChainBlockNumber,
    stash_balance: Balance,
)
    requires
        claim_crowdfund_distribution_step(s, origin, id, recipient, relay_block, stash_balance) is Ok,
    ensures
        ({
            let (post, t) = claim_crowdfund_distribution_step(
                s,
                origin,
                id,
                recipient,
                relay_block,
                stash_balance,
            )->Ok_0;
            let cf = s.crowdfund_infos[id];
            let c = s.crowdfund_contributions[(id, recipient)];
            let unclaimed = (cf.total_contributed - cf.total_claimed) as u128;
            &&& s.crowdfund_contributions.contains_key((id, recipient))
            &&& cf.total_claimed < cf.total_contributed
            &&& t.amount == mul_parts(from_rational_parts(c, unclaimed) as u32, stash_balance)
            &&& t.asset == s.distribution_infos[id].asset_id
            &&& t.source == s.distribution_infos[id].stash_account
            &&& t.dest == recipient
            &&& t.preservation == Preservation::Expendable
            &&& cf.phase == CrowdfundPhase::Distributing
            &&& relay_block > cf.end_block
            &&& post.crowdfund_infos[id].total_claimed == cf.total_claimed + c
            &&& post.crowdfund_infos[id].total_contributed == cf.total_contributed
            &&& !post.crowdfund_contributions.contains_key((id, recipient))
        }),
{
    let cf = s.crowdfund_infos[id];
    let c = s.crowdfund_contributions[(id, recipient)];
    let unclaimed = (cf.total_contributed - cf.total_claimed) as u128;
    crate::perbill::lemma_from_rational_parts_bounded(c, unclaimed);
    crate::perbill::lemma_mul_parts_bounded(from_rational_parts(c, unclaimed) as u32, stash_balance);
}

/// Two crowdfund claims of equal contributions, out of equal unclaimed totals and equal stash
/// balances, pay the same, however much was claimed before each.
pub proof fn lemma_crowdfund_claim_depends_on_own_contribution(
    s1: DistributionState,
    s2: DistributionState,
    origin: Origin,
    id: DistributionId,
    recipient1: AccountId,
    recipient2: AccountId,
    relay_block: RelayChainBlockNumber,
    stash_balance: Balance,
)
    requires
        claim_crowdfund_distribution_step(s1, origin, id, recipient1, relay_block, stash_balance) is Ok,
        claim_crowdfund_distribution_step(s2, origin, id, recipient2, relay_block, stash_balance) is Ok,
        s1.crowdfund_contributions[(id, recipient1)] == s2.crowdfund_contributions[(id, recipient2)],
        s1.crowdfund_infos[id].total_contributed - s1.crowdfund_infos[id].total_claimed
            == s2.crowdfund_infos[id].total_contributed - s2.crowdfund_infos[id].total_claimed,
    ensures
        claim_crowdfund_distribution_step(
            s1,
            origin,
            id,
            recipient1,
            relay_block,
            stash_balance,
        )->Ok_0.1.amount == claim_crowdfund_distribution_step(
            s2,
            origin,
            id,
            recipient2,
            relay_block,
            stash_balance,
        )->Ok_0.1.amount,
{
    lemma_crowdfund_claim_pays_own_share(s1, origin, id, recipient1, relay_block, stash_balance);
    lemma_crowdfund_claim_pays_own_share(s2, origin, id, recipient2, relay_block, stash_balance);
}

/// Before its end block, a raising crowdfund leaves `Raising` only when it cannot take another
/// minimum contribution without passing `max_contribution`, and then it starts distributing; a
/// crowdfund that is not full is refused with `ContributionPeriodOngoing` and stays raising.
pub proof fn lemma_next_phase_early_only_when_full(
    s: DistributionState,
    who: AccountId,
    id: DistributionId,
    relay_block: RelayChainBlockNumber,
)
    requires
        s.crowdfund_infos.contains_key(id),
        s.crowdfund_infos[id].phase == CrowdfundPhase::Raising,
        relay_block <= s.crowdfund_infos[id].end_block,
    ensures
        ({
            let cf = s.crowdfund_infos[id];
            let step = crowdfund_next_phase_step(s, Origin::Signed(who), id, relay_block);
            let full = match cf.max_contribution {
                Some(max) => cf.total_contributed + cf.min_contribution > max,
                None => false,
            };
            &&& full ==> step is Ok && step->Ok_0.crowdfund_infos[id].phase
                == CrowdfundPhase::Distributing
            &&& !full ==> step == Err::<DistributionState, DispatchError<Error>>(
                DispatchError::Module(Error::ContributionPeriodOngoing),
            )
        }),
{
}

/// An accepted contribution asks for exactly one native transfer: the contributed amount, from
/// the signer to the distribution's stash, keeping the signer's account alive; the crowdfund's
/// total and the signer's record each grow by that amount.
pub proof fn lemma_contribution_transfers_its_amount(
    s: DistributionState,
    who: AccountId,
    id: DistributionId,
    amount: Balance,
    relay_block: RelayChainBlockNumber,
)
    requires
        contribute_crowdfund_step(s, Origin::Signed(who), id, amount, relay_block) is Ok,
    ensures
        ({
            let (post, t) = contribute_crowdfund_step(
                s,
                Origin::Signed(who),
                id,
                amount,
                relay_block,
            )->Ok_0;
            let before = if s.crowdfund_contributions.contains_key((id, who)) {
                s.crowdfund_contributions[(id, who)] as int
            } else {
                0
            };
            &&& t == NativeTransfer {
                source: who,
                dest: s.distribution_infos[id].stash_account,
                amount,
                preservation: Preservation::Preserve,
            }
            &&& post.crowdfund_infos[id].total_contributed == s.crowdfund_infos[id].total_contributed
                + t.amount
            &&& post.crowdfund_contributions[(id, who)] == before + t.amount
        }),
{
}

/// `fund_distribution` of an existing distribution by a signed origin always asks the assets
/// pallet to move `amount` of the distribution's asset from the signer to its stash, keeping the
/// signer's account alive, whether or not the distribution is crowdfunded.
pub proof fn lemma_fund_distribution_transfers_to_stash(
    s: DistributionState,
    from: AccountId,
    id: DistributionId,
    amount: Balance,
)
    requires
        s.distribution_infos.contains_key(id),
    ensures
        fund_distribution_step(s, Origin::Signed(from), id, amount) == Ok::<
            AssetTransfer,
            DispatchError<Error>,
        >(
            AssetTransfer {
                asset: s.distribution_infos[id].asset_id,
                source: from,
                dest: s.distribution_infos[id].stash_account,
                amount,
                preservation: Preservation::Protect,
            },
        ),
{
}

/// A contribution to a raising crowdfund is refused as too big exactly when the contribution
/// itself is above `max_contribution`, whatever the signer contributed before.
pub proof fn lemma_contribution_too_big_iff_above_max(
    s: DistributionState,
    who: AccountId,
    id: DistributionId,
    amount: Balance,
    relay_block: RelayChainBlockNumber,
)
    requires
        s.crowdfund_infos.contains_key(id),
        s.crowdfund_infos[id].phase == CrowdfundPhase::Raising,
    ensures
        (contribute_crowdfund_step(s, Origin::Signed(who), id, amount, relay_block) == Err::<
            (DistributionState, NativeTransfer),
            DispatchError<Error>,
        >(DispatchError::Module(Error::ContributionTooBig))) <==> (match s.crowdfund_infos[id].max_contribution {
            Some(max) => amount > max,
            None => false,
        }),
{
}

/// Once the end block has passed, a raising crowdfund always moves on: to `Distributing` when it
/// is full or raised at least `fund_min`, to `Failed` otherwise.
pub proof fn lemma_next_phase_after_end_block(
    s: DistributionState,
    who: AccountId,
    id: DistributionId,
    relay_block: RelayChainBlockNumber,
)
    requires
        s.crowdfund_infos.contains_key(id),
        s.crowdfund_infos[id].phase == CrowdfundPhase::Raising,
        relay_block > s.crowdfund_infos[id].end_block,
    ensures
        ({
            let cf = s.crowdfund_infos[id];
            let step = crowdfund_next_phase_step(s, Origin::Signed(who), id, relay_block);
            let full = match cf.max_contribution {
                Some(max) => cf.total_contributed + cf.min_contribution > max,
                None => false,
            };
            &&& step is Ok
            &&& step->Ok_0.crowdfund_infos[id].phase == if full || cf.total_contributed
                >= cf.fund_min {
                CrowdfundPhase::Distributing
            } else {
                CrowdfundPhase::Failed
            }
            &&& step->Ok_0.crowdfund_infos.remove(id) == s.crowdfund_infos.remove(id)
        }),
{
    let post = crowdfund_next_phase_step(s, Origin::Signed(who), id, relay_block)->Ok_0;
    assert(post.crowdfund_infos.remove(id) =~= s.crowdfund_infos.remove(id));
}

/// A contribution to a raising crowdfund that is not above `max_contribution` is refused as too
/// small exactly when it is below `min_contribution`.
pub proof fn lemma_contribution_too_small_iff_below_min(
    s: DistributionState,
    who: AccountId,
    id: DistributionId,
    amount: Balance,
    relay_block: RelayChainBlockNumber,
)
    requires
        s.crowdfund_infos.contains_key(id),
        s.crowdfund_infos[id].phase == CrowdfundPhase::Raising,
        match s.crowdfund_infos[id].max_contribution {
            Some(max) => amount <= max,
            None => true,
        },
    ensures
        (contribute_crowdfund_step(s, Origin::Signed(who), id, amount, relay_block) == Err::<
            (DistributionState, NativeTransfer),
            DispatchError<Error>,
        >(DispatchError::Module(Error::ContributionTooSmall))) <==> amount
            < s.crowdfund_infos[id].min_contribution,
{
}

/// The creator of a crowdfunded distribution configures its crowdfund once, with nonzero bounds:
/// the crowdfund then raises from nothing, with exactly the given bounds and end block. A
/// configuration succeeds only for the creator of a crowdfunded distribution.
pub proof fn lemma_configure_crowdfund_stores_bounds(
    s: DistributionState,
    origin: Origin,
    id: DistributionId,
    fund_min: Balance,
    fund_max: Option<Balance>,
    min_contribution: Balance,
    max_contribution: Option<Balance>,
    end_block: RelayChainBlockNumber,
)
    ensures
        ({
            let step = configure_crowdfund_step(
                s,
                origin,
                id,
                fund_min,
                fund_max,
                min_contribution,
                max_contribution,
                end_block,
            );
            let nonzero = fund_min != 0 && min_contribution != 0 && fund_max != Some(0u128)
                && max_contribution != Some(0u128);
            let allowed = s.distribution_infos.contains_key(id) && s.distribution_infos[id].crowdfunded
                && origin == Origin::Signed(s.distribution_infos[id].creator)
                && !s.crowdfund_infos.contains_key(id);
            &&& step is Ok <==> nonzero && allowed
            &&& step is Ok ==> step->Ok_0.crowdfund_infos == s.crowdfund_infos.insert(
                id,
                CrowdfundInfo {
                    phase: CrowdfundPhase::Raising,
                    fund_min,
                    fund_max,
                    min_contribution,
                    max_contribution,
                    total_contributed: 0,
                    total_claimed: 0,
                    end_block,
                },
            )
            &&& step is Ok ==> step->Ok_0.distribution_infos == s.distribution_infos
        }),
{
}

/// Anyone can claim an allocation: for an existing distribution with an entry for `recipient`,
/// the claim asks the assets pallet to move the entry's amount of the distribution's asset from
/// its stash to `recipient`, and removes the entry, leaving the others.
pub proof fn lemma_claim_distribution_pays_entry(
    s: DistributionState,
    caller: AccountId,
    id: DistributionId,
    recipient: AccountId,
)
    requires
        s.distribution_infos.contains_key(id),
        s.asset_distribution.contains_key((id, recipient)),
    ensures
        ({
            let step = claim_distribution_step(s, Origin::Signed(caller), id, recipient);
            let info = s.distribution_infos[id];
            &&& step is Ok
            &&& step->Ok_0.1 == AssetTransfer {
                asset: info.asset_id,
                source: info.stash_account,
                dest: recipient,
                amount: s.asset_distribution[(id, recipient)],
                preservation: Preservation::Expendable,
            }
            &&& step->Ok_0.0.asset_distribution == s.asset_distribution.remove((id, recipient))
            &&& step->Ok_0.0.distribution_infos == s.distribution_infos
        }),
{
}

/// Only the creator of a distribution that is not crowdfunded adds entries, and an entry added
/// replaces any earlier one for the same recipient, leaving the others.
pub proof fn lemma_add_distribution_writes_entry(
    s: DistributionState,
    origin: Origin,
    id: DistributionId,
    recipient: AccountId,
    amount: Balance,
)
    ensures
        ({
            let step = add_distribution_step(s, origin, id, recipient, amount);
            &&& step is Ok <==> s.distribution_infos.contains_key(id)
                && !s.distribution_infos[id].crowdfunded && origin == Origin::Signed(
                s.distribution_infos[id].creator,
            )
            &&& step is Ok ==> step->Ok_0.asset_distribution == s.asset_distribution.insert(
                (id, recipient),
                amount,
            )
            &&& step is Ok ==> step->Ok_0.distribution_infos == s.distribution_infos
            &&& step is Ok ==> step->Ok_0.crowdfund_infos == s.crowdfund_infos
        }),
{
}

} // verus!
