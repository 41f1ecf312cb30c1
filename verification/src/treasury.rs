//! The treasury pallet: spending proposals backed by a bond, and the pot that collects credits.
use vstd::prelude::*;
use vstd::hash_map::HashMapWithView;
use crate::accounts::{
    account_bytes, account_of, into_account_truncating, lemma_account_by_bytes, lemma_account_of, modl,
};
use crate::support::{
    ensure_signed, signer, AccountId, ArithmeticError, Balance, DispatchError, Origin, Payout,
};

verus! {

/// The pallet identifier from which the treasury account is derived (`b"dropit/t"`).
pub const TREASURY_PALLET_ID: [u8; 8] = [100, 114, 111, 112, 105, 116, 47, 116];

/// An index of a proposal.
pub type ProposalIndex = u32;

/// A reason for the pallet placing a hold on funds.
#[derive(Clone, Copy, Debug, PartialEq, Eq)]
pub enum HoldReason {
    /// Funds are held as the bond of a spending proposal.
    TreasuryProposal,
}

/// A spending proposal.
#[derive(Clone, Copy, Debug, PartialEq, Eq)]
pub struct Proposal {
    /// The account proposing it.
    pub proposer: AccountId,
    /// The (total) amount that should be paid if the proposal is accepted.
    pub value: Balance,
    /// The account to whom the payment should be made if the proposal is accepted.
    pub beneficiary: AccountId,
    /// The amount held on deposit (reserved) for making this proposal.
    pub bond: Balance,
}

/// Events deposited by the pallet.
#[derive(Clone, Copy, Debug, PartialEq, Eq)]
pub enum Event {
    /// New proposal.
    Proposed { proposal_index: ProposalIndex },
}

/// Errors of the pallet.
#[derive(Clone, Copy, Debug, PartialEq, Eq)]
pub enum Error {
    /// Proposer's balance is too low.
    InsufficientProposersBalance,
    /// No proposal, bounty or spend at that index.
    InvalidIndex,
}

/// The result of a call of this pallet.
pub type DispatchResult = Result<(), DispatchError<Error>>;

/// The pallet's configuration, storage and deposited events, as mathematical values.
pub struct TreasuryState {
    /// The bond held for every proposal (the runtime's `ProposalBondMinimum`).
    pub proposal_bond_minimum: Balance,
    pub proposal_count: ProposalIndex,
    pub proposals: Map<ProposalIndex, Proposal>,
    pub events: Seq<Event>,
}

/// The bond needed for a proposal that spends `value`: the fixed minimum bond.
pub open spec fn bond_for(s: TreasuryState, value: Balance) -> Balance {
    s.proposal_bond_minimum
}

/// What `propose_spend` does once the hold of the proposer's bond succeeded (`held`) or failed:
/// the new state, or the error. A failed hold is refused whatever the proposal count; a successful
/// hold with the count at its maximum is refused as an overflow, with nothing stored.
pub open spec fn propose_spend_step(
    s: TreasuryState,
    origin: Origin,
    value: Balance,
    beneficiary: AccountId,
    held: bool,
) -> Result<TreasuryState, DispatchError<Error>> {
    match signer(origin) {
        None => Err(DispatchError::BadOrigin),
        Some(proposer) => if !held {
            Err(DispatchError::Module(Error::InsufficientProposersBalance))
        } else if s.proposal_count == u32::MAX {
            Err(DispatchError::Arithmetic(ArithmeticError::Overflow))
        } else {
            let index = s.proposal_count;
            let proposal = Proposal { proposer, value, beneficiary, bond: bond_for(s, value) };
            Ok(
                TreasuryState {
                    proposal_count: (index + 1) as u32,
                    proposals: s.proposals.insert(index, proposal),
                    events: s.events.push(Event::Proposed { proposal_index: index }),
                    ..s
                },
            )
        },
    }
}

/// The state and result that `propose_spend` leaves.
pub open spec fn settle(pre: TreasuryState, step: Result<TreasuryState, DispatchError<Error>>) -> (
    TreasuryState,
    DispatchResult,
) {
    match step {
        Ok(post) => (post, Ok(())),
        Err(e) => (pre, Err(e)),
    }
}

/// The bytes of the treasury account: `"modl" ++ b"dropit/t"` followed by zeros.
pub open spec fn treasury_bytes() -> Seq<u8> {
    account_bytes(modl() + TREASURY_PALLET_ID@)
}

/// The treasury account.
pub open spec fn treasury_account() -> AccountId {
    account_of(treasury_bytes())
}

/// The pallet: its configuration, storage and the events it has deposited.
pub struct Pallet {
    proposal_bond_minimum: Balance,
    proposal_count: ProposalIndex,
    proposals: HashMapWithView<ProposalIndex, Proposal>,
    events: Vec<Event>,
}

impl View for Pallet {
    type V = TreasuryState;

    closed spec fn view(&self) -> TreasuryState {
        TreasuryState {
            proposal_bond_minimum: self.proposal_bond_minimum,
            proposal_count: self.proposal_count,
            proposals: self.proposals@,
            events: self.events@,
        }
    }
}

impl Pallet {
    /// The pallet at genesis, holding `proposal_bond_minimum` for every proposal.
    pub fn new(proposal_bond_minimum: Balance) -> (r: Self)
        ensures
            r@.proposal_bond_minimum == proposal_bond_minimum,
            r@.proposal_count == 0,
            r@.proposals == Map::<ProposalIndex, Proposal>::empty(),
            r@.events == Seq::<Event>::empty(),
    {
        broadcast use vstd::std_specs::hash::group_hash_axioms;
        Pallet {
            proposal_bond_minimum,
            proposal_count: 0,
            proposals: HashMapWithView::new(),
            events: Vec::new(),
        }
    }

    /// The bond needed for a proposal whose spend is `value`: the fixed minimum, whatever the value.
    pub fn calculate_bond(&self, _value: Balance) -> (r: Balance)
        ensures
            r == bond_for(self@, _value),
            r == self@.proposal_bond_minimum,
    {
        self.proposal_bond_minimum
    }

    /// Proposes to pay `value` to `beneficiary`. The proposer's bond is first held through `hold`,
    /// the balances pallet's hold; a failed hold is reported as `InsufficientProposersBalance`.
    /// The proposal is then stored under the next index, or the call fails with an overflow when
    /// the count is at its maximum; the runtime dispatches calls transactionally, so the hold is
    /// undone with the rest of a failed call.
    pub fn propose_spend(
        &mut self,
        origin: Origin,
        value: Balance,
        beneficiary: AccountId,
        hold: impl FnOnce(HoldReason, AccountId, Balance) -> DispatchResult,
    ) -> (r: DispatchResult)
        requires
            forall|reason: HoldReason, who: AccountId, amount: Balance| hold.requires(
                (reason, who, amount),
            ),
        ensures
            match signer(origin) {
                None => r == Err::<(), DispatchError<Error>>(DispatchError::BadOrigin) && final(self)@
                    == old(self)@,
                Some(proposer) => exists|held: DispatchResult|
                {
                    &&& hold.ensures(
                        (HoldReason::TreasuryProposal, proposer, bond_for(old(self)@, value)),
                        held,
                    )
                    &&& (final(self)@, r) == settle(
                        old(self)@,
                        propose_spend_step(old(self)@, origin, value, beneficiary, held is Ok),
                    )
                },
            },
    {
        let proposer = ensure_signed(origin)?;
        let bond = self.calculate_bond(value);
        let held = hold(HoldReason::TreasuryProposal, proposer, bond);
        if held.is_err() {
            return Err(DispatchError::Module(Error::InsufficientProposersBalance));
        }
        let proposal_count = self.proposal_count;
        let new_proposal_count = match proposal_count.checked_add(1) {
            Some(c) => c,
            None => return Err(DispatchError::Arithmetic(ArithmeticError::Overflow)),
        };
        self.proposals.insert(proposal_count, Proposal { proposer, value, beneficiary, bond });
        self.proposal_count = new_proposal_count;
        self.events.push(Event::Proposed { proposal_index: proposal_count });
        Ok(())
    }

    /// The number of proposals made so far: the index the next proposal will take.
    pub fn proposal_count(&self) -> (r: ProposalIndex)
        ensures
            r == self@.proposal_count,
    {
        self.proposal_count
    }

    /// The proposal made under `index`.
    pub fn proposal(&self, index: ProposalIndex) -> (r: Option<Proposal>)
        ensures
            r == if self@.proposals.contains_key(index) {
                Some(self@.proposals[index])
            } else {
                None::<Proposal>
            },
    {
        match self.proposals.get(&index) {
            Some(p) => Some(*p),
            None => None,
        }
    }

    /// The events deposited so far, oldest first.
    pub fn events(&self) -> (r: &Vec<Event>)
        ensures
            r@ == self@.events,
    {
        &self.events
    }

    /// The account of the treasury pot.
    pub fn account_id() -> (r: AccountId)
        ensures
            r == treasury_account(),
            r@ == treasury_bytes(),
    {
        let r = into_account_truncating(TREASURY_PALLET_ID);
        proof {
            assert(treasury_bytes().len() == 32);
            lemma_account_of(treasury_bytes());
            lemma_account_by_bytes(r, treasury_account());
        }
        r
    }

    /// Where a credit of `amount` goes: into the treasury pot.
    pub fn on_nonzero_unbalanced(amount: Balance) -> (r: Payout)
        ensures
            r == (Payout { account: treasury_account(), amount }),
    {
        Payout { account: Self::account_id(), amount }
    }
}

/// Every stored proposal has an index below the proposal count.
pub open spec fn indices_below_count(s: TreasuryState) -> bool {
    forall|i: ProposalIndex| #[trigger] s.proposals.contains_key(i) ==> i < s.proposal_count
}

/// A proposal is stored under the next index, which no proposal had, with the fixed minimum bond
/// whatever its value; earlier proposals are kept, the count grows by one, and the indices stay
/// below the count.
pub proof fn lemma_proposal_takes_next_index(
    s: TreasuryState,
    origin: Origin,
    value: Balance,
    beneficiary: AccountId,
)
    requires
        indices_below_count(s),
        propose_spend_step(s, origin, value, beneficiary, true) is Ok,
    ensures
        ({
            let post = propose_spend_step(s, origin, value, beneficiary, true)->Ok_0;
            let index = s.proposal_count;
            &&& !s.proposals.contains_key(index)
            &&& post.proposals[index] == Proposal {
                proposer: signer(origin)->Some_0,
                value,
                beneficiary,
                bond: s.proposal_bond_minimum,
            }
            &&& post.proposals.remove(index) == s.proposals
            &&& post.proposal_count == index + 1
            &&& indices_below_count(post)
        }),
{
    let post = propose_spend_step(s, origin, value, beneficiary, true)->Ok_0;
    assert(post.proposals.remove(s.proposal_count) =~= s.proposals);
}

/// A proposal whose bond could not be held is refused as such, whatever the proposal count, and
/// nothing is stored.
pub proof fn lemma_unheld_bond_refused(
    s: TreasuryState,
    who: AccountId,
    value: Balance,
    beneficiary: AccountId,
)
    ensures
        propose_spend_step(s, Origin::Signed(who), value, beneficiary, false) == Err::<
            TreasuryState,
            DispatchError<Error>,
        >(DispatchError::Module(Error::InsufficientProposersBalance)),
{
}

/// With the proposal count at its maximum, a proposal whose bond was held is refused as an
/// overflow, and nothing is stored.
pub proof fn lemma_full_count_overflows(s: TreasuryState, who: AccountId, value: Balance, beneficiary: AccountId)
    requires
        s.proposal_count == u32::MAX,
    ensures
        propose_spend_step(s, Origin::Signed(who), value, beneficiary, true) == Err::<
            TreasuryState,
            DispatchError<Error>,
        >(DispatchError::Arithmetic(ArithmeticError::Overflow)),
{
}

/// The bond is fixed: proposals of any two values need the same bond, the runtime's minimum.
pub proof fn lemma_bond_is_fixed(s: TreasuryState, v1: Balance, v2: Balance)
    ensures
        bond_for(s, v1) == bond_for(s, v2),
        bond_for(s, v1) == s.proposal_bond_minimum,
{
}

} // verus!
