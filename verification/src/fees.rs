//! The runtime's time constants and its routing of transaction fees and tips between the treasury
//! and the block author.
use vstd::prelude::*;
use crate::author_reward_dest;
use crate::support::{AccountId, Balance, Payout};

verus! {

/// A block number of the chain.
pub type BlockNumber = u32;

/// Nonce for an account.
pub type Nonce = u32;

/// The average expected block time that we are targeting, in milliseconds.
pub const MILLISECS_PER_BLOCK: u64 = 6000;

/// The slot duration: one block.
pub const SLOT_DURATION: u64 = 6000;

/// One minute, in blocks (60 000 ms / `MILLISECS_PER_BLOCK`).
pub const MINUTES: BlockNumber = 10;

/// One hour, in blocks.
pub const HOURS: BlockNumber = 600;

/// One day, in blocks.
pub const DAYS: BlockNumber = 14400;

/// The share of block weight assumed to go to `on_initialize` handlers, in parts per billion
/// (5%).
pub const AVERAGE_ON_INITIALIZE_RATIO: u32 = 50_000_000;

/// The share of a block that `Normal` extrinsics may fill, in parts per billion (75%).
pub const NORMAL_DISPATCH_RATIO: u32 = 750_000_000;

/// The treasury's part of the fees, in the ratio treasury : author.
pub const TREASURY_FEE_SHARE: u32 = 80;

/// The block author's part of the fees, in the ratio treasury : author.
pub const AUTHOR_FEE_SHARE: u32 = 20;

/// How an imbalance of `value` is split in the ratio `first : second` (`Imbalance::ration`):
/// the first part is `value * first / (first + second)`, with the product saturating, and the
/// second part is the rest; both are zero when the ratio is `0 : 0`.
pub open spec fn ration_spec(value: Balance, first: u32, second: u32) -> (Balance, Balance) {
    let total = if first + second > u32::MAX { u32::MAX as int } else { first + second };
    if total == 0 {
        (0, 0)
    } else {
        let product = if value * first > u128::MAX { u128::MAX as int } else { value * first };
        let amount1 = product / total;
        let part1 = if amount1 < value { amount1 } else { value as int };
        (part1 as u128, (value - part1) as u128)
    }
}

/// Splits `value` in the ratio `first : second`, as `Imbalance::ration` splits an imbalance.
pub fn ration(value: Balance, first: u32, second: u32) -> (r: (Balance, Balance))
    ensures
        r == ration_spec(value, first, second),
        r.0 + r.1 == if first as int + second as int == 0 { 0 } else { value as int },
{
    let total: u32 = first.saturating_add(second);
    if total == 0 {
        return (0, 0);
    }
    let product = match value.checked_mul(first as u128) {
        Some(p) => p,
        None => u128::MAX,
    };
    let amount1 = product / (total as u128);
    let part1 = if amount1 < value { amount1 } else { value };
    (part1, value - part1)
}

/// Where a credit of `amount` goes when the treasury handles it: nowhere when it is zero (the
/// credit is dropped), the treasury pot otherwise.
pub open spec fn treasury_payouts(amount: Balance, treasury: AccountId) -> Seq<Payout> {
    if amount == 0 {
        Seq::empty()
    } else {
        seq![Payout { account: treasury, amount }]
    }
}

/// Where a credit of `amount` goes when the author handler takes it: nowhere when it is zero,
/// to the author reward destination `author` when it is set, and to the treasury otherwise.
pub open spec fn author_payouts(amount: Balance, author: Option<AccountId>, treasury: AccountId) -> Seq<
    Payout,
> {
    if amount == 0 {
        Seq::empty()
    } else {
        match author {
            Some(a) => seq![Payout { account: a, amount }],
            None => treasury_payouts(amount, treasury),
        }
    }
}

/// Where the fees and tips of a block go, given the imbalances `fees_then_tips` (fees first,
/// then tips; later items are dropped): 80% of the fees (rounded down) to the treasury, and the
/// rest of the fees plus the tips to the author handler.
pub open spec fn fee_payouts(
    fees_then_tips: Seq<Balance>,
    author: Option<AccountId>,
    treasury: AccountId,
) -> Seq<Payout> {
    if fees_then_tips.len() == 0 {
        Seq::empty()
    } else {
        let split = ration_spec(fees_then_tips[0], TREASURY_FEE_SHARE, AUTHOR_FEE_SHARE);
        let to_author = if fees_then_tips.len() >= 2 {
            if split.1 + fees_then_tips[1] > u128::MAX {
                u128::MAX
            } else {
                (split.1 + fees_then_tips[1]) as u128
            }
        } else {
            split.1
        };
        treasury_payouts(split.0, treasury) + author_payouts(to_author, author, treasury)
    }
}

/// The treasury's handling of a credit: dropped when zero, paid into its account `treasury`
/// otherwise.
fn treasury_on_unbalanced(amount: Balance, treasury: AccountId) -> (r: Vec<Payout>)
    ensures
        r@ == treasury_payouts(amount, treasury),
{
    let mut r: Vec<Payout> = Vec::new();
    if amount != 0 {
        r.push(Payout { account: treasury, amount });
    }
    proof {
        assert(r@ =~= treasury_payouts(amount, treasury));
    }
    r
}

/// Logic for the author to get a portion of fees.
pub struct ToAuthor;

impl ToAuthor {
    /// Where a nonzero credit of `amount` goes: to the author reward destination of the block
    /// when it is set, to the runtime's treasury account `treasury` otherwise.
    pub fn on_nonzero_unbalanced(
        amount: Balance,
        authors: &author_reward_dest::Pallet,
        treasury: AccountId,
    ) -> (r: Vec<Payout>)
        requires
            amount != 0,
        ensures
            r@ == author_payouts(amount, authors@, treasury),
    {
        match authors.author() {
            Some(author) => {
                let mut r: Vec<Payout> = Vec::new();
                r.push(Payout { account: author, amount });
                proof {
                    assert(r@ =~= author_payouts(amount, authors@, treasury));
                }
                r
            },
            None => treasury_on_unbalanced(amount, treasury),
        }
    }

    /// Where a credit of `amount` goes: nowhere when it is zero, as `on_nonzero_unbalanced`
    /// says otherwise.
    pub fn on_unbalanced(
        amount: Balance,
        authors: &author_reward_dest::Pallet,
        treasury: AccountId,
    ) -> (r: Vec<Payout>)
        ensures
            r@ == author_payouts(amount, authors@, treasury),
    {
        if amount == 0 {
            let r: Vec<Payout> = Vec::new();
            proof {
                assert(r@ =~= author_payouts(amount, authors@, treasury));
            }
            r
        } else {
            Self::on_nonzero_unbalanced(amount, authors, treasury)
        }
    }
}

/// Routing of a block's fees and tips.
pub struct DealWithFees;

impl DealWithFees {
    /// Where the imbalances `fees_then_tips` go: the fees (first item) are split 80% to the
    /// runtime's treasury account `treasury` and 20% to the author handler, and the tips (second
    /// item), if any, all go to the author handler.
    pub fn on_unbalanceds(
        fees_then_tips: &Vec<Balance>,
        authors: &author_reward_dest::Pallet,
        treasury: AccountId,
    ) -> (r: Vec<Payout>)
        ensures
            r@ == fee_payouts(fees_then_tips@, authors@, treasury),
    {
        if fees_then_tips.len() == 0 {
            let r: Vec<Payout> = Vec::new();
            proof {
                assert(r@ =~= fee_payouts(fees_then_tips@, authors@, treasury));
            }
            return r;
        }
        let fees = fees_then_tips[0];
        let split = ration(fees, TREASURY_FEE_SHARE, AUTHOR_FEE_SHARE);
        let mut to_author = split.1;
        if fees_then_tips.len() >= 2 {
            to_author = to_author.saturating_add(fees_then_tips[1]);
        }
        let mut r = treasury_on_unbalanced(split.0, treasury);
        let mut rest = ToAuthor::on_unbalanced(to_author, authors, treasury);
        r.append(&mut rest);
        r
    }
}

/// Factory methods for the benchmarks of the treasury.
pub struct TreasuryArguments;

impl TreasuryArguments {
    /// The asset kind of a benchmark: the native token.
    pub fn create_asset_kind(_seed: u32) {
    }

    /// The beneficiary of a benchmark: the account whose bytes are `seed`.
    pub fn create_beneficiary(seed: [u8; 32]) -> (r: AccountId)
        ensures
            r == seed,
    {
        seed
    }
}

/// The total amount paid out by `payouts`.
pub open spec fn payouts_total(payouts: Seq<Payout>) -> int
    decreases payouts.len(),
{
    if payouts.len() == 0 {
        0
    } else {
        payouts_total(payouts.drop_last()) + payouts.last().amount
    }
}

/// The total of two payout lists put together.
proof fn lemma_payouts_total_concat(a: Seq<Payout>, b: Seq<Payout>)
    ensures
        payouts_total(a + b) == payouts_total(a) + payouts_total(b),
    decreases b.len(),
{
    if b.len() > 0 {
        lemma_payouts_total_concat(a, b.drop_last());
        assert((a + b).drop_last() =~= a + b.drop_last());
    }
}

/// Fees and tips are neither created nor lost: unless an amount saturates, what is paid out is
/// the fees plus the tips, and the treasury's part is 80% of the fees, rounded down.
pub proof fn lemma_fee_payouts_conserve(
    fees: Balance,
    tips: Seq<Balance>,
    author: Option<AccountId>,
    treasury: AccountId,
)
    requires
        tips.len() <= 1,
        fees * TREASURY_FEE_SHARE <= u128::MAX,
        tips.len() == 1 ==> fees - fees * TREASURY_FEE_SHARE / 100 + tips[0] <= u128::MAX,
    ensures
        ({
            let payouts = fee_payouts(seq![fees] + tips, author, treasury);
            let tip = if tips.len() == 1 { tips[0] as int } else { 0 };
            &&& payouts_total(payouts) == fees + tip
            &&& payouts_total(treasury_payouts(ration_spec(fees, TREASURY_FEE_SHARE, AUTHOR_FEE_SHARE).0, treasury))
                == fees * TREASURY_FEE_SHARE / 100
        }),
{
    let v = seq![fees] + tips;
    assert(v[0] == fees);
    if tips.len() == 1 {
        assert(v[1] == tips[0]);
    }
    let split = ration_spec(fees, TREASURY_FEE_SHARE, AUTHOR_FEE_SHARE);
    assert(fees * TREASURY_FEE_SHARE / 100 <= fees);
    assert(split.0 == fees * TREASURY_FEE_SHARE / 100);
    let to_author = if v.len() >= 2 {
        if split.1 + v[1] > u128::MAX { u128::MAX } else { (split.1 + v[1]) as u128 }
    } else {
        split.1
    };
    lemma_payouts_total_concat(treasury_payouts(split.0, treasury), author_payouts(to_author, author, treasury));
    let t = treasury_payouts(split.0, treasury);
    if split.0 != 0 {
        assert(t.drop_last() =~= Seq::<Payout>::empty());
        assert(payouts_total(Seq::<Payout>::empty()) == 0);
        assert(t.last().amount == split.0);
    } else {
        assert(t.len() == 0);
    }
    assert(payouts_total(t) == split.0);
    let a = author_payouts(to_author, author, treasury);
    if to_author != 0 {
        assert(a.drop_last() =~= Seq::<Payout>::empty());
        assert(payouts_total(Seq::<Payout>::empty()) == 0);
        assert(a.last().amount == to_author);
    } else {
        assert(a.len() == 0);
    }
    assert(payouts_total(a) == to_author);
    assert(split.0 + split.1 == fees);
    assert(fee_payouts(v, author, treasury) == t + a);
}

/// Without an author reward destination, every fee and tip goes to the treasury.
pub proof fn lemma_fees_without_author_go_to_treasury(fees_then_tips: Seq<Balance>, treasury: AccountId)
    ensures
        forall|i: int|
            0 <= i < fee_payouts(fees_then_tips, None, treasury).len() ==> (#[trigger] fee_payouts(
                fees_then_tips,
                None,
                treasury,
            )[i]).account == treasury,
{
}

/// With an author reward destination, the author receives the non-treasury part of the fees
/// plus the tips (when that is not zero).
pub proof fn lemma_author_receives_rest(
    fees: Balance,
    tip: Balance,
    author: AccountId,
    treasury: AccountId,
)
    requires
        fees - ration_spec(fees, TREASURY_FEE_SHARE, AUTHOR_FEE_SHARE).0 + tip <= u128::MAX,
        fees - ration_spec(fees, TREASURY_FEE_SHARE, AUTHOR_FEE_SHARE).0 + tip > 0,
    ensures
        fee_payouts(seq![fees, tip], Some(author), treasury).last() == (Payout {
            account: author,
            amount: (fees - ration_spec(fees, TREASURY_FEE_SHARE, AUTHOR_FEE_SHARE).0 + tip) as u128,
        }),
{
    let v = seq![fees, tip];
    assert(v[0] == fees && v[1] == tip);
}

} // verus!
