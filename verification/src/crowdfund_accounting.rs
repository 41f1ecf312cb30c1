//! Accounting of crowdfund contributions: what has been claimed plus what is still recorded is
//! exactly what was contributed.
use vstd::prelude::*;
use crate::distribution::{
    add_distribution_step, add_distributions_step, claim_crowdfund_distribution_step,
    claim_crowdfund_raise_step, claim_distribution_step, configure_crowdfund_step, consistent,
    contribute_crowdfund_step, recorded,
    create_distribution_step, crowdfund_next_phase_step, lemma_allocate_all_consistent,
    CrowdfundPhase, DistributionId, DistributionState,
};
use crate::ledger::BookKey;
use crate::distribution::lemma_claim_share_within_stash;
use crate::support::{AccountId, AssetId, Balance, Origin, RelayChainBlockNumber};

verus! {

/// The keys of the records of crowdfund `id`.
pub open spec fn keys_of(m: Map<BookKey, Balance>, id: DistributionId) -> Set<BookKey> {
    m.dom().filter(|k: BookKey| k.0 == id)
}

/// The sum of the contributions recorded in `m` for crowdfund `id`.
pub open spec fn outstanding(m: Map<BookKey, Balance>, id: DistributionId) -> int
    decreases m.dom().len(),
{
    if m.dom().finite() && keys_of(m, id).finite() && keys_of(m, id).len() > 0 {
        let k = keys_of(m, id).choose();
        proof {
            assert(keys_of(m, id).contains(k));
            assert(m.dom().contains(k));
        }
        m[k] + outstanding(m.remove(k), id)
    } else {
        0
    }
}

/// The records of a finite map form a finite set, which holds every key of the crowdfund.
proof fn lemma_keys_of(m: Map<BookKey, Balance>, id: DistributionId)
    requires
        m.dom().finite(),
    ensures
        keys_of(m, id).finite(),
        forall|k: BookKey| #[trigger] keys_of(m, id).contains(k) <==> m.dom().contains(k) && k.0 == id,
        keys_of(m, id).len() == 0 <==> forall|k: BookKey| !(#[trigger] keys_of(m, id).contains(k)),
{
    m.dom().lemma_len_filter(|k: BookKey| k.0 == id);
    if keys_of(m, id).len() == 0 {
        assert forall|k: BookKey| !(#[trigger] keys_of(m, id).contains(k)) by {
            if keys_of(m, id).contains(k) {
                assert(keys_of(m, id).remove(k).len() + 1 == keys_of(m, id).len());
            }
        }
    } else {
        let c = keys_of(m, id).choose();
        assert(keys_of(m, id).contains(c));
    }
}

/// Taking any one record out of the sum.
pub proof fn lemma_outstanding_remove(m: Map<BookKey, Balance>, id: DistributionId, k: BookKey)
    requires
        m.dom().finite(),
        m.dom().contains(k),
    ensures
        outstanding(m, id) == if k.0 == id {
            m[k] + outstanding(m.remove(k), id)
        } else {
            outstanding(m.remove(k), id)
        },
    decreases m.dom().len(),
{
    lemma_keys_of(m, id);
    lemma_keys_of(m.remove(k), id);
    if keys_of(m, id).len() > 0 {
        let c = keys_of(m, id).choose();
        assert(keys_of(m, id).contains(c));
        if c != k {
            assert(m.remove(c).dom().contains(k));
            assert(m.remove(k).dom().contains(c));
            lemma_outstanding_remove(m.remove(c), id, k);
            lemma_outstanding_remove(m.remove(k), id, c);
            assert(m.remove(c).remove(k) =~= m.remove(k).remove(c));
            assert(keys_of(m.remove(k), id).contains(c));
        }
    } else {
        assert(!keys_of(m, id).contains(k));
        assert(keys_of(m.remove(k), id).len() == 0) by {
            assert(keys_of(m.remove(k), id) =~= keys_of(m, id));
        }
    }
}

/// The sum is never negative.
pub proof fn lemma_outstanding_nonnegative(m: Map<BookKey, Balance>, id: DistributionId)
    requires
        m.dom().finite(),
    ensures
        outstanding(m, id) >= 0,
    decreases m.dom().len(),
{
    lemma_keys_of(m, id);
    if keys_of(m, id).len() > 0 {
        let k = keys_of(m, id).choose();
        assert(keys_of(m, id).contains(k));
        lemma_outstanding_nonnegative(m.remove(k), id);
    }
}

/// Writing a record replaces its old value in the sum of its crowdfund and leaves the other
/// crowdfunds' sums alone.
pub proof fn lemma_outstanding_insert(
    m: Map<BookKey, Balance>,
    id: DistributionId,
    k: BookKey,
    v: Balance,
)
    requires
        m.dom().finite(),
    ensures
        outstanding(m.insert(k, v), id) == if k.0 == id {
            v + outstanding(m.remove(k), id)
        } else {
            outstanding(m.remove(k), id)
        },
        m.dom().contains(k) ==> outstanding(m, id) == if k.0 == id {
            m[k] + outstanding(m.remove(k), id)
        } else {
            outstanding(m.remove(k), id)
        },
        !m.dom().contains(k) ==> m.remove(k) == m,
{
    lemma_outstanding_remove(m.insert(k, v), id, k);
    assert(m.insert(k, v).remove(k) =~= m.remove(k));
    if m.dom().contains(k) {
        lemma_outstanding_remove(m, id, k);
    } else {
        assert(m.remove(k) =~= m);
    }
}

/// A map without records of crowdfund `id` sums to zero for it.
pub proof fn lemma_outstanding_none(m: Map<BookKey, Balance>, id: DistributionId)
    requires
        m.dom().finite(),
        forall|k: BookKey| #[trigger] m.dom().contains(k) ==> k.0 != id,
    ensures
        outstanding(m, id) == 0,
{
    lemma_keys_of(m, id);
}

/// For every crowdfund, what has been claimed plus the contributions still recorded is exactly
/// what was contributed: the unclaimed total is the sum of the recorded contributions.
pub open spec fn accounted(s: DistributionState) -> bool {
    &&& s.crowdfund_contributions.dom().finite()
    &&& forall|id: DistributionId| #[trigger]
        s.crowdfund_infos.contains_key(id) ==> s.crowdfund_infos[id].total_claimed + outstanding(
            s.crowdfund_contributions,
            id,
        ) == s.crowdfund_infos[id].total_contributed
}

/// Nothing is contributed or claimed at genesis.
pub proof fn lemma_genesis_accounted(s: DistributionState)
    requires
        s.crowdfund_infos == Map::<DistributionId, crate::distribution::CrowdfundInfo>::empty(),
        s.crowdfund_contributions == Map::<BookKey, Balance>::empty(),
    ensures
        accounted(s),
{
}

/// In an accounted state, claims never exceed contributions, and a recorded contribution never
/// exceeds what is left to claim; when everything has been claimed, no contribution is recorded.
pub proof fn lemma_accounted_bounds(s: DistributionState, id: DistributionId, who: AccountId)
    requires
        accounted(s),
        s.crowdfund_infos.contains_key(id),
    ensures
        s.crowdfund_infos[id].total_claimed <= s.crowdfund_infos[id].total_contributed,
        s.crowdfund_contributions.contains_key((id, who)) ==> s.crowdfund_contributions[(id, who)]
            <= s.crowdfund_infos[id].total_contributed - s.crowdfund_infos[id].total_claimed,
        s.crowdfund_infos[id].total_claimed == s.crowdfund_infos[id].total_contributed
            ==> s.crowdfund_contributions.contains_key((id, who)) ==> s.crowdfund_contributions[(
            id,
            who,
        )] == 0,
{
    let m = s.crowdfund_contributions;
    lemma_outstanding_nonnegative(m, id);
    if m.contains_key((id, who)) {
        lemma_outstanding_remove(m, id, (id, who));
        lemma_outstanding_nonnegative(m.remove((id, who)), id);
    }
}

/// Every call keeps the accounting.
pub proof fn lemma_calls_keep_accounting(
    s: DistributionState,
    origin: Origin,
    id: DistributionId,
    asset_id: AssetId,
    crowdfunded: bool,
    account: AccountId,
    amount: Balance,
    recipients: Seq<(AccountId, Balance)>,
    fund_min: Balance,
    fund_max: Option<Balance>,
    min_contribution: Balance,
    max_contribution: Option<Balance>,
    end_block: RelayChainBlockNumber,
    relay_block: RelayChainBlockNumber,
    stash_balance: Balance,
)
    requires
        accounted(s),
        consistent(s),
    ensures
        create_distribution_step(s, origin, asset_id, crowdfunded) is Ok ==> accounted(
            create_distribution_step(s, origin, asset_id, crowdfunded)->Ok_0,
        ),
        add_distribution_step(s, origin, id, account, amount) is Ok ==> accounted(
            add_distribution_step(s, origin, id, account, amount)->Ok_0,
        ),
        add_distributions_step(s, origin, id, recipients) is Ok ==> accounted(
            add_distributions_step(s, origin, id, recipients)->Ok_0,
        ),
        claim_distribution_step(s, origin, id, account) is Ok ==> accounted(
            claim_distribution_step(s, origin, id, account)->Ok_0.0,
        ),
        configure_crowdfund_step(
            s,
            origin,
            id,
            fund_min,
            fund_max,
            min_contribution,
            max_contribution,
            end_block,
        ) is Ok ==> accounted(
            configure_crowdfund_step(
                s,
                origin,
                id,
                fund_min,
                fund_max,
                min_contribution,
                max_contribution,
                end_block,
            )->Ok_0,
        ),
        crowdfund_next_phase_step(s, origin, id, relay_block) is Ok ==> accounted(
            crowdfund_next_phase_step(s, origin, id, relay_block)->Ok_0,
        ),
        contribute_crowdfund_step(s, origin, id, amount, relay_block) is Ok ==> accounted(
            contribute_crowdfund_step(s, origin, id, amount, relay_block)->Ok_0.0,
        ),
        claim_crowdfund_distribution_step(s, origin, id, account, relay_block, stash_balance) is Ok
            ==> accounted(
            claim_crowdfund_distribution_step(
                s,
                origin,
                id,
                account,
                relay_block,
                stash_balance,
            )->Ok_0.0,
        ),
        claim_crowdfund_raise_step(s, origin, id) is Ok ==> accounted(
            claim_crowdfund_raise_step(s, origin, id)->Ok_0.0,
        ),
{
    let m = s.crowdfund_contributions;
    if add_distributions_step(s, origin, id, recipients) is Ok {
        lemma_allocate_all_consistent(s, id, recipients);
    }
    if add_distribution_step(s, origin, id, account, amount) is Ok {
        lemma_allocate_all_consistent(s, id, seq![(account, amount)]);
        assert(seq![(account, amount)].drop_last() =~= Seq::<(AccountId, Balance)>::empty());
    }
    if contribute_crowdfund_step(s, origin, id, amount, relay_block) is Ok {
        let post = contribute_crowdfund_step(s, origin, id, amount, relay_block)->Ok_0.0;
        let who = crate::support::signer(origin)->Some_0;
        let new_record = (recorded(m, (id, who)) + amount) as u128;
        assert forall|i: DistributionId| #[trigger] post.crowdfund_infos.contains_key(i) implies post.crowdfund_infos[i].total_claimed
            + outstanding(post.crowdfund_contributions, i)
            == post.crowdfund_infos[i].total_contributed by {
            lemma_outstanding_insert(m, i, (id, who), new_record);
        }
    }
    if claim_crowdfund_distribution_step(s, origin, id, account, relay_block, stash_balance) is Ok {
        let post = claim_crowdfund_distribution_step(
            s,
            origin,
            id,
            account,
            relay_block,
            stash_balance,
        )->Ok_0.0;
        assert forall|i: DistributionId| #[trigger] post.crowdfund_infos.contains_key(i) implies post.crowdfund_infos[i].total_claimed
            + outstanding(post.crowdfund_contributions, i)
            == post.crowdfund_infos[i].total_contributed by {
            lemma_outstanding_remove(m, i, (id, account));
        }
    }
    if configure_crowdfund_step(
        s,
        origin,
        id,
        fund_min,
        fund_max,
        min_contribution,
        max_contribution,
        end_block,
    ) is Ok {
        assert forall|k: BookKey| #[trigger] m.dom().contains(k) implies k.0 != id by {
            assert(s.crowdfund_infos.contains_key(k.0));
        }
        lemma_outstanding_none(m, id);
    }
}

/// A crowdfund claim keeps what is left to claim equal to the contributions still recorded: when,
/// before the claim, the unclaimed total of crowdfund `id` is the sum of its records, then after it
/// the claimed total is still at most the contributed total, the unclaimed total is again the sum of
/// the records left, and the tokens sent to the claimant are at most what the stash held.
pub proof fn lemma_claim_keeps_unclaimed_equal_to_records(
    s: DistributionState,
    origin: Origin,
    id: DistributionId,
    recipient: AccountId,
    relay_block: RelayChainBlockNumber,
    stash_balance: Balance,
)
    requires
        s.crowdfund_contributions.dom().finite(),
        s.crowdfund_infos.contains_key(id),
        s.crowdfund_infos[id].total_claimed <= s.crowdfund_infos[id].total_contributed,
        s.crowdfund_infos[id].total_contributed - s.crowdfund_infos[id].total_claimed == outstanding(
            s.crowdfund_contributions,
            id,
        ),
        claim_crowdfund_distribution_step(s, origin, id, recipient, relay_block, stash_balance) is Ok,
    ensures
        ({
            let (post, t) = claim_crowdfund_distribution_step(
                s,
                origin,
                id,
                recipient,
                relay_block,
                stash_balance,
            )->Ok_0;
            let cf = post.crowdfund_infos[id];
            &&& post.crowdfund_infos.contains_key(id)
            &&& post.crowdfund_contributions.dom().finite()
            &&& cf.total_claimed <= cf.total_contributed
            &&& cf.total_contributed - cf.total_claimed == outstanding(post.crowdfund_contributions, id)
            &&& t.amount <= stash_balance
        }),
{
    let m = s.crowdfund_contributions;
    lemma_outstanding_remove(m, id, (id, recipient));
    lemma_outstanding_nonnegative(m.remove((id, recipient)), id);
    lemma_claim_share_within_stash(s, origin, id, recipient, relay_block, stash_balance);
}

/// A contribution is accepted whatever the signer contributed before: in an accounted state, a
/// contribution to a raising crowdfund of an existing distribution, made by its end block, at least
/// `min_contribution` and at most `max_contribution`, that keeps the total within `fund_max`
/// without overflowing, succeeds.
pub proof fn lemma_contribution_within_bounds_accepted(
    s: DistributionState,
    who: AccountId,
    id: DistributionId,
    amount: Balance,
    relay_block: RelayChainBlockNumber,
)
    requires
        accounted(s),
        s.crowdfund_infos.contains_key(id),
        s.distribution_infos.contains_key(id),
        s.crowdfund_infos[id].phase == CrowdfundPhase::Raising,
        relay_block <= s.crowdfund_infos[id].end_block,
        s.crowdfund_infos[id].min_contribution <= amount,
        match s.crowdfund_infos[id].max_contribution {
            Some(max) => amount <= max,
            None => true,
        },
        s.crowdfund_infos[id].total_contributed + amount <= u128::MAX,
        match s.crowdfund_infos[id].fund_max {
            Some(max) => s.crowdfund_infos[id].total_contributed + amount <= max,
            None => true,
        },
    ensures
        contribute_crowdfund_step(s, Origin::Signed(who), id, amount, relay_block) is Ok,
{
    lemma_accounted_bounds(s, id, who);
}

/// Anyone can claim a recorded contribution once its crowdfund is distributing and the end block
/// has passed: in an accounted state, with something left to claim, the claim of an existing
/// distribution's recorded contribution succeeds.
pub proof fn lemma_crowdfund_claim_accepted(
    s: DistributionState,
    caller: AccountId,
    id: DistributionId,
    recipient: AccountId,
    relay_block: RelayChainBlockNumber,
    stash_balance: Balance,
)
    requires
        accounted(s),
        s.crowdfund_infos.contains_key(id),
        s.distribution_infos.contains_key(id),
        s.crowdfund_contributions.contains_key((id, recipient)),
        s.crowdfund_infos[id].phase == CrowdfundPhase::Distributing,
        relay_block > s.crowdfund_infos[id].end_block,
        s.crowdfund_infos[id].total_claimed < s.crowdfund_infos[id].total_contributed,
    ensures
        claim_crowdfund_distribution_step(
            s,
            Origin::Signed(caller),
            id,
            recipient,
            relay_block,
            stash_balance,
        ) is Ok,
{
    lemma_accounted_bounds(s, id, recipient);
}

} // verus!
