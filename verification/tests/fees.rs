use dropit::author_reward_dest;
use dropit::fees::{
    ration, DealWithFees, ToAuthor, TreasuryArguments, AVERAGE_ON_INITIALIZE_RATIO, DAYS, HOURS,
    MILLISECS_PER_BLOCK, MINUTES, NORMAL_DISPATCH_RATIO, SLOT_DURATION,
};
use dropit::support::{Origin, Payout};

const AUTHOR: [u8; 32] = [8; 32];

fn with_author() -> author_reward_dest::Pallet {
    let mut authors = author_reward_dest::Pallet::new();
    assert_eq!(authors.set_author_reward_dest(Origin::Unsigned, AUTHOR), Ok(()));
    authors
}

/// The runtime's treasury account.
const TREASURY: [u8; 32] = [9; 32];

fn treasury(amount: u128) -> Payout {
    Payout { account: TREASURY, amount }
}

#[test]
fn time_constants() {
    assert_eq!(MILLISECS_PER_BLOCK, 6000);
    assert_eq!(SLOT_DURATION, MILLISECS_PER_BLOCK);
    assert_eq!(MINUTES as u64, 60_000 / MILLISECS_PER_BLOCK);
    assert_eq!(HOURS, MINUTES * 60);
    assert_eq!(DAYS, HOURS * 24);
    assert_eq!(AVERAGE_ON_INITIALIZE_RATIO, 1_000_000_000 / 100 * 5);
    assert_eq!(NORMAL_DISPATCH_RATIO, 1_000_000_000 / 100 * 75);
}

#[test]
fn ration_splits_in_ratio() {
    assert_eq!(ration(100, 80, 20), (80, 20));
    assert_eq!(ration(99, 80, 20), (79, 20));
    assert_eq!(ration(7, 0, 0), (0, 0));
    assert_eq!(ration(7, 0, 5), (0, 7));
    assert_eq!(ration(7, 5, 0), (7, 0));
    // the product saturates
    assert_eq!(ration(u128::MAX, 80, 20), (u128::MAX / 100, u128::MAX - u128::MAX / 100));
}

#[test]
fn fees_and_tips_with_author() {
    let authors = with_author();
    assert_eq!(
        DealWithFees::on_unbalanceds(&vec![100, 5], &authors, TREASURY),
        vec![treasury(80), Payout { account: AUTHOR, amount: 25 }]
    );
    // a third imbalance is dropped
    assert_eq!(
        DealWithFees::on_unbalanceds(&vec![100, 5, 1000], &authors, TREASURY),
        vec![treasury(80), Payout { account: AUTHOR, amount: 25 }]
    );
    assert_eq!(
        DealWithFees::on_unbalanceds(&vec![1000], &authors, TREASURY),
        vec![treasury(800), Payout { account: AUTHOR, amount: 200 }]
    );
}

#[test]
fn fees_without_author_go_to_treasury() {
    let authors = author_reward_dest::Pallet::new();
    assert_eq!(
        DealWithFees::on_unbalanceds(&vec![100, 5], &authors, TREASURY),
        vec![treasury(80), treasury(25)]
    );
}

#[test]
fn zero_amounts_are_dropped() {
    let authors = with_author();
    assert_eq!(DealWithFees::on_unbalanceds(&vec![], &authors, TREASURY), vec![]);
    assert_eq!(DealWithFees::on_unbalanceds(&vec![0, 0], &authors, TREASURY), vec![]);
    assert_eq!(
        DealWithFees::on_unbalanceds(&vec![0, 3], &authors, TREASURY),
        vec![Payout { account: AUTHOR, amount: 3 }]
    );
    assert_eq!(DealWithFees::on_unbalanceds(&vec![1], &authors, TREASURY), vec![Payout { account: AUTHOR, amount: 1 }]);
    assert_eq!(ToAuthor::on_unbalanced(0, &authors, TREASURY), vec![]);
}

#[test]
fn to_author_routes_credit() {
    let authors = with_author();
    assert_eq!(ToAuthor::on_nonzero_unbalanced(9, &authors, TREASURY), vec![Payout { account: AUTHOR, amount: 9 }]);
    let none = author_reward_dest::Pallet::new();
    assert_eq!(ToAuthor::on_nonzero_unbalanced(9, &none, TREASURY), vec![treasury(9)]);
}

#[test]
fn tips_saturate_into_author_share() {
    let authors = with_author();
    assert_eq!(
        DealWithFees::on_unbalanceds(&vec![100, u128::MAX], &authors, TREASURY),
        vec![treasury(80), Payout { account: AUTHOR, amount: u128::MAX }]
    );
}

#[test]
fn treasury_arguments_for_benchmarks() {
    TreasuryArguments::create_asset_kind(3);
    assert_eq!(TreasuryArguments::create_beneficiary([5; 32]), [5; 32]);
}

#[test]
fn fees_and_tips_are_conserved() {
    let authors = with_author();
    for (fees, tip) in [(0u128, 0u128), (1, 0), (99, 1), (12345, 678), (1_000_000_007, 3)] {
        let payouts = DealWithFees::on_unbalanceds(&vec![fees, tip], &authors, TREASURY);
        let total: u128 = payouts.iter().map(|p| p.amount).sum();
        assert_eq!(total, fees + tip);
        let to_treasury: u128 = payouts
            .iter()
            .filter(|p| p.account == TREASURY)
            .map(|p| p.amount)
            .sum();
        assert_eq!(to_treasury, fees * 80 / 100);
    }
}
