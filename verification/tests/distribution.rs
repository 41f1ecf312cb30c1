use dropit::distribution::{
    CrowdfundInfo, CrowdfundPhase, DistributionInfo, Error, Event, Pallet, DISTRIBUTION_PALLET_ID,
};
use dropit::support::{
    ArithmeticError, AssetTransfer, DispatchError, NativeTransfer, Origin, Preservation, TokenError,
};

const CREATOR: [u8; 32] = [1; 32];
const ALICE: [u8; 32] = [2; 32];
const BOB: [u8; 32] = [3; 32];
const CAROL: [u8; 32] = [4; 32];

fn stash_bytes(id: u32) -> [u8; 32] {
    let mut expected = [0u8; 32];
    expected[..4].copy_from_slice(b"modl");
    expected[4..12].copy_from_slice(b"dropit/d");
    expected[12] = 8;
    expected[13..15].copy_from_slice(b"sa");
    expected[15..19].copy_from_slice(&id.to_le_bytes());
    expected
}

fn no_asset_transfer(_t: AssetTransfer) -> Result<(), DispatchError<Error>> {
    panic!("no transfer expected")
}

fn no_native_transfer(_t: NativeTransfer) -> Result<(), DispatchError<Error>> {
    panic!("no transfer expected")
}

fn with_distribution(asset: u32, crowdfunded: bool) -> Pallet {
    let mut pallet = Pallet::new();
    assert_eq!(pallet.create_distribution(Origin::Signed(CREATOR), asset, crowdfunded), Ok(()));
    pallet
}

fn with_crowdfund(fund_min: u128, fund_max: Option<u128>, min: u128, max: Option<u128>) -> Pallet {
    let mut pallet = with_distribution(7, true);
    assert_eq!(
        pallet.configure_crowdfund(Origin::Signed(CREATOR), 0, fund_min, fund_max, min, max, 100),
        Ok(())
    );
    pallet
}

fn start_distributing(pallet: &mut Pallet) {
    assert_eq!(pallet.crowdfund_next_phase(Origin::Signed(CAROL), 0, 101), Ok(()));
    assert_eq!(pallet.crowdfund_info(0).unwrap().phase, CrowdfundPhase::Distributing);
}

fn contribute(pallet: &mut Pallet, who: [u8; 32], amount: u128, block: u32) -> Result<(), DispatchError<Error>> {
    pallet.contribute_crowdfund(Origin::Signed(who), 0, amount, block, |_t| Ok(()))
}

#[test]
fn stash_account_encodes_pallet_id_and_index() {
    assert_eq!(&DISTRIBUTION_PALLET_ID, b"dropit/d");
    assert_eq!(Pallet::stash_account(0), stash_bytes(0));
    assert_eq!(Pallet::stash_account(0x01020304), stash_bytes(0x01020304));
    assert_ne!(Pallet::stash_account(1), Pallet::stash_account(2));
}

#[test]
fn create_distribution_assigns_sequential_ids() {
    let mut pallet = Pallet::new();
    assert_eq!(pallet.next_distribution_id(), 0);
    assert_eq!(pallet.create_distribution(Origin::Signed(CREATOR), 5, false), Ok(()));
    assert_eq!(pallet.create_distribution(Origin::Signed(ALICE), 6, true), Ok(()));
    assert_eq!(pallet.next_distribution_id(), 2);
    assert_eq!(
        pallet.distribution_info(0),
        Some(DistributionInfo {
            creator: CREATOR,
            asset_id: 5,
            stash_account: stash_bytes(0),
            crowdfunded: false,
            root_hash: None,
        })
    );
    assert_eq!(pallet.distribution_info(1).unwrap().creator, ALICE);
    assert_eq!(pallet.distribution_info(1).unwrap().stash_account, stash_bytes(1));
    assert_eq!(pallet.distribution_info(2), None);
    assert_eq!(
        pallet.events().clone(),
        vec![
            Event::DistributionCreated { id: 0, crowdfunded: false },
            Event::DistributionCreated { id: 1, crowdfunded: true },
        ]
    );
}

#[test]
fn create_distribution_needs_signed_origin() {
    let mut pallet = Pallet::new();
    assert_eq!(pallet.create_distribution(Origin::Unsigned, 5, false), Err(DispatchError::BadOrigin));
    assert_eq!(pallet.create_distribution(Origin::Root, 5, false), Err(DispatchError::BadOrigin));
    assert_eq!(pallet.next_distribution_id(), 0);
    assert!(pallet.events().is_empty());
}

#[test]
fn fund_distribution_transfers_to_stash() {
    let pallet = with_distribution(9, false);
    let mut seen = Vec::new();
    let r = pallet.fund_distribution(Origin::Signed(ALICE), 0, 500, |t| {
        seen.push(t);
        Ok(())
    });
    assert_eq!(r, Ok(()));
    assert_eq!(
        seen,
        vec![AssetTransfer {
            asset: 9,
            source: ALICE,
            dest: stash_bytes(0),
            amount: 500,
            preservation: Preservation::Protect,
        }]
    );
}

#[test]
fn fund_distribution_reports_transfer_failure() {
    let pallet = with_distribution(9, false);
    let r = pallet.fund_distribution(Origin::Signed(ALICE), 0, 500, |_t| {
        Err(DispatchError::Token(TokenError::FundsUnavailable))
    });
    assert_eq!(r, Err(DispatchError::Token(TokenError::FundsUnavailable)));
}

#[test]
fn fund_distribution_unknown_id() {
    let pallet = with_distribution(9, false);
    assert_eq!(
        pallet.fund_distribution(Origin::Signed(ALICE), 3, 500, no_asset_transfer),
        Err(DispatchError::Module(Error::DistributionIdDoesNotExist))
    );
    assert_eq!(
        pallet.fund_distribution(Origin::Unsigned, 0, 500, no_asset_transfer),
        Err(DispatchError::BadOrigin)
    );
}

#[test]
fn add_and_claim_distribution() {
    let mut pallet = with_distribution(9, false);
    assert_eq!(pallet.add_distribution(Origin::Signed(CREATOR), 0, ALICE, 40), Ok(()));
    assert_eq!(pallet.asset_distribution(0, &ALICE), Some(40));
    // anyone may claim on behalf of the recipient
    let mut seen = Vec::new();
    let r = pallet.claim_distribution(Origin::Signed(BOB), 0, ALICE, |t| {
        seen.push(t);
        Ok(())
    });
    assert_eq!(r, Ok(()));
    assert_eq!(
        seen,
        vec![AssetTransfer {
            asset: 9,
            source: stash_bytes(0),
            dest: ALICE,
            amount: 40,
            preservation: Preservation::Expendable,
        }]
    );
    assert_eq!(pallet.asset_distribution(0, &ALICE), None);
    assert_eq!(
        pallet.events().last(),
        Some(&Event::DistributionClaimed { id: 0, recipient: ALICE, amount: 40 })
    );
    // a second claim finds nothing
    assert_eq!(
        pallet.claim_distribution(Origin::Signed(BOB), 0, ALICE, no_asset_transfer),
        Err(DispatchError::Module(Error::DistributionDoesNotExist))
    );
}

#[test]
fn failed_claim_transfer_keeps_the_entry() {
    let mut pallet = with_distribution(9, false);
    assert_eq!(pallet.add_distribution(Origin::Signed(CREATOR), 0, ALICE, 40), Ok(()));
    let events = pallet.events().len();
    let r = pallet.claim_distribution(Origin::Signed(BOB), 0, ALICE, |_t| {
        Err(DispatchError::Token(TokenError::BelowMinimum))
    });
    assert_eq!(r, Err(DispatchError::Token(TokenError::BelowMinimum)));
    assert_eq!(pallet.asset_distribution(0, &ALICE), Some(40));
    assert_eq!(pallet.events().len(), events);
}

#[test]
fn add_distribution_overwrites() {
    let mut pallet = with_distribution(9, false);
    assert_eq!(pallet.add_distribution(Origin::Signed(CREATOR), 0, ALICE, 40), Ok(()));
    assert_eq!(pallet.add_distribution(Origin::Signed(CREATOR), 0, ALICE, 15), Ok(()));
    assert_eq!(pallet.asset_distribution(0, &ALICE), Some(15));
}

#[test]
fn add_distribution_checks() {
    let mut pallet = with_distribution(9, false);
    assert_eq!(pallet.create_distribution(Origin::Signed(CREATOR), 9, true), Ok(()));
    assert_eq!(
        pallet.add_distribution(Origin::Signed(ALICE), 0, ALICE, 40),
        Err(DispatchError::Module(Error::CreatorOnly))
    );
    assert_eq!(
        pallet.add_distribution(Origin::Signed(CREATOR), 1, ALICE, 40),
        Err(DispatchError::Module(Error::Crowdfunded))
    );
    assert_eq!(
        pallet.add_distribution(Origin::Signed(CREATOR), 2, ALICE, 40),
        Err(DispatchError::Module(Error::DistributionIdDoesNotExist))
    );
    assert_eq!(pallet.add_distribution(Origin::Unsigned, 0, ALICE, 40), Err(DispatchError::BadOrigin));
    assert_eq!(pallet.asset_distribution(0, &ALICE), None);
}

#[test]
fn add_distributions_writes_in_order() {
    let mut pallet = with_distribution(9, false);
    let before = pallet.events().len();
    assert_eq!(
        pallet.add_distributions(
            Origin::Signed(CREATOR),
            0,
            vec![(ALICE, 1), (BOB, 2), (ALICE, 3)]
        ),
        Ok(())
    );
    assert_eq!(pallet.asset_distribution(0, &ALICE), Some(3));
    assert_eq!(pallet.asset_distribution(0, &BOB), Some(2));
    assert_eq!(
        pallet.events()[before..].to_vec(),
        vec![
            Event::DistributionAdded { id: 0, recipient: ALICE, amount: 1 },
            Event::DistributionAdded { id: 0, recipient: BOB, amount: 2 },
            Event::DistributionAdded { id: 0, recipient: ALICE, amount: 3 },
        ]
    );
    assert_eq!(
        pallet.add_distributions(Origin::Signed(ALICE), 0, vec![(CAROL, 1)]),
        Err(DispatchError::Module(Error::CreatorOnly))
    );
    assert_eq!(pallet.asset_distribution(0, &CAROL), None);
}

#[test]
fn claim_distribution_unknown_id() {
    let mut pallet = with_distribution(9, false);
    assert_eq!(
        pallet.claim_distribution(Origin::Signed(BOB), 4, ALICE, no_asset_transfer),
        Err(DispatchError::Module(Error::DistributionIdDoesNotExist))
    );
}

#[test]
fn configure_crowdfund_sets_raising() {
    let pallet = with_crowdfund(50, Some(1000), 10, Some(200));
    assert_eq!(
        pallet.crowdfund_info(0),
        Some(CrowdfundInfo {
            phase: CrowdfundPhase::Raising,
            fund_min: 50,
            fund_max: Some(1000),
            min_contribution: 10,
            max_contribution: Some(200),
            total_contributed: 0,
            total_claimed: 0,
            end_block: 100,
        })
    );
    assert_eq!(
        pallet.events().last(),
        Some(&Event::CrowdfundConfigured {
            id: 0,
            fund_min: 50,
            fund_max: Some(1000),
            min_contribution: 10,
            max_contribution: Some(200),
        })
    );
}

#[test]
fn configure_crowdfund_rejects_zero_bounds() {
    let mut pallet = with_distribution(7, true);
    let zero = Err(DispatchError::Module(Error::ZeroNotAllowed));
    assert_eq!(pallet.configure_crowdfund(Origin::Signed(CREATOR), 0, 1, None, 1, Some(0), 100), zero);
    assert_eq!(pallet.configure_crowdfund(Origin::Signed(CREATOR), 0, 1, Some(0), 1, None, 100), zero);
    assert_eq!(pallet.configure_crowdfund(Origin::Signed(CREATOR), 0, 1, None, 0, None, 100), zero);
    assert_eq!(pallet.configure_crowdfund(Origin::Signed(CREATOR), 0, 0, None, 1, None, 100), zero);
    // zero checks come before the existence check
    assert_eq!(pallet.configure_crowdfund(Origin::Signed(CREATOR), 9, 0, None, 1, None, 100), zero);
    assert_eq!(pallet.crowdfund_info(0), None);
}

#[test]
fn configure_crowdfund_checks_distribution() {
    let mut pallet = with_distribution(7, false);
    assert_eq!(pallet.create_distribution(Origin::Signed(CREATOR), 7, true), Ok(()));
    assert_eq!(
        pallet.configure_crowdfund(Origin::Signed(CREATOR), 0, 1, None, 1, None, 100),
        Err(DispatchError::Module(Error::NotCrowdfunded))
    );
    assert_eq!(
        pallet.configure_crowdfund(Origin::Signed(ALICE), 1, 1, None, 1, None, 100),
        Err(DispatchError::Module(Error::CreatorOnly))
    );
    assert_eq!(
        pallet.configure_crowdfund(Origin::Signed(CREATOR), 2, 1, None, 1, None, 100),
        Err(DispatchError::Module(Error::DistributionIdDoesNotExist))
    );
    assert_eq!(
        pallet.configure_crowdfund(Origin::Root, 1, 1, None, 1, None, 100),
        Err(DispatchError::BadOrigin)
    );
}

#[test]
fn contribute_crowdfund_records_and_transfers() {
    let mut pallet = with_crowdfund(50, Some(1000), 10, Some(200));
    let mut seen = Vec::new();
    let r = pallet.contribute_crowdfund(Origin::Signed(ALICE), 0, 120, 100, |t| {
        seen.push(t);
        Ok(())
    });
    assert_eq!(r, Ok(()));
    assert_eq!(
        seen,
        vec![NativeTransfer {
            source: ALICE,
            dest: stash_bytes(0),
            amount: 120,
            preservation: Preservation::Preserve,
        }]
    );
    assert_eq!(pallet.crowdfund_contribution(0, &ALICE), Some(120));
    assert_eq!(pallet.crowdfund_info(0).unwrap().total_contributed, 120);
    // a second contribution adds to the record and to the total
    assert_eq!(contribute(&mut pallet, ALICE, 30, 50), Ok(()));
    assert_eq!(pallet.crowdfund_contribution(0, &ALICE), Some(150));
    assert_eq!(pallet.crowdfund_info(0).unwrap().total_contributed, 150);
}

#[test]
fn contribute_crowdfund_checks() {
    let mut pallet = with_crowdfund(50, Some(300), 10, Some(200));
    let err = |e| Err(DispatchError::Module(e));
    assert_eq!(contribute(&mut pallet, ALICE, 201, 1), err(Error::ContributionTooBig));
    assert_eq!(contribute(&mut pallet, ALICE, 9, 1), err(Error::ContributionTooSmall));
    assert_eq!(contribute(&mut pallet, ALICE, 200, 101), err(Error::ContributionPeriodEnded));
    assert_eq!(contribute(&mut pallet, ALICE, 200, 100), Ok(()));
    assert_eq!(contribute(&mut pallet, BOB, 101, 1), err(Error::ContributionLimitReached));
    assert_eq!(contribute(&mut pallet, BOB, 100, 1), Ok(()));
    assert_eq!(
        pallet.contribute_crowdfund(Origin::Signed(BOB), 1, 100, 1, no_native_transfer),
        err(Error::NotCrowdfunded)
    );
    assert_eq!(
        pallet.contribute_crowdfund(Origin::Unsigned, 0, 100, 1, no_native_transfer),
        Err(DispatchError::BadOrigin)
    );
    assert_eq!(pallet.crowdfund_info(0).unwrap().total_contributed, 300);
}

#[test]
fn contribute_crowdfund_overflow() {
    let mut pallet = with_crowdfund(50, None, 1, None);
    assert_eq!(contribute(&mut pallet, ALICE, u128::MAX, 1), Ok(()));
    assert_eq!(
        contribute(&mut pallet, BOB, 1, 1),
        Err(DispatchError::Arithmetic(ArithmeticError::Overflow))
    );
    assert_eq!(pallet.crowdfund_contribution(0, &BOB), None);
}

#[test]
fn contribute_crowdfund_failed_transfer_changes_nothing() {
    let mut pallet = with_crowdfund(50, None, 1, None);
    let r = pallet.contribute_crowdfund(Origin::Signed(ALICE), 0, 40, 1, |_t| {
        Err(DispatchError::Token(TokenError::Frozen))
    });
    assert_eq!(r, Err(DispatchError::Token(TokenError::Frozen)));
    assert_eq!(pallet.crowdfund_contribution(0, &ALICE), None);
    assert_eq!(pallet.crowdfund_info(0).unwrap().total_contributed, 0);
}

#[test]
fn next_phase_waits_for_end_block() {
    let mut pallet = with_crowdfund(50, None, 10, None);
    assert_eq!(
        pallet.crowdfund_next_phase(Origin::Signed(BOB), 0, 100),
        Err(DispatchError::Module(Error::ContributionPeriodOngoing))
    );
    assert_eq!(pallet.crowdfund_info(0).unwrap().phase, CrowdfundPhase::Raising);
}

#[test]
fn next_phase_distributes_when_fund_min_raised() {
    let mut pallet = with_crowdfund(50, None, 10, None);
    assert_eq!(contribute(&mut pallet, ALICE, 50, 1), Ok(()));
    assert_eq!(pallet.crowdfund_next_phase(Origin::Signed(BOB), 0, 101), Ok(()));
    assert_eq!(pallet.crowdfund_info(0).unwrap().phase, CrowdfundPhase::Distributing);
    assert_eq!(
        pallet.events().last(),
        Some(&Event::NewCrowdfundPhase { id: 0, new_phase: CrowdfundPhase::Distributing })
    );
    // further calls change nothing
    let events = pallet.events().len();
    assert_eq!(pallet.crowdfund_next_phase(Origin::Signed(BOB), 0, 500), Ok(()));
    assert_eq!(pallet.crowdfund_info(0).unwrap().phase, CrowdfundPhase::Distributing);
    assert_eq!(pallet.events().len(), events);
    assert_eq!(contribute(&mut pallet, BOB, 50, 1), Err(DispatchError::Module(Error::WrongPhase)));
}

#[test]
fn next_phase_fails_when_fund_min_missed() {
    let mut pallet = with_crowdfund(50, None, 10, None);
    assert_eq!(contribute(&mut pallet, ALICE, 49, 1), Ok(()));
    assert_eq!(pallet.crowdfund_next_phase(Origin::Signed(BOB), 0, 101), Ok(()));
    assert_eq!(pallet.crowdfund_info(0).unwrap().phase, CrowdfundPhase::Failed);
}

#[test]
fn next_phase_early_when_contributions_full() {
    let mut pallet = with_crowdfund(50, None, 10, Some(100));
    assert_eq!(contribute(&mut pallet, ALICE, 91, 1), Ok(()));
    assert_eq!(pallet.crowdfund_next_phase(Origin::Signed(BOB), 0, 1), Ok(()));
    assert_eq!(pallet.crowdfund_info(0).unwrap().phase, CrowdfundPhase::Distributing);
}

#[test]
fn next_phase_unknown_crowdfund() {
    let mut pallet = with_distribution(7, true);
    assert_eq!(
        pallet.crowdfund_next_phase(Origin::Signed(BOB), 0, 1),
        Err(DispatchError::Module(Error::NotCrowdfunded))
    );
    assert_eq!(pallet.crowdfund_next_phase(Origin::Unsigned, 0, 1), Err(DispatchError::BadOrigin));
}

#[test]
fn claim_crowdfund_pays_proportional_shares() {
    let mut pallet = with_crowdfund(50, None, 10, None);
    assert_eq!(contribute(&mut pallet, ALICE, 30, 1), Ok(()));
    assert_eq!(contribute(&mut pallet, BOB, 70, 1), Ok(()));
    start_distributing(&mut pallet);
    let mut seen = Vec::new();
    let r = pallet.claim_crowdfund_distribution(Origin::Signed(CAROL), 0, ALICE, 101, 1000, |t| {
        seen.push(t);
        Ok(())
    });
    assert_eq!(r, Ok(()));
    assert_eq!(
        seen,
        vec![AssetTransfer {
            asset: 7,
            source: stash_bytes(0),
            dest: ALICE,
            amount: 300,
            preservation: Preservation::Expendable,
        }]
    );
    assert_eq!(pallet.crowdfund_info(0).unwrap().total_claimed, 30);
    assert_eq!(pallet.crowdfund_contribution(0, &ALICE), None);
    // the last claimant takes what is left in the stash
    seen.clear();
    let r = pallet.claim_crowdfund_distribution(Origin::Signed(CAROL), 0, BOB, 101, 700, |t| {
        seen.push(t);
        Ok(())
    });
    assert_eq!(r, Ok(()));
    assert_eq!(seen[0].amount, 700);
    assert_eq!(pallet.crowdfund_info(0).unwrap().total_claimed, 100);
    assert_eq!(
        pallet.claim_crowdfund_distribution(Origin::Signed(CAROL), 0, BOB, 101, 0, no_asset_transfer),
        Err(DispatchError::Module(Error::DistributionDoesNotExist))
    );
}

#[test]
fn claim_crowdfund_rounds_to_nearest() {
    let mut pallet = with_crowdfund(1, None, 1, None);
    assert_eq!(contribute(&mut pallet, ALICE, 2, 1), Ok(()));
    assert_eq!(contribute(&mut pallet, BOB, 1, 1), Ok(()));
    start_distributing(&mut pallet);
    let mut seen = Vec::new();
    // 2/3 is 666_666_666 parts per billion; of 10 tokens that is 6.67, rounded to 7
    let r = pallet.claim_crowdfund_distribution(Origin::Signed(CAROL), 0, ALICE, 101, 10, |t| {
        seen.push(t.amount);
        Ok(())
    });
    assert_eq!(r, Ok(()));
    let r = pallet.claim_crowdfund_distribution(Origin::Signed(CAROL), 0, BOB, 101, 3, |t| {
        seen.push(t.amount);
        Ok(())
    });
    assert_eq!(r, Ok(()));
    assert_eq!(seen, vec![7, 3]);
}

#[test]
fn claim_crowdfund_rounds_down_below_half() {
    let mut pallet = with_crowdfund(1, None, 1, None);
    assert_eq!(contribute(&mut pallet, ALICE, 1, 1), Ok(()));
    assert_eq!(contribute(&mut pallet, BOB, 2, 1), Ok(()));
    start_distributing(&mut pallet);
    let mut seen = Vec::new();
    // 1/3 is 333_333_333 parts per billion; of 10 tokens that is 3.33, rounded to 3
    let r = pallet.claim_crowdfund_distribution(Origin::Signed(CAROL), 0, ALICE, 101, 10, |t| {
        seen.push(t.amount);
        Ok(())
    });
    assert_eq!(r, Ok(()));
    assert_eq!(seen, vec![3]);
}

#[test]
fn claim_crowdfund_checks() {
    let mut pallet = with_crowdfund(1, None, 1, Some(5));
    assert_eq!(
        pallet.claim_crowdfund_distribution(Origin::Signed(CAROL), 0, ALICE, 101, 10, no_asset_transfer),
        Err(DispatchError::Module(Error::DistributionDoesNotExist))
    );
    assert_eq!(contribute(&mut pallet, ALICE, 5, 1), Ok(()));
    // no claim while raising
    assert_eq!(
        pallet.claim_crowdfund_distribution(Origin::Signed(CAROL), 0, ALICE, 101, 10, no_asset_transfer),
        Err(DispatchError::Module(Error::WrongPhase))
    );
    // the crowdfund is full, so it distributes before its end block
    assert_eq!(pallet.crowdfund_next_phase(Origin::Signed(CAROL), 0, 1), Ok(()));
    assert_eq!(pallet.crowdfund_info(0).unwrap().phase, CrowdfundPhase::Distributing);
    assert_eq!(
        pallet.claim_crowdfund_distribution(Origin::Signed(CAROL), 0, ALICE, 100, 10, no_asset_transfer),
        Err(DispatchError::Module(Error::ContributionPeriodOngoing))
    );
    assert_eq!(
        pallet.claim_crowdfund_distribution(Origin::Unsigned, 0, ALICE, 101, 10, no_asset_transfer),
        Err(DispatchError::BadOrigin)
    );
    // a failed transfer keeps the record
    assert_eq!(
        pallet.claim_crowdfund_distribution(Origin::Signed(CAROL), 0, ALICE, 101, 10, |_t| {
            Err(DispatchError::Other)
        }),
        Err(DispatchError::Other)
    );
    assert_eq!(pallet.crowdfund_contribution(0, &ALICE), Some(5));
    assert_eq!(pallet.crowdfund_info(0).unwrap().total_claimed, 0);
}

#[test]
fn no_claims_from_failed_crowdfund() {
    let mut pallet = with_crowdfund(50, None, 1, None);
    assert_eq!(contribute(&mut pallet, ALICE, 5, 1), Ok(()));
    assert_eq!(pallet.crowdfund_next_phase(Origin::Signed(CAROL), 0, 101), Ok(()));
    assert_eq!(pallet.crowdfund_info(0).unwrap().phase, CrowdfundPhase::Failed);
    assert_eq!(
        pallet.claim_crowdfund_distribution(Origin::Signed(CAROL), 0, ALICE, 101, 10, no_asset_transfer),
        Err(DispatchError::Module(Error::WrongPhase))
    );
    assert_eq!(pallet.crowdfund_contribution(0, &ALICE), Some(5));
}

#[test]
fn crowdfund_is_configured_once() {
    let mut pallet = with_crowdfund(1, None, 1, None);
    assert_eq!(contribute(&mut pallet, ALICE, 5, 1), Ok(()));
    assert_eq!(
        pallet.configure_crowdfund(Origin::Signed(CREATOR), 0, 2, None, 1, None, 200),
        Err(DispatchError::Module(Error::CrowdfundAlreadyConfigured))
    );
    let info = pallet.crowdfund_info(0).unwrap();
    assert_eq!((info.fund_min, info.total_contributed, info.end_block), (1, 5, 100));
}

#[test]
fn claim_crowdfund_raise_after_all_claims() {
    let mut pallet = with_crowdfund(10, None, 1, None);
    assert_eq!(contribute(&mut pallet, ALICE, 30, 1), Ok(()));
    assert_eq!(contribute(&mut pallet, BOB, 20, 1), Ok(()));
    // not before distributing
    assert_eq!(
        pallet.claim_crowdfund_raise(Origin::Signed(CREATOR), 0, no_native_transfer),
        Err(DispatchError::Module(Error::WrongPhase))
    );
    start_distributing(&mut pallet);
    // only the creator
    assert_eq!(
        pallet.claim_crowdfund_raise(Origin::Signed(ALICE), 0, no_native_transfer),
        Err(DispatchError::Module(Error::CreatorOnly))
    );
    // not while contributors are still owed
    assert_eq!(
        pallet.claim_crowdfund_raise(Origin::Signed(CREATOR), 0, no_native_transfer),
        Err(DispatchError::Module(Error::ClaimsOutstanding))
    );
    assert_eq!(
        pallet.claim_crowdfund_distribution(Origin::Signed(CAROL), 0, ALICE, 101, 500, |_t| Ok(())),
        Ok(())
    );
    assert_eq!(
        pallet.claim_crowdfund_distribution(Origin::Signed(CAROL), 0, BOB, 101, 200, |_t| Ok(())),
        Ok(())
    );
    // a failed transfer changes nothing
    assert_eq!(
        pallet.claim_crowdfund_raise(Origin::Signed(CREATOR), 0, |_t| Err(DispatchError::Other)),
        Err(DispatchError::Other)
    );
    assert_eq!(pallet.crowdfund_info(0).unwrap().phase, CrowdfundPhase::Distributing);
    let mut seen = Vec::new();
    assert_eq!(
        pallet.claim_crowdfund_raise(Origin::Signed(CREATOR), 0, |t| {
            seen.push(t);
            Ok(())
        }),
        Ok(())
    );
    assert_eq!(
        seen,
        vec![NativeTransfer {
            source: stash_bytes(0),
            dest: CREATOR,
            amount: 50,
            preservation: Preservation::Expendable,
        }]
    );
    assert_eq!(pallet.crowdfund_info(0).unwrap().phase, CrowdfundPhase::Ended);
    assert_eq!(
        pallet.events().last(),
        Some(&Event::NewCrowdfundPhase { id: 0, new_phase: CrowdfundPhase::Ended })
    );
    // only once
    assert_eq!(
        pallet.claim_crowdfund_raise(Origin::Signed(CREATOR), 0, no_native_transfer),
        Err(DispatchError::Module(Error::WrongPhase))
    );
}

#[test]
fn claim_crowdfund_raise_checks() {
    let mut pallet = with_distribution(7, true);
    assert_eq!(
        pallet.claim_crowdfund_raise(Origin::Signed(CREATOR), 0, no_native_transfer),
        Err(DispatchError::Module(Error::NotCrowdfunded))
    );
    assert_eq!(
        pallet.claim_crowdfund_raise(Origin::Unsigned, 0, no_native_transfer),
        Err(DispatchError::BadOrigin)
    );
}

#[test]
fn claims_stay_within_contributions() {
    let mut pallet = with_crowdfund(1, None, 1, None);
    assert_eq!(contribute(&mut pallet, ALICE, 10, 1), Ok(()));
    assert_eq!(contribute(&mut pallet, BOB, 20, 1), Ok(()));
    assert_eq!(contribute(&mut pallet, ALICE, 5, 1), Ok(()));
    let info = pallet.crowdfund_info(0).unwrap();
    let recorded = pallet.crowdfund_contribution(0, &ALICE).unwrap()
        + pallet.crowdfund_contribution(0, &BOB).unwrap();
    assert_eq!((info.total_contributed, recorded), (35, 35));
    start_distributing(&mut pallet);
    assert_eq!(
        pallet.claim_crowdfund_distribution(Origin::Signed(CAROL), 0, BOB, 101, 350, |_t| Ok(())),
        Ok(())
    );
    let info = pallet.crowdfund_info(0).unwrap();
    assert_eq!(info.total_claimed, 20);
    assert_eq!(info.total_claimed + pallet.crowdfund_contribution(0, &ALICE).unwrap(), info.total_contributed);
}
