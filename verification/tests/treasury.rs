use dropit::support::{DispatchError, Origin, Payout};
use dropit::treasury::{Error, Event, HoldReason, Pallet, Proposal, TREASURY_PALLET_ID};

const ALICE: [u8; 32] = [2; 32];
const BOB: [u8; 32] = [3; 32];

fn treasury_bytes() -> [u8; 32] {
    let mut expected = [0u8; 32];
    expected[..4].copy_from_slice(b"modl");
    expected[4..12].copy_from_slice(b"dropit/t");
    expected
}

#[test]
fn treasury_account_is_derived_from_pallet_id() {
    assert_eq!(&TREASURY_PALLET_ID, b"dropit/t");
    assert_eq!(Pallet::account_id(), treasury_bytes());
}

#[test]
fn propose_spend_holds_bond_and_stores_proposal() {
    let mut pallet = Pallet::new(25);
    let mut holds = Vec::new();
    let r = pallet.propose_spend(Origin::Signed(ALICE), 1000, BOB, |reason, who, amount| {
        holds.push((reason, who, amount));
        Ok(())
    });
    assert_eq!(r, Ok(()));
    assert_eq!(holds, vec![(HoldReason::TreasuryProposal, ALICE, 25)]);
    assert_eq!(pallet.proposal_count(), 1);
    assert_eq!(
        pallet.proposal(0),
        Some(Proposal { proposer: ALICE, value: 1000, beneficiary: BOB, bond: 25 })
    );
    assert_eq!(pallet.events().clone(), vec![Event::Proposed { proposal_index: 0 }]);
    // the bond does not depend on the value
    let r = pallet.propose_spend(Origin::Signed(BOB), 7, ALICE, |_r, _w, amount| {
        assert_eq!(amount, 25);
        Ok(())
    });
    assert_eq!(r, Ok(()));
    assert_eq!(pallet.proposal_count(), 2);
    assert_eq!(pallet.proposal(1).unwrap().bond, 25);
    assert_eq!(pallet.events().last(), Some(&Event::Proposed { proposal_index: 1 }));
}

#[test]
fn propose_spend_without_bond() {
    let mut pallet = Pallet::new(25);
    let r = pallet.propose_spend(Origin::Signed(ALICE), 1000, BOB, |_r, _w, _a| {
        Err(DispatchError::Other)
    });
    assert_eq!(r, Err(DispatchError::Module(Error::InsufficientProposersBalance)));
    assert_eq!(pallet.proposal_count(), 0);
    assert_eq!(pallet.proposal(0), None);
    assert!(pallet.events().is_empty());
}

#[test]
fn propose_spend_needs_signed_origin() {
    let mut pallet = Pallet::new(25);
    let r = pallet.propose_spend(Origin::Unsigned, 1000, BOB, |_r, _w, _a| -> Result<(), DispatchError<Error>> {
        panic!("no hold expected")
    });
    assert_eq!(r, Err(DispatchError::BadOrigin));
    assert_eq!(pallet.proposal_count(), 0);
}

#[test]
fn treasury_collects_credits() {
    assert_eq!(
        Pallet::on_nonzero_unbalanced(42),
        Payout { account: treasury_bytes(), amount: 42 }
    );
}

#[test]
fn bond_does_not_depend_on_value() {
    let pallet = Pallet::new(25);
    assert_eq!(pallet.calculate_bond(0), 25);
    assert_eq!(pallet.calculate_bond(u128::MAX), 25);
}
