use dropit::author_reward_dest::{Call, Error, InherentDataError, Pallet};
use dropit::inherent::INHERENT_IDENTIFIER;
use dropit::support::{DispatchError, Origin};
use frame_support::inherent::InherentData;
use frame_support::sp_runtime::AccountId32;

#[test]
fn set_author_test() {
    let mut author_reward_dest = Pallet::new();

    let mut inherent_data = InherentData::new();

    let author = AccountId32::new([1; 32]);
    inherent_data.put_data(INHERENT_IDENTIFIER, &author).unwrap();

    let inherent_extrinsic = Pallet::create_inherent(&inherent_data);
    let inherent_extrinsic = inherent_extrinsic.expect("inherent extrinsic is mandatory");
    assert!(Pallet::is_inherent(&inherent_extrinsic));

    assert_eq!(author_reward_dest.author(), None);

    inherent_extrinsic
        .clone()
        .dispatch_bypass_filter(&mut author_reward_dest, Origin::Unsigned)
        .unwrap();

    assert_eq!(author_reward_dest.author(), Some([1; 32]));

    assert_eq!(
        inherent_extrinsic.dispatch_bypass_filter(&mut author_reward_dest, Origin::Unsigned),
        Err(DispatchError::Module(Error::AlreadySet)),
    );

    assert_eq!(author_reward_dest.author(), Some([1; 32]));

    author_reward_dest.on_finalize(1);

    assert_eq!(author_reward_dest.author(), None);
}

#[test]
fn set_author_requires_unsigned_origin() {
    let mut pallet = Pallet::new();
    assert_eq!(
        pallet.set_author_reward_dest(Origin::Signed([2; 32]), [3; 32]),
        Err(DispatchError::BadOrigin)
    );
    assert_eq!(pallet.set_author_reward_dest(Origin::Root, [3; 32]), Err(DispatchError::BadOrigin));
    assert_eq!(pallet.author(), None);
    assert_eq!(pallet.set_author_reward_dest(Origin::Unsigned, [3; 32]), Ok(()));
    assert_eq!(pallet.author(), Some([3; 32]));
}

#[test]
fn set_author_again_after_finalize() {
    let mut pallet = Pallet::new();
    assert_eq!(pallet.set_author_reward_dest(Origin::Unsigned, [4; 32]), Ok(()));
    assert_eq!(
        pallet.set_author_reward_dest(Origin::Unsigned, [5; 32]),
        Err(DispatchError::Module(Error::AlreadySet))
    );
    assert_eq!(pallet.author(), Some([4; 32]));
    pallet.on_finalize(7);
    assert_eq!(pallet.set_author_reward_dest(Origin::Unsigned, [5; 32]), Ok(()));
    assert_eq!(pallet.author(), Some([5; 32]));
}

#[test]
fn create_inherent_reads_the_first_32_bytes() {
    let mut data = InherentData::new();
    let mut bytes = vec![9u8; 32];
    bytes.extend_from_slice(&[7u8; 4]);
    let account: [u8; 32] = [9; 32];
    // a longer entry still decodes to its first 32 bytes
    data.put_data(INHERENT_IDENTIFIER, &(account, [7u8; 4])).unwrap();
    let call = Pallet::create_inherent(&data).unwrap();
    assert_eq!(call, Call::SetAuthorRewardDest { dest: [9; 32] });
    assert!(Pallet::check_inherent(&call, &data).is_ok());
    assert_eq!(bytes.len(), 36);
}

#[test]
fn try_create_inherent_reports_missing_or_short_data() {
    let data = InherentData::new();
    assert_eq!(Pallet::try_create_inherent(&data), Err(InherentDataError::NotProvided));
    let mut short = InherentData::new();
    short.put_data(INHERENT_IDENTIFIER, &[1u8; 8]).unwrap();
    assert_eq!(Pallet::try_create_inherent(&short), Err(InherentDataError::NotCorrectlyEncoded));
    let mut full = InherentData::new();
    full.put_data(INHERENT_IDENTIFIER, &AccountId32::new([2; 32])).unwrap();
    assert_eq!(
        Pallet::try_create_inherent(&full),
        Ok(Call::SetAuthorRewardDest { dest: [2; 32] })
    );
}
