use dropit::inherent::{InherentDataProvider, InherentError, INHERENT_IDENTIFIER};

#[test]
fn inherent_identifier_is_authrdst() {
    assert_eq!(&INHERENT_IDENTIFIER, b"authrdst");
}

#[test]
fn inherent_error_from_matching_identifier() {
    assert_eq!(InherentError::try_from(&INHERENT_IDENTIFIER, &[]), Some(InherentError));
    assert_eq!(InherentError::try_from(&INHERENT_IDENTIFIER, &[1, 2, 3]), Some(InherentError));
}

#[test]
fn inherent_error_from_other_identifier() {
    assert_eq!(InherentError::try_from(b"timstap0", &[]), None);
    assert_eq!(InherentError::try_from(b"authrdsu", &[0]), None);
}

#[test]
fn inherent_error_is_fatal_and_displays() {
    assert!(InherentError.is_fatal_error());
    assert_eq!(InherentError.message(), "Error for author reward destination inherent");
}

#[test]
fn inherent_data_provider_holds_dest() {
    let provider = InherentDataProvider::new([6; 32]);
    assert_eq!(*provider.dest(), [6; 32]);
}
