use hodlvoice::state::Hodlstate;

#[test]
fn wire_texts_are_canonical() {
    assert_eq!(Hodlstate::Hodl.to_string(), "hodl".to_string());
    assert_eq!(Hodlstate::Reject.to_string(), "reject".to_string());
    assert_eq!(Hodlstate::Accept.to_string(), "accept".to_string());
}

#[test]
fn decoding_canonical_texts() {
    assert_eq!(Hodlstate::from_str("hodl"), Some(Hodlstate::Hodl));
    assert_eq!(Hodlstate::from_str("reject"), Some(Hodlstate::Reject));
    assert_eq!(Hodlstate::from_str("accept"), Some(Hodlstate::Accept));
}

#[test]
fn decoding_is_case_insensitive() {
    assert_eq!(Hodlstate::from_str("HODL"), Some(Hodlstate::Hodl));
    assert_eq!(Hodlstate::from_str("Hodl"), Some(Hodlstate::Hodl));
    assert_eq!(Hodlstate::from_str("ReJeCt"), Some(Hodlstate::Reject));
    assert_eq!(Hodlstate::from_str("ACCEPT"), Some(Hodlstate::Accept));
}

#[test]
fn unrecognized_texts_decode_to_nothing() {
    assert_eq!(Hodlstate::from_str("maybe"), None);
    assert_eq!(Hodlstate::from_str(""), None);
    assert_eq!(Hodlstate::from_str("hodl "), None);
    assert_eq!(Hodlstate::from_str("hodler"), None);
    assert_eq!(Hodlstate::from_str("accep"), None);
}

#[test]
fn encoding_then_decoding_returns_the_state() {
    for st in [Hodlstate::Hodl, Hodlstate::Reject, Hodlstate::Accept] {
        let text = st.to_string();
        assert_eq!(Hodlstate::from_str(text.as_str()), Some(st));
    }
}
