use quorum::account::{
    option_seeds, stored_len, MAX_EVENT_DATE_LEN, MAX_EVENT_NAME_LEN, MAX_OPTION_ID_LEN,
    MAX_QUANTITY, MAX_ROYALTY_BPS, MAX_TICKET_TYPE_LEN, OPTION_SEED_TAG,
};
use quorum::{Identity, OptionContract, OptionStatus, QuorumError};

fn record(option_id: &str, event_name: &str, event_date: &str, ticket_type: &str) -> OptionContract {
    OptionContract {
        option_id: option_id.to_string(),
        event_name: event_name.to_string(),
        event_date: event_date.to_string(),
        ticket_type: ticket_type.to_string(),
        quantity: 2,
        premium_lamports: 1_000_000,
        holder: Identity::new([3u8; 32]),
        expiry: 20,
        status: 0,
        created_at: 10,
        venue_royalty_bps: 1000,
        bump: 255,
    }
}

#[test]
fn the_allocation_is_229_bytes() {
    assert_eq!(OptionContract::MAX_SIZE, 229);
}

#[test]
fn the_bounds_are_those_of_the_rules() {
    assert_eq!(MAX_OPTION_ID_LEN, 32);
    assert_eq!(MAX_EVENT_NAME_LEN, 64);
    assert_eq!(MAX_EVENT_DATE_LEN, 16);
    assert_eq!(MAX_TICKET_TYPE_LEN, 32);
    assert_eq!(MAX_QUANTITY, 20);
    assert_eq!(MAX_ROYALTY_BPS, 5000);
}

#[test]
fn a_record_of_longest_strings_fills_the_allocation() {
    let full = record(&"a".repeat(32), &"b".repeat(64), &"c".repeat(16), &"d".repeat(32));
    assert_eq!(full.encoded_len(), Some(OptionContract::MAX_SIZE));
}

#[test]
fn encoded_len_counts_marker_prefixes_and_fields() {
    assert_eq!(record("", "", "", "").encoded_len(), Some(85));
    assert_eq!(OptionContract::default().encoded_len(), Some(85));
    assert_eq!(record("EVT-1", "Florist", "2026-03-01", "GA Early Bird").encoded_len(), Some(85 + 5 + 7 + 10 + 13));
    assert_eq!(record("\u{20AC}", "", "", "").encoded_len(), Some(88));
}

#[test]
fn stored_len_is_the_byte_count() {
    assert_eq!(stored_len(""), 0);
    assert_eq!(stored_len("EVT-1"), 5);
    assert_eq!(stored_len("\u{00E9}"), 2);
    assert_eq!(stored_len("\u{1F3AB}!"), 5);
}

#[test]
fn the_seeds_are_the_tag_and_the_id() {
    assert_eq!(&OPTION_SEED_TAG, b"option");
    assert_eq!(option_seeds("EVT-1"), vec![b"option".to_vec(), b"EVT-1".to_vec()]);
    assert_eq!(option_seeds(""), vec![b"option".to_vec(), Vec::new()]);
    assert_eq!(option_seeds("\u{00E9}"), vec![b"option".to_vec(), vec![0xC3, 0xA9]]);
}

#[test]
fn different_ids_have_different_seeds() {
    assert_eq!(option_seeds("EVT-1"), option_seeds("EVT-1"));
    assert_ne!(option_seeds("EVT-1"), option_seeds("EVT-2"));
    assert_ne!(option_seeds("EVT-1"), option_seeds("EVT-10"));
}

#[test]
fn status_codes_round_trip() {
    assert_eq!(OptionStatus::Active.code(), 0);
    assert_eq!(OptionStatus::Exercised.code(), 1);
    assert_eq!(OptionStatus::Expired.code(), 2);
    for status in [OptionStatus::Active, OptionStatus::Exercised, OptionStatus::Expired] {
        assert_eq!(OptionStatus::from_code(status.code()), Some(status));
    }
    assert_eq!(OptionStatus::from_code(3), None);
    assert_eq!(OptionStatus::from_code(255), None);
}

#[test]
fn a_blank_account_is_all_zero() {
    let blank = OptionContract::default();
    assert_eq!(blank.option_id, "");
    assert_eq!(blank.event_name, "");
    assert_eq!(blank.event_date, "");
    assert_eq!(blank.ticket_type, "");
    assert_eq!(blank.quantity, 0);
    assert_eq!(blank.premium_lamports, 0);
    assert_eq!(blank.holder, Identity::new([0u8; 32]));
    assert_eq!(blank.holder, Identity::default());
    assert_eq!(blank.expiry, 0);
    assert_eq!(blank.status, 0);
    assert_eq!(blank.created_at, 0);
    assert_eq!(blank.venue_royalty_bps, 0);
    assert_eq!(blank.bump, 0);
}

#[test]
fn identities_are_equal_when_every_byte_is() {
    let a = Identity::new([5u8; 32]);
    let mut bytes = [5u8; 32];
    assert_eq!(a, Identity::new(bytes));
    assert_eq!(a.to_bytes(), bytes);
    bytes[0] = 6;
    assert_ne!(a, Identity::new(bytes));
    bytes[0] = 5;
    bytes[31] = 4;
    assert_ne!(a, Identity::new(bytes));
    bytes[31] = 5;
    bytes[17] = 0;
    assert_ne!(a, Identity::new(bytes));
}

#[test]
fn every_error_has_its_sentence() {
    assert_eq!(QuorumError::InvalidQuantity.message(), "Quantity must be between 1 and 20");
    assert_eq!(QuorumError::InvalidPremium.message(), "Premium must be greater than 0");
    assert_eq!(QuorumError::StringTooLong.message(), "String exceeds maximum length");
    assert_eq!(QuorumError::InvalidRoyalty.message(), "Venue royalty cannot exceed 50%");
    assert_eq!(QuorumError::ExpiryInPast.message(), "Expiry timestamp must be in the future");
    assert_eq!(QuorumError::NotActive.message(), "Option is not in Active status");
    assert_eq!(QuorumError::UnauthorizedHolder.message(), "Only the option holder can exercise");
    assert_eq!(QuorumError::OptionExpired.message(), "Option has expired");
    assert_eq!(QuorumError::NotExpiredYet.message(), "Option has not expired yet");
}
