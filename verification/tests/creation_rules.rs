use quorum::terms::{check_terms, check_terms_at};
use quorum::{create_option_at, CreateOption, Creation, Identity, OptionContract, QuorumError};

const NOW: i64 = 1_770_000_000;

fn try_create(
    option_id: &str,
    event_name: &str,
    event_date: &str,
    ticket_type: &str,
    quantity: u8,
    premium_lamports: u64,
    expiry: i64,
    venue_royalty_bps: u16,
) -> (Result<Creation, QuorumError>, CreateOption, CreateOption) {
    let before = CreateOption {
        option_contract: OptionContract::default(),
        holder: Identity::new([1u8; 32]),
        bump: 255,
    };
    let mut ctx = before.clone();
    let outcome = create_option_at(
        &mut ctx,
        option_id.to_string(),
        event_name.to_string(),
        event_date.to_string(),
        ticket_type.to_string(),
        quantity,
        premium_lamports,
        expiry,
        venue_royalty_bps,
        NOW,
    );
    (outcome, before, ctx)
}

fn rejected_with(
    error: QuorumError,
    option_id: &str,
    event_name: &str,
    event_date: &str,
    ticket_type: &str,
    quantity: u8,
    premium_lamports: u64,
    expiry: i64,
    venue_royalty_bps: u16,
) {
    let (outcome, before, after) = try_create(
        option_id,
        event_name,
        event_date,
        ticket_type,
        quantity,
        premium_lamports,
        expiry,
        venue_royalty_bps,
    );
    assert_eq!(outcome, Err(error));
    assert_eq!(after, before);
}

fn accepted(quantity: u8, premium_lamports: u64, expiry: i64, venue_royalty_bps: u16) -> bool {
    try_create("EVT-1", "Florist", "2026-03-01", "GA", quantity, premium_lamports, expiry, venue_royalty_bps)
        .0
        .is_ok()
}

#[test]
fn quantity_one_and_twenty_are_accepted() {
    assert!(accepted(1, 1, NOW + 1, 0));
    assert!(accepted(20, 1, NOW + 1, 0));
}

#[test]
fn quantity_zero_and_twenty_one_are_rejected() {
    rejected_with(QuorumError::InvalidQuantity, "EVT-1", "Florist", "2026-03-01", "GA", 0, 1, NOW + 1, 0);
    rejected_with(QuorumError::InvalidQuantity, "EVT-1", "Florist", "2026-03-01", "GA", 21, 1, NOW + 1, 0);
    rejected_with(QuorumError::InvalidQuantity, "EVT-1", "Florist", "2026-03-01", "GA", 255, 1, NOW + 1, 0);
}

#[test]
fn zero_premium_is_rejected() {
    rejected_with(QuorumError::InvalidPremium, "EVT-1", "Florist", "2026-03-01", "GA", 2, 0, NOW + 1, 0);
    assert!(accepted(2, 1, NOW + 1, 0));
}

#[test]
fn royalty_of_half_is_accepted_and_above_is_rejected() {
    assert!(accepted(2, 1, NOW + 1, 5000));
    rejected_with(QuorumError::InvalidRoyalty, "EVT-1", "Florist", "2026-03-01", "GA", 2, 1, NOW + 1, 5001);
    rejected_with(QuorumError::InvalidRoyalty, "EVT-1", "Florist", "2026-03-01", "GA", 2, 1, NOW + 1, u16::MAX);
}

#[test]
fn expiry_must_be_strictly_after_now() {
    rejected_with(QuorumError::ExpiryInPast, "EVT-1", "Florist", "2026-03-01", "GA", 2, 1, NOW, 0);
    rejected_with(QuorumError::ExpiryInPast, "EVT-1", "Florist", "2026-03-01", "GA", 2, 1, NOW - 1, 0);
    rejected_with(QuorumError::ExpiryInPast, "EVT-1", "Florist", "2026-03-01", "GA", 2, 1, i64::MIN, 0);
    assert!(accepted(2, 1, NOW + 1, 0));
    assert!(accepted(2, 1, i64::MAX, 0));
}

#[test]
fn each_string_is_held_to_its_own_bound() {
    let s16 = "a".repeat(16);
    let s17 = "a".repeat(17);
    let s32 = "b".repeat(32);
    let s33 = "b".repeat(33);
    let s64 = "c".repeat(64);
    let s65 = "c".repeat(65);
    assert!(try_create(&s32, &s64, &s16, &s32, 2, 1, NOW + 1, 0).0.is_ok());
    rejected_with(QuorumError::StringTooLong, &s33, &s64, &s16, &s32, 2, 1, NOW + 1, 0);
    rejected_with(QuorumError::StringTooLong, &s32, &s65, &s16, &s32, 2, 1, NOW + 1, 0);
    rejected_with(QuorumError::StringTooLong, &s32, &s64, &s17, &s32, 2, 1, NOW + 1, 0);
    rejected_with(QuorumError::StringTooLong, &s32, &s64, &s16, &s33, 2, 1, NOW + 1, 0);
    assert!(try_create("", "", "", "", 2, 1, NOW + 1, 0).0.is_ok());
}

#[test]
fn strings_are_measured_in_bytes_not_characters() {
    // 11 characters of 3 bytes each: 33 bytes.
    let wide = "\u{20AC}".repeat(11);
    assert_eq!(wide.len(), 33);
    rejected_with(QuorumError::StringTooLong, &wide, "Florist", "2026-03-01", "GA", 2, 1, NOW + 1, 0);
    // 16 characters of 2 bytes each: 32 bytes.
    let fits = "\u{00E9}".repeat(16);
    assert_eq!(fits.len(), 32);
    assert!(try_create(&fits, "Florist", "2026-03-01", &fits, 2, 1, NOW + 1, 0).0.is_ok());
    // 16 bytes allowed for the date: 4 characters of 4 bytes fit, 5 do not.
    let date_fits = "\u{1F3AB}".repeat(4);
    let date_wide = "\u{1F3AB}".repeat(5);
    assert!(try_create("EVT-1", "Florist", &date_fits, "GA", 2, 1, NOW + 1, 0).0.is_ok());
    rejected_with(QuorumError::StringTooLong, "EVT-1", "Florist", &date_wide, "GA", 2, 1, NOW + 1, 0);
}

#[test]
fn the_first_broken_rule_wins() {
    let long = "x".repeat(100);
    rejected_with(QuorumError::InvalidQuantity, &long, &long, &long, &long, 0, 0, NOW, 9999);
    rejected_with(QuorumError::InvalidPremium, &long, &long, &long, &long, 1, 0, NOW, 9999);
    rejected_with(QuorumError::StringTooLong, &long, "n", "d", "t", 1, 1, NOW, 9999);
    rejected_with(QuorumError::StringTooLong, "i", "n", "d", &long, 1, 1, NOW, 9999);
    rejected_with(QuorumError::InvalidRoyalty, "i", "n", "d", "t", 1, 1, NOW, 9999);
    rejected_with(QuorumError::ExpiryInPast, "i", "n", "d", "t", 1, 1, NOW, 5000);
}

#[test]
fn check_terms_reports_the_rules_that_need_no_time() {
    assert_eq!(check_terms("EVT-1", "Florist", "2026-03-01", "GA", 2, 1_000_000, 1000), Ok(()));
    assert_eq!(
        check_terms("EVT-1", "Florist", "2026-03-01", "GA", 0, 1_000_000, 1000),
        Err(QuorumError::InvalidQuantity)
    );
    assert_eq!(
        check_terms("EVT-1", "Florist", "2026-03-01", "GA", 2, 0, 1000),
        Err(QuorumError::InvalidPremium)
    );
    assert_eq!(
        check_terms("EVT-1", "Florist", "2026-03-01-00:00:00", "GA", 2, 1, 1000),
        Err(QuorumError::StringTooLong)
    );
    assert_eq!(
        check_terms("EVT-1", "Florist", "2026-03-01", "GA", 2, 1, 5001),
        Err(QuorumError::InvalidRoyalty)
    );
}

#[test]
fn check_terms_at_adds_the_expiry_rule_last() {
    assert_eq!(check_terms_at("EVT-1", "Florist", "2026-03-01", "GA", 2, 1, NOW + 1, 0, NOW), Ok(()));
    assert_eq!(
        check_terms_at("EVT-1", "Florist", "2026-03-01", "GA", 2, 1, NOW, 0, NOW),
        Err(QuorumError::ExpiryInPast)
    );
    assert_eq!(
        check_terms_at("EVT-1", "Florist", "2026-03-01", "GA", 2, 1, NOW, 5001, NOW),
        Err(QuorumError::InvalidRoyalty)
    );
}
