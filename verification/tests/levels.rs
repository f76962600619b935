use loyalty_microservice::loyalty::{LoyaltyLevel, TransactionKind, INVALID_LEVEL};

#[test]
fn level_tokens_parse_in_either_case() {
    assert_eq!(LoyaltyLevel::from_str("l1"), Ok(LoyaltyLevel::L1));
    assert_eq!(LoyaltyLevel::from_str("L1"), Ok(LoyaltyLevel::L1));
    assert_eq!(LoyaltyLevel::from_str("l2"), Ok(LoyaltyLevel::L2));
    assert_eq!(LoyaltyLevel::from_str("L2"), Ok(LoyaltyLevel::L2));
}

#[test]
fn other_tokens_name_no_level() {
    for token in ["", "L", "L3", "l0", "L11", " L1", "L1 ", "1L", "Ll", "gold"] {
        assert_eq!(LoyaltyLevel::from_str(token), Err(INVALID_LEVEL.to_string()), "{token:?}");
    }
    assert_eq!(INVALID_LEVEL, "Nem megfelelő kedvezmény színt! L1, vagy L2");
}

#[test]
fn levels_print_their_canonical_token() {
    assert_eq!(LoyaltyLevel::L1.to_string(), "L1");
    assert_eq!(LoyaltyLevel::L2.to_string(), "L2");
    for level in [LoyaltyLevel::L1, LoyaltyLevel::L2] {
        assert_eq!(LoyaltyLevel::from_str(&level.to_string()), Ok(level));
    }
}

#[test]
fn discount_is_two_and_four_percent() {
    assert_eq!(LoyaltyLevel::L1.get_discount_percentage(), 2);
    assert_eq!(LoyaltyLevel::L2.get_discount_percentage(), 4);
}

#[test]
fn defaults_are_first_level_and_burn() {
    assert_eq!(LoyaltyLevel::default(), LoyaltyLevel::L1);
    assert_eq!(TransactionKind::default(), TransactionKind::Burn);
}
