use nft_schema::error::SchemaError;
use nft_schema::listings::MarketType;
use nft_schema::nft::{Behaviours, Fields, MintStrategy, SupplyPolicy};
use nft_schema::royalties::Royalties;

#[test]
fn supply_unlimited_carries_no_limit() {
    let r = SupplyPolicy::new_from("Unlimited", None).unwrap();
    assert_eq!(r, SupplyPolicy::Unlimited);
}

#[test]
fn supply_limited_carries_exact_limit() {
    let r = SupplyPolicy::new_from("Limited", Some(100)).unwrap();
    assert_eq!(r, SupplyPolicy::Limited { limit: 100 });
}

#[test]
fn supply_limited_zero_is_kept_verbatim() {
    let r = SupplyPolicy::new_from("Limited", Some(0)).unwrap();
    assert_eq!(r, SupplyPolicy::Limited { limit: 0 });
}

#[test]
fn supply_limited_without_limit_is_refused() {
    let r = SupplyPolicy::new_from("Limited", None);
    assert_eq!(r, Err(SchemaError::MissingLimit));
}

#[test]
fn supply_unlimited_with_limit_is_refused() {
    let r = SupplyPolicy::new_from("Unlimited", Some(7));
    assert_eq!(r, Err(SchemaError::UnexpectedLimit));
}

#[test]
fn supply_unknown_kind_is_refused() {
    let r = SupplyPolicy::new_from("Bounded", Some(7));
    assert_eq!(r, Err(SchemaError::UnknownKind));
}

#[test]
fn royalty_none_stores_no_fee() {
    let r = Royalties::new_from("None", None).unwrap();
    assert_eq!(r, Royalties::NoFee);
}

#[test]
fn royalty_proportional_stores_exact_fee() {
    let r = Royalties::new_from("Proportional", Some(250)).unwrap();
    assert_eq!(r, Royalties::Proportional { fee_basis_points: 250 });
}

#[test]
fn royalty_constant_stores_exact_fee() {
    let r = Royalties::new_from("Constant", Some(42)).unwrap();
    assert_eq!(r, Royalties::Constant { fee: 42 });
}

#[test]
fn royalty_proportional_without_fee_is_refused_not_defaulted() {
    let r = Royalties::new_from("Proportional", None);
    assert_eq!(r, Err(SchemaError::MissingFee));
}

#[test]
fn royalty_constant_without_fee_is_refused() {
    let r = Royalties::new_from("Constant", None);
    assert_eq!(r, Err(SchemaError::MissingFee));
}

#[test]
fn royalty_none_with_fee_is_refused() {
    let r = Royalties::new_from("None", Some(1));
    assert_eq!(r, Err(SchemaError::UnexpectedFee));
}

#[test]
fn royalty_unknown_kind_is_refused() {
    let r = Royalties::new_from("Flat", Some(1));
    assert_eq!(r, Err(SchemaError::UnknownKind));
}

#[test]
fn mint_strategy_keeps_nonempty_selection() {
    let r = MintStrategy::new_from(vec!["Direct".to_string()]).unwrap();
    assert_eq!(r.selected, vec!["Direct".to_string()]);
}

#[test]
fn mint_strategy_rejects_empty_selection() {
    let r = MintStrategy::new_from(Vec::new());
    assert!(matches!(r, Err(SchemaError::EmptySelection)));
}

#[test]
fn fields_constructor_never_rejects() {
    let r = Fields::new_from(vec!["display".to_string(), "url".to_string()]).unwrap();
    assert_eq!(r.selected, vec!["display".to_string(), "url".to_string()]);
    let empty = Fields::new_from(Vec::new()).unwrap();
    assert!(empty.selected.is_empty());
}

#[test]
fn behaviours_constructor_never_rejects() {
    let r = Behaviours::new_from(vec!["composable".to_string(), "loose".to_string()]).unwrap();
    assert_eq!(r.selected.len(), 2);
}

#[test]
fn market_type_from_index_follows_catalog_order() {
    assert_eq!(MarketType::from_index(0).unwrap(), MarketType::FixedPrice);
    assert_eq!(MarketType::from_index(1).unwrap(), MarketType::DutchAuction);
    assert_eq!(MarketType::from_index(2), Err(SchemaError::IndexOutOfBounds));
}

#[test]
fn constraint_violations_are_recoverable_but_index_breach_is_not() {
    assert!(SchemaError::EmptySelection.is_constraint());
    assert!(SchemaError::MissingFee.is_constraint());
    assert!(SchemaError::UnknownKind.is_constraint());
    assert!(!SchemaError::IndexOutOfBounds.is_constraint());
}
