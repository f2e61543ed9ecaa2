use nft_schema::catalogs::{map_indices, select_from_catalog, tag_options};
use nft_schema::error::SchemaError;
use nft_schema::listings::{build_listings, Listing, MarketType};
use nft_schema::nft::SupplyPolicy;
use nft_schema::royalties::Royalties;
use nft_schema::schema::Schema;

fn sorted(mut v: Vec<String>) -> Vec<String> {
    v.sort();
    v
}

#[test]
fn tag_selection_yields_exact_catalog_strings() {
    let mut schema = Schema::new();
    let tags = select_from_catalog(&vec![0, 2], &tag_options()).unwrap();
    schema.collection.set_tags(&tags).unwrap();
    assert_eq!(
        schema.collection.tags,
        Some(vec!["Art".to_string(), "Collectible".to_string()])
    );
}

#[test]
fn tag_selection_is_order_independent_and_duplicate_free() {
    let opts = tag_options();

    let mut a = Schema::new();
    let ta = select_from_catalog(&vec![2, 0], &opts).unwrap();
    a.collection.set_tags(&ta).unwrap();

    let mut b = Schema::new();
    let tb = select_from_catalog(&vec![0, 2, 0, 2], &opts).unwrap();
    b.collection.set_tags(&tb).unwrap();

    let sa = sorted(a.collection.tags.unwrap());
    let sb = sorted(b.collection.tags.unwrap());
    assert_eq!(sa, sb);
    assert_eq!(sa, vec!["Art".to_string(), "Collectible".to_string()]);
}

#[test]
fn set_tags_rejects_a_stranger() {
    let mut schema = Schema::new();
    let r = schema.collection.set_tags(&vec!["NotATag".to_string()]);
    assert_eq!(r, Err(SchemaError::UnknownTag));
    assert_eq!(schema.collection.tags, None);
}

#[test]
fn tags_field_is_derived_when_collection_has_tags() {
    let mut schema = Schema::new();
    let tags = select_from_catalog(&vec![0], &tag_options()).unwrap();
    schema.collection.set_tags(&tags).unwrap();
    // "tags" was not selected among the fields, yet it is committed
    schema.set_nft_fields(&vec![0]).unwrap();
    assert_eq!(
        schema.nft.fields.selected,
        vec!["display".to_string(), "tags".to_string()]
    );
}

#[test]
fn fields_without_tags_stay_as_selected() {
    let mut schema = Schema::new();
    schema.set_nft_fields(&vec![0, 1]).unwrap();
    assert_eq!(
        schema.nft.fields.selected,
        vec!["display".to_string(), "url".to_string()]
    );
}

#[test]
fn empty_field_selection_without_tags_is_refused() {
    let mut schema = Schema::new();
    let r = schema.set_nft_fields(&Vec::new());
    assert_eq!(r, Err(SchemaError::EmptySelection));
}

#[test]
fn field_index_out_of_catalog_is_refused() {
    let mut schema = Schema::new();
    let r = schema.set_nft_fields(&vec![0, 3]);
    assert_eq!(r, Err(SchemaError::IndexOutOfBounds));
}

#[test]
fn behaviours_allow_any_subset_even_both_or_none() {
    let mut schema = Schema::new();
    schema.set_nft_behaviours(&vec![0, 1, 0]).unwrap();
    assert_eq!(
        schema.nft.behaviours.selected,
        vec!["composable".to_string(), "loose".to_string()]
    );
    schema.set_nft_behaviours(&Vec::new()).unwrap();
    assert!(schema.nft.behaviours.selected.is_empty());
    assert_eq!(
        schema.set_nft_behaviours(&vec![2]),
        Err(SchemaError::IndexOutOfBounds)
    );
}

#[test]
fn mint_strategy_setter_requires_a_choice() {
    let mut schema = Schema::new();
    assert_eq!(
        schema.set_mint_strategy(&Vec::new()),
        Err(SchemaError::EmptySelection)
    );
    assert_eq!(
        schema.set_mint_strategy(&vec![3]),
        Err(SchemaError::IndexOutOfBounds)
    );
    schema.set_mint_strategy(&vec![2, 1]).unwrap();
    assert_eq!(
        schema.nft.mint_strategy.selected,
        vec!["Airdrop".to_string(), "Direct".to_string()]
    );
}

#[test]
fn set_name_overwrites_instead_of_appending() {
    let mut schema = Schema::new();
    schema.collection.set_name("Foo".to_string());
    schema.collection.set_name("Bar".to_string());
    assert_eq!(schema.collection.name, "Bar");
}

#[test]
fn three_listings_share_the_one_pair() {
    let admin = "aaaaaaaaaaaaaaaaaaaa".to_string();
    let receiver = "bbbbbbbbbbbbbbbbbbbb".to_string();
    assert_eq!(admin.len(), 20);
    assert_eq!(receiver.len(), 20);
    let markets = vec![
        MarketType::FixedPrice,
        MarketType::DutchAuction,
        MarketType::FixedPrice,
    ];
    let listings: Vec<Listing> = build_listings(3, &admin, &receiver, &markets);
    assert_eq!(listings.len(), 3);
    for (i, l) in listings.iter().enumerate() {
        assert_eq!(l.admin, admin);
        assert_eq!(l.receiver, receiver);
        assert_eq!(l.market, markets[i]);
    }
}

#[test]
fn end_to_end_wizard_run() {
    let mut schema = Schema::new();
    schema.collection.set_name("Apes".to_string());
    schema.collection.set_description("".to_string());
    schema.collection.set_symbol("APE".to_string());

    // tags: Art and Collectible
    let tags = map_indices(vec![0, 2], &["Art", "ProfilePicture", "Collectible"]);
    schema.collection.set_tags(&tags).unwrap();
    // no URL

    // fields: display only; "tags" is derived
    schema.set_nft_fields(&vec![0]).unwrap();
    assert_eq!(
        sorted(schema.nft.fields.selected.clone()),
        vec!["display".to_string(), "tags".to_string()]
    );

    schema.set_nft_behaviours(&vec![0]).unwrap();
    assert_eq!(schema.nft.behaviours.selected, vec!["composable".to_string()]);
    schema.nft.supply_policy = SupplyPolicy::new_from("Limited", Some(100)).unwrap();
    schema.set_mint_strategy(&vec![1]).unwrap();
    assert_eq!(schema.nft.mint_strategy.selected, vec!["Direct".to_string()]);
    schema.royalties = Royalties::new_from("Constant", Some(250)).unwrap();

    let admin = "cccccccccccccccccccc".to_string();
    let receiver = "dddddddddddddddddddd".to_string();
    assert_eq!(admin.len(), 20);
    let markets = vec![MarketType::FixedPrice];
    schema.listings = build_listings(1, &admin, &receiver, &markets);

    assert_eq!(schema.collection.name, "Apes");
    assert_eq!(schema.collection.symbol, "APE");
    assert_eq!(schema.collection.url, None);
    assert_eq!(schema.nft.supply_policy, SupplyPolicy::Limited { limit: 100 });
    assert_eq!(schema.royalties, Royalties::Constant { fee: 250 });
    assert_eq!(schema.listings.len(), 1);
    assert_eq!(schema.listings[0].market, MarketType::FixedPrice);
    assert_eq!(schema.listings[0].admin, admin);
    assert_eq!(schema.listings[0].receiver, receiver);
}

#[test]
fn invalid_proportional_royalty_never_defaults() {
    let r = Royalties::new_from("Proportional", None);
    assert_eq!(r, Err(SchemaError::MissingFee));
}
