use vstd::prelude::*;
use crate::catalogs::{
    behaviour_catalog, behaviour_options, dedup_strings, field_catalog, field_options, has_view,
    lemma_has_view_push_all, mint_catalog, mint_options, select_from_catalog, vec_contains_str,
};
use crate::collection::Collection;
use crate::error::SchemaError;
use crate::listings::Listing;
use crate::nft::{Behaviours, Fields, MintStrategy, Nft};
use crate::royalties::Royalties;

verus! {

/// The field names a selection of indices denotes.
pub open spec fn selected_field_views(indices: Seq<usize>, x: Seq<char>) -> bool {
    exists|i: int| 0 <= i < indices.len() && x == field_catalog()[(#[trigger] indices[i]) as int]
}

/// The behaviour names a selection of indices denotes.
pub open spec fn selected_behaviour_views(indices: Seq<usize>, x: Seq<char>) -> bool {
    exists|i: int| 0 <= i < indices.len() && x == behaviour_catalog()[(#[trigger] indices[i]) as int]
}

/// The strategy names a selection of indices denotes.
pub open spec fn selected_mint_views(indices: Seq<usize>, x: Seq<char>) -> bool {
    exists|i: int| 0 <= i < indices.len() && x == mint_catalog()[(#[trigger] indices[i]) as int]
}

/// The root configuration object the wizard produces: owned by one session,
/// filled field by field in a fixed forward order, handed off whole.
pub struct Schema {
    pub collection: Collection,
    pub nft: Nft,
    pub royalties: Royalties,
    pub listings: Vec<Listing>,
}

impl Schema {
    /// Every committed part keeps its own invariant.
    pub open spec fn wf(self) -> bool {
        &&& self.collection.wf()
        &&& self.nft.wf()
        &&& forall|i: int| 0 <= i < self.listings@.len() ==> (#[trigger] self.listings@[i]).wf()
    }

    /// The empty schema a session starts from.
    pub fn new() -> (r: Schema)
        ensures
            r.collection.tags is None,
            r.collection.url is None,
            r.collection.name@ == Seq::<char>::empty(),
            r.collection.description@ == Seq::<char>::empty(),
            r.collection.symbol@ == Seq::<char>::empty(),
            r.nft.fields.selected@ =~= Seq::<String>::empty(),
            r.nft.behaviours.selected@ =~= Seq::<String>::empty(),
            r.nft.mint_strategy.selected@ =~= Seq::<String>::empty(),
            r.royalties == Royalties::NoFee,
            r.listings@ =~= Seq::<Listing>::empty(),
            r.wf(),
    {
        Schema {
            collection: Collection::new(),
            nft: Nft::new(),
            royalties: Royalties::NoFee,
            listings: Vec::new(),
        }
    }

    /// Commits the NFT field selection.
    ///
    /// The indices select from the field catalog; if the collection has
    /// tags, the derived "tags" field is part of the committed set whether
    /// or not it was selected.  The committed set holds each selected
    /// field once, must not end up empty, and nothing else of the schema
    /// moves.  On failure the schema is left untouched.
    pub fn set_nft_fields(&mut self, indices: &Vec<usize>) -> (r: Result<(), SchemaError>)
        ensures
            ({
                let has_tags = old(self).collection.tags is Some;
                let oob = exists|i: int|
                    0 <= i < indices@.len() && (#[trigger] indices@[i]) >= field_catalog().len();
                match r {
                    Ok(()) => {
                        &&& !oob
                        &&& forall|x: Seq<char>|
                            #[trigger] has_view(final(self).nft.fields.selected@, x)
                                <==> (selected_field_views(indices@, x) || (has_tags && x
                                == "tags"@))
                        &&& has_tags ==> has_view(final(self).nft.fields.selected@, "tags"@)
                        &&& final(self).nft.fields.selected@.len() > 0
                        &&& final(self).nft.fields.wf()
                        &&& old(self).wf() ==> final(self).wf()
                        &&& final(self).collection == old(self).collection
                        &&& final(self).nft.behaviours == old(self).nft.behaviours
                        &&& final(self).nft.supply_policy == old(self).nft.supply_policy
                        &&& final(self).nft.mint_strategy == old(self).nft.mint_strategy
                        &&& final(self).royalties == old(self).royalties
                        &&& final(self).listings == old(self).listings
                    },
                    Err(e) => {
                        &&& *final(self) == *old(self)
                        &&& e == SchemaError::IndexOutOfBounds || e == SchemaError::EmptySelection
                        &&& ((e == SchemaError::IndexOutOfBounds) <==> oob)
                        &&& ((e == SchemaError::EmptySelection) <==> (!oob && indices@.len() == 0
                            && !has_tags))
                    },
                }
            }),
    {
        let opts = field_options();
        let selected = match select_from_catalog(indices, &opts) {
            Ok(v) => v,
            Err(e) => {
                return Err(e);
            },
        };
        let mut out = dedup_strings(&selected);
        let ghost deduped = out@;
        let has_tags = match &self.collection.tags {
            Option::Some(_) => true,
            Option::None => false,
        };
        if has_tags && !vec_contains_str(&out, "tags") {
            out.push("tags".to_owned());
            proof {
                lemma_has_view_push_all(deduped, out@[out@.len() - 1]);
            }
        }
        if out.len() == 0 {
            return Err(SchemaError::EmptySelection);
        }
        proof {
            assert forall|x: Seq<char>| #[trigger]
                has_view(out@, x) <==> (selected_field_views(indices@, x) || (has_tags && x
                == "tags"@)) by {
                if has_view(selected@, x) {
                    let i = choose|i: int| 0 <= i < selected@.len() && selected@[i]@ == x;
                    assert(x == field_catalog()[indices@[i] as int]);
                    assert(selected_field_views(indices@, x));
                }
                if selected_field_views(indices@, x) {
                    let i = choose|i: int|
                        0 <= i < indices@.len() && x == field_catalog()[indices@[i] as int];
                    assert(selected@[i]@ == x);
                    assert(has_view(selected@, x));
                }
            }
            assert forall|i: int| 0 <= i < out@.len() implies field_catalog().contains(
                (#[trigger] out@[i])@,
            ) || out@[i]@ == "tags"@ by {
                if has_view(deduped, out@[i]@) {
                    let k = choose|k: int| 0 <= k < selected@.len() && selected@[k]@ == out@[i]@;
                    assert(field_catalog()[indices@[k] as int] == out@[i]@);
                    assert(field_catalog().contains(out@[i]@));
                }
            }
        }
        let fields = match Fields::new_from(out) {
            Ok(f) => f,
            Err(e) => {
                return Err(e);
            },
        };
        self.nft.fields = fields;
        Ok(())
    }

    /// Commits the NFT behaviour selection.
    ///
    /// The indices select from the behaviour catalog; any subset is legal,
    /// the empty one included.  Each behaviour is committed once, and
    /// nothing else of the schema moves.  On failure the schema is left
    /// untouched.
    pub fn set_nft_behaviours(&mut self, indices: &Vec<usize>) -> (r: Result<(), SchemaError>)
        ensures
            match r {
                Ok(()) => {
                    &&& forall|i: int|
                        0 <= i < indices@.len() ==> (#[trigger] indices@[i])
                            < behaviour_catalog().len()
                    &&& forall|x: Seq<char>|
                        #[trigger] has_view(final(self).nft.behaviours.selected@, x)
                            <==> selected_behaviour_views(indices@, x)
                    &&& final(self).nft.behaviours.wf()
                    &&& old(self).wf() ==> final(self).wf()
                    &&& final(self).collection == old(self).collection
                    &&& final(self).nft.fields == old(self).nft.fields
                    &&& final(self).nft.supply_policy == old(self).nft.supply_policy
                    &&& final(self).nft.mint_strategy == old(self).nft.mint_strategy
                    &&& final(self).royalties == old(self).royalties
                    &&& final(self).listings == old(self).listings
                },
                Err(e) => {
                    &&& *final(self) == *old(self)
                    &&& e == SchemaError::IndexOutOfBounds
                    &&& exists|i: int|
                        0 <= i < indices@.len() && (#[trigger] indices@[i])
                            >= behaviour_catalog().len()
                },
            },
    {
        let opts = behaviour_options();
        let selected = match select_from_catalog(indices, &opts) {
            Ok(v) => v,
            Err(e) => {
                return Err(e);
            },
        };
        let out = dedup_strings(&selected);
        proof {
            assert forall|x: Seq<char>| #[trigger]
                has_view(out@, x) <==> selected_behaviour_views(indices@, x) by {
                if has_view(selected@, x) {
                    let i = choose|i: int| 0 <= i < selected@.len() && selected@[i]@ == x;
                    assert(x == behaviour_catalog()[indices@[i] as int]);
                    assert(selected_behaviour_views(indices@, x));
                }
                if selected_behaviour_views(indices@, x) {
                    let i = choose|i: int|
                        0 <= i < indices@.len() && x == behaviour_catalog()[indices@[i] as int];
                    assert(selected@[i]@ == x);
                    assert(has_view(selected@, x));
                }
            }
            assert forall|i: int| 0 <= i < out@.len() implies behaviour_catalog().contains(
                (#[trigger] out@[i])@,
            ) by {
                let k = choose|k: int| 0 <= k < selected@.len() && selected@[k]@ == out@[i]@;
                assert(behaviour_catalog()[indices@[k] as int] == out@[i]@);
            }
        }
        let behaviours = match Behaviours::new_from(out) {
            Ok(b) => b,
            Err(e) => {
                return Err(e);
            },
        };
        self.nft.behaviours = behaviours;
        Ok(())
    }

    /// Commits the minting strategy selection.
    ///
    /// The indices select from the minting catalog; at least one strategy
    /// must be selected.  Each strategy is committed once, and nothing
    /// else of the schema moves.  On failure the schema is left untouched.
    pub fn set_mint_strategy(&mut self, indices: &Vec<usize>) -> (r: Result<(), SchemaError>)
        ensures
            ({
                let oob = exists|i: int|
                    0 <= i < indices@.len() && (#[trigger] indices@[i]) >= mint_catalog().len();
                match r {
                    Ok(()) => {
                        &&& !oob
                        &&& indices@.len() > 0
                        &&& forall|x: Seq<char>|
                            #[trigger] has_view(final(self).nft.mint_strategy.selected@, x)
                                <==> selected_mint_views(indices@, x)
                        &&& final(self).nft.mint_strategy.selected@.len() > 0
                        &&& final(self).nft.mint_strategy.wf()
                        &&& old(self).wf() ==> final(self).wf()
                        &&& final(self).collection == old(self).collection
                        &&& final(self).nft.fields == old(self).nft.fields
                        &&& final(self).nft.behaviours == old(self).nft.behaviours
                        &&& final(self).nft.supply_policy == old(self).nft.supply_policy
                        &&& final(self).royalties == old(self).royalties
                        &&& final(self).listings == old(self).listings
                    },
                    Err(e) => {
                        &&& *final(self) == *old(self)
                        &&& e == SchemaError::IndexOutOfBounds || e == SchemaError::EmptySelection
                        &&& ((e == SchemaError::IndexOutOfBounds) <==> oob)
                        &&& ((e == SchemaError::EmptySelection) <==> (!oob && indices@.len() == 0))
                    },
                }
            }),
    {
        let opts = mint_options();
        let selected = match select_from_catalog(indices, &opts) {
            Ok(v) => v,
            Err(e) => {
                return Err(e);
            },
        };
        let out = dedup_strings(&selected);
        proof {
            assert forall|x: Seq<char>| #[trigger]
                has_view(out@, x) <==> selected_mint_views(indices@, x) by {
                if has_view(selected@, x) {
                    let i = choose|i: int| 0 <= i < selected@.len() && selected@[i]@ == x;
                    assert(x == mint_catalog()[indices@[i] as int]);
                    assert(selected_mint_views(indices@, x));
                }
                if selected_mint_views(indices@, x) {
                    let i = choose|i: int|
                        0 <= i < indices@.len() && x == mint_catalog()[indices@[i] as int];
                    assert(selected@[i]@ == x);
                    assert(has_view(selected@, x));
                }
            }
            assert forall|i: int| 0 <= i < out@.len() implies mint_catalog().contains(
                (#[trigger] out@[i])@,
            ) by {
                let k = choose|k: int| 0 <= k < selected@.len() && selected@[k]@ == out@[i]@;
                assert(mint_catalog()[indices@[k] as int] == out@[i]@);
            }
        }
        let strategy = match MintStrategy::new_from(out) {
            Ok(s) => s,
            Err(e) => {
                return Err(e);
            },
        };
        self.nft.mint_strategy = strategy;
        Ok(())
    }
}

} // verus!
