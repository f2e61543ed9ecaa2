use vstd::prelude::*;
use crate::catalogs::{behaviour_catalog, field_catalog, mint_catalog, str_eq};
use crate::error::SchemaError;

verus! {

/// The NFT fields the collection's NFTs carry.
///
/// The names come out of the field catalog, with "tags" derived by the
/// schema aggregate when the collection has tags.
pub struct Fields {
    pub selected: Vec<String>,
}

impl Fields {
    /// Every name is a catalog field or the derived "tags", and no name
    /// appears twice.
    pub open spec fn wf(self) -> bool {
        &&& forall|i: int| 0 <= i < self.selected@.len() ==> field_catalog().contains(
            (#[trigger] self.selected@[i])@,
        ) || self.selected@[i]@ == "tags"@
        &&& forall|i: int, j: int|
            0 <= i < j < self.selected@.len() ==> self.selected@[i]@ != self.selected@[j]@
    }

    /// Wraps an already-drawn selection.  Membership is the caller's
    /// guarantee; this constructor never rejects.
    pub fn new_from(selected: Vec<String>) -> (r: Result<Fields, SchemaError>)
        ensures
            r == Ok::<Fields, SchemaError>(Fields { selected }),
    {
        Ok(Fields { selected })
    }
}

/// The NFT behaviours: any subset of the behaviour catalog.
pub struct Behaviours {
    pub selected: Vec<String>,
}

impl Behaviours {
    /// Every name is a catalog behaviour, and no name appears twice.
    pub open spec fn wf(self) -> bool {
        &&& forall|i: int| 0 <= i < self.selected@.len() ==> behaviour_catalog().contains(
            (#[trigger] self.selected@[i])@,
        )
        &&& forall|i: int, j: int|
            0 <= i < j < self.selected@.len() ==> self.selected@[i]@ != self.selected@[j]@
    }

    /// Wraps an already-drawn selection; never rejects.
    pub fn new_from(selected: Vec<String>) -> (r: Result<Behaviours, SchemaError>)
        ensures
            r == Ok::<Behaviours, SchemaError>(Behaviours { selected }),
    {
        Ok(Behaviours { selected })
    }
}

/// How many NFTs the collection may mint.
#[derive(Clone, Copy, Debug, PartialEq, Eq, Structural)]
pub enum SupplyPolicy {
    Unlimited,
    Limited { limit: u64 },
}

impl SupplyPolicy {
    /// Builds the policy from the selected kind and the optional limit
    /// answer.  A limit is stored exactly for "Limited" and refused for
    /// "Unlimited"; a kind outside the supply catalog is refused.
    pub fn new_from(kind: &str, limit: Option<u64>) -> (r: Result<SupplyPolicy, SchemaError>)
        ensures
            kind@ == "Unlimited"@ && limit is None ==> r == Ok::<SupplyPolicy, SchemaError>(
                SupplyPolicy::Unlimited,
            ),
            kind@ == "Unlimited"@ && limit is Some ==> r == Err::<SupplyPolicy, SchemaError>(
                SchemaError::UnexpectedLimit,
            ),
            forall|l: u64|
                kind@ == "Limited"@ && limit == Some(l) ==> r == Ok::<SupplyPolicy, SchemaError>(
                    SupplyPolicy::Limited { limit: l },
                ),
            kind@ == "Limited"@ && limit is None ==> r == Err::<SupplyPolicy, SchemaError>(
                SchemaError::MissingLimit,
            ),
            kind@ != "Unlimited"@ && kind@ != "Limited"@ ==> r == Err::<SupplyPolicy, SchemaError>(
                SchemaError::UnknownKind,
            ),
    {
        proof {
            reveal_strlit("Unlimited");
            reveal_strlit("Limited");
            assert("Unlimited"@.len() == 9);
            assert("Limited"@.len() == 7);
            assert("Unlimited"@ != "Limited"@);
        }
        if str_eq(kind, "Unlimited") {
            match limit {
                Option::None => Ok(SupplyPolicy::Unlimited),
                Option::Some(_) => Err(SchemaError::UnexpectedLimit),
            }
        } else if str_eq(kind, "Limited") {
            match limit {
                Option::Some(l) => Ok(SupplyPolicy::Limited { limit: l }),
                Option::None => Err(SchemaError::MissingLimit),
            }
        } else {
            Err(SchemaError::UnknownKind)
        }
    }
}

/// The minting strategies the creator plans to use: a non-empty subset of
/// the minting catalog.
pub struct MintStrategy {
    pub selected: Vec<String>,
}

impl MintStrategy {
    /// Every name is a catalog strategy, and no name appears twice.
    pub open spec fn wf(self) -> bool {
        &&& forall|i: int| 0 <= i < self.selected@.len() ==> mint_catalog().contains(
            (#[trigger] self.selected@[i])@,
        )
        &&& forall|i: int, j: int|
            0 <= i < j < self.selected@.len() ==> self.selected@[i]@ != self.selected@[j]@
    }

    /// Wraps an already-drawn selection.  Selecting no strategy at all is a
    /// constraint violation.
    pub fn new_from(selected: Vec<String>) -> (r: Result<MintStrategy, SchemaError>)
        ensures
            selected@.len() == 0 ==> r == Err::<MintStrategy, SchemaError>(
                SchemaError::EmptySelection,
            ),
            selected@.len() > 0 ==> r == Ok::<MintStrategy, SchemaError>(MintStrategy { selected }),
    {
        if selected.len() == 0 {
            Err(SchemaError::EmptySelection)
        } else {
            Ok(MintStrategy { selected })
        }
    }
}

/// The NFT-level part of the schema.
pub struct Nft {
    pub fields: Fields,
    pub behaviours: Behaviours,
    pub supply_policy: SupplyPolicy,
    pub mint_strategy: MintStrategy,
}

impl Nft {
    /// Each committed part keeps its own invariant.
    pub open spec fn wf(self) -> bool {
        &&& self.fields.wf()
        &&& self.behaviours.wf()
        &&& self.mint_strategy.wf()
    }

    /// The empty NFT configuration the wizard starts from.
    pub fn new() -> (r: Nft)
        ensures
            r.fields.selected@ =~= Seq::<String>::empty(),
            r.behaviours.selected@ =~= Seq::<String>::empty(),
            r.supply_policy == SupplyPolicy::Unlimited,
            r.mint_strategy.selected@ =~= Seq::<String>::empty(),
            r.wf(),
    {
        Nft {
            fields: Fields { selected: Vec::new() },
            behaviours: Behaviours { selected: Vec::new() },
            supply_policy: SupplyPolicy::Unlimited,
            mint_strategy: MintStrategy { selected: Vec::new() },
        }
    }
}

} // verus!
