use vstd::prelude::*;
use crate::error::SchemaError;
use crate::catalogs::str_eq;

verus! {

/// The royalty policy of the collection.
///
/// A fee is stored exactly when the policy is proportional (in basis
/// points) or constant (an absolute commission); the fee-free policy
/// stores none.  The catalog calls the fee-free policy "None"; the variant
/// carries another name here because `None` is taken by the prelude.
#[derive(Clone, Copy, Debug, PartialEq, Eq, Structural)]
pub enum Royalties {
    Proportional { fee_basis_points: u64 },
    Constant { fee: u64 },
    NoFee,
}

impl Royalties {
    /// Builds the policy from the selected kind and the optional fee
    /// answer.  "Proportional" and "Constant" store exactly the supplied
    /// fee and refuse its absence; "None" refuses a fee; a kind outside
    /// the royalty catalog is refused.  A missing fee is never defaulted.
    pub fn new_from(kind: &str, fee: Option<u64>) -> (r: Result<Royalties, SchemaError>)
        ensures
            forall|f: u64|
                kind@ == "Proportional"@ && fee == Some(f) ==> r == Ok::<Royalties, SchemaError>(
                    Royalties::Proportional { fee_basis_points: f },
                ),
            forall|f: u64|
                kind@ == "Constant"@ && fee == Some(f) ==> r == Ok::<Royalties, SchemaError>(
                    Royalties::Constant { fee: f },
                ),
            (kind@ == "Proportional"@ || kind@ == "Constant"@) && fee is None ==> r == Err::<
                Royalties,
                SchemaError,
            >(SchemaError::MissingFee),
            kind@ == "None"@ && fee is None ==> r == Ok::<Royalties, SchemaError>(
                Royalties::NoFee,
            ),
            kind@ == "None"@ && fee is Some ==> r == Err::<Royalties, SchemaError>(
                SchemaError::UnexpectedFee,
            ),
            kind@ != "Proportional"@ && kind@ != "Constant"@ && kind@ != "None"@ ==> r == Err::<
                Royalties,
                SchemaError,
            >(SchemaError::UnknownKind),
    {
        proof {
            reveal_strlit("Proportional");
            reveal_strlit("Constant");
            reveal_strlit("None");
            assert("Proportional"@.len() == 12);
            assert("Constant"@.len() == 8);
            assert("None"@.len() == 4);
        }
        if str_eq(kind, "Proportional") {
            match fee {
                Option::Some(f) => Ok(Royalties::Proportional { fee_basis_points: f }),
                Option::None => Err(SchemaError::MissingFee),
            }
        } else if str_eq(kind, "Constant") {
            match fee {
                Option::Some(f) => Ok(Royalties::Constant { fee: f }),
                Option::None => Err(SchemaError::MissingFee),
            }
        } else if str_eq(kind, "None") {
            match fee {
                Option::None => Ok(Royalties::NoFee),
                Option::Some(_) => Err(SchemaError::UnexpectedFee),
            }
        } else {
            Err(SchemaError::UnknownKind)
        }
    }
}

} // verus!
