use vstd::prelude::*;

verus! {

/// Why a typed constructor or the schema aggregate refused an answer.
///
/// All variants but `IndexOutOfBounds` are business-rule (constraint)
/// violations: the raw answer was well formed but the combination is illegal.
/// `IndexOutOfBounds` signals an internal inconsistency: the prompt driver
/// promised an index inside its catalog and broke that promise.
#[derive(Clone, Copy, Debug, PartialEq, Eq, Structural)]
pub enum SchemaError {
    /// A kind string that is not a member of its catalog.
    UnknownKind,
    /// A tag string that is not a member of the tag catalog.
    UnknownTag,
    /// A "Limited" supply policy was requested without a limit.
    MissingLimit,
    /// An "Unlimited" supply policy was requested together with a limit.
    UnexpectedLimit,
    /// A "Proportional" or "Constant" royalty policy was requested without a fee.
    MissingFee,
    /// A "None" royalty policy was requested together with a fee.
    UnexpectedFee,
    /// A selection that must not end up empty was empty.
    EmptySelection,
    /// A catalog selection index lay outside its catalog.
    IndexOutOfBounds,
}

impl SchemaError {
    /// A recoverable business-rule violation, as opposed to an internal
    /// inconsistency of the driver.
    pub open spec fn is_constraint_violation(self) -> bool {
        self != SchemaError::IndexOutOfBounds
    }

    /// Tells the driver whether re-prompting the failed field can help:
    /// a constraint violation is recoverable, an internal inconsistency is
    /// not.
    pub fn is_constraint(&self) -> (b: bool)
        ensures
            b == self.is_constraint_violation(),
    {
        *self != SchemaError::IndexOutOfBounds
    }
}

} // verus!
