use vstd::prelude::*;

verus! {

/// The groups within which node tags are registered and looked up.
#[derive(Clone, Copy, Debug, PartialEq, Eq, Structural)]
pub enum Family {
    Condition,
    BoolOperation,
    BoolValue,
    IntValue,
    FloatValue,
    FloatListValue,
    FloatRangeValue,
}

/// Failures of evaluation and of reading serialized trees.
#[derive(Debug)]
pub enum NodeError {
    /// A tag that the family's registry does not hold.
    UnknownKind { family: Family, tag: String },
    /// A serialized record lacks a field, or a field has the wrong shape.
    MalformedRecord { field: String },
    /// A parameter outside its meaningful range, such as a negative length.
    InvalidParameter { value: i64 },
}

} // verus!
