//! Errors of the status subsystem.
use crate::numeric::Numeric;
use vstd::prelude::*;

verus! {

/// The three block pointers that a detail row carries.
#[derive(Debug, Clone, Copy, PartialEq, Eq, Structural)]
pub enum BlockField {
    ChainHead,
    Earliest,
    Latest,
}

impl BlockField {
    /// The name under which the field's columns are stored.
    pub fn name(&self) -> (r: &'static str)
        ensures
            r@ == (match self {
                BlockField::ChainHead => "ethereum_head_block"@,
                BlockField::Earliest => "earliest_ethereum_block"@,
                BlockField::Latest => "latest_ethereum_block"@,
            }),
    {
        match self {
            BlockField::ChainHead => "ethereum_head_block",
            BlockField::Earliest => "earliest_ethereum_block",
            BlockField::Latest => "latest_ethereum_block",
        }
    }
}

/// A stored row that breaks an invariant of the data model.
#[allow(inconsistent_fields)]
#[derive(Debug)]
pub enum Violation {
    /// Exactly one of the hash and the number of a block pointer is set.
    IncompletePointer {
        deployment: String,
        field: BlockField,
        hash: Option<Vec<u8>>,
        number: Option<Numeric>,
    },
    /// A block number that is not an integer representable as a `u64`.
    UnrepresentableNumber { deployment: String, field: BlockField, number: Numeric },
    /// A health value outside the known vocabulary.
    UnknownHealth { value: String },
}

#[derive(Debug)]
pub enum StoreError {
    /// Stored data is malformed.
    ConstraintViolation(Violation),
    /// The underlying read failed; the text describes why.
    Database(String),
}

} // verus!
