//! Validation of the (hash, number) pairs that describe a block pointer.
use crate::error::{BlockField, StoreError, Violation};
use crate::numeric::{decimal_is_integer, decimal_to_u64, lemma_to_u64_round_trip, Numeric};
use vstd::prelude::*;

verus! {

/// The number of bytes in a block hash.
pub const HASH_LEN: usize = 32;

/// A position in the chain: a block hash and a block number.
#[derive(Debug)]
pub struct BlockPointer {
    pub hash: Vec<u8>,
    pub number: u64,
}

impl BlockPointer {
    pub open spec fn wf(&self) -> bool {
        self.hash@.len() == HASH_LEN
    }
}

/// A stored pair that holds both a hash and a number has a hash of the
/// length of a block hash.
pub open spec fn hash_ok(hash: Option<Vec<u8>>, number: Option<Numeric>) -> bool {
    hash is Some && number is Some ==> hash->Some_0@.len() == HASH_LEN
}

/// What validating the stored pair `(hash, number)` of `field` of deployment
/// `id` yields.
pub open spec fn block_pointer_spec(
    id: String,
    field: BlockField,
    hash: Option<Vec<u8>>,
    number: Option<Numeric>,
) -> Result<Option<BlockPointer>, StoreError> {
    match (hash, number) {
        (Some(h), Some(n)) => if n.is_integral() && n.to_u64_spec() is Some {
            Ok(Some(BlockPointer { hash: h, number: n.to_u64_spec()->Some_0 }))
        } else {
            Err(
                StoreError::ConstraintViolation(
                    Violation::UnrepresentableNumber { deployment: id, field, number: n },
                ),
            )
        },
        (None, None) => Ok(None),
        _ => Err(
            StoreError::ConstraintViolation(
                Violation::IncompletePointer { deployment: id, field, hash, number },
            ),
        ),
    }
}

/// Turns the stored pair `(hash, number)` of `field` of deployment `id` into
/// a block pointer: both set give a pointer, both unset give none, and any
/// other combination, or a number that is not an integer representable as
/// a `u64`, is a violation.
pub fn block_pointer(
    id: &String,
    field: BlockField,
    hash: Option<Vec<u8>>,
    number: Option<Numeric>,
) -> (r: Result<Option<BlockPointer>, StoreError>)
    requires
        hash_ok(hash, number),
    ensures
        r == block_pointer_spec(*id, field, hash, number),
        r matches Ok(Some(p)) ==> p.wf(),
{
    match (hash, number) {
        (Some(h), Some(n)) => {
            let converted = if decimal_is_integer(&n) {
                decimal_to_u64(&n)
            } else {
                None
            };
            match converted {
                Some(k) => Ok(Some(BlockPointer { hash: h, number: k })),
                None => Err(
                    StoreError::ConstraintViolation(
                        Violation::UnrepresentableNumber { deployment: id.clone(), field, number: n },
                    ),
                ),
            }
        },
        (None, None) => Ok(None),
        (hash, number) => Err(
            StoreError::ConstraintViolation(
                Violation::IncompletePointer { deployment: id.clone(), field, hash, number },
            ),
        ),
    }
}

/// Validating a complete pair fails when its number is fractional or lies
/// outside `[0, 2^64)`, and succeeds when it is an integer inside; every
/// block number it accepts converts back to exactly the stored value.
pub proof fn lemma_block_number_range(id: String, field: BlockField, hash: Vec<u8>, number: Numeric)
    ensures
        !number.in_range(0, u64::MAX + 1) || !number.is_integral() ==> block_pointer_spec(
            id,
            field,
            Some(hash),
            Some(number),
        ) is Err,
        number.in_range(0, u64::MAX + 1) && number.is_integral() ==> block_pointer_spec(
            id,
            field,
            Some(hash),
            Some(number),
        ) is Ok,
        block_pointer_spec(id, field, Some(hash), Some(number)) matches Ok(Some(p)) ==> p.hash
            == hash && p.number * number.denominator() == number.unscaled_value(),
{
    lemma_to_u64_round_trip(number);
}

} // verus!
