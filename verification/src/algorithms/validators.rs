//! The checks that a configuration has to pass.
use crate::algorithms::error::{AlgorithmBuilderError, Field};
use crate::ieee::{in_unit_interval, is_probability, le, real_le};
use vstd::prelude::*;

verus! {

/// Whether two vectors of bounds agree: they have the same length, and each
/// lower bound is at most the upper bound at its place.
pub open spec fn bounds_agree(lower: Seq<u64>, upper: Seq<u64>) -> bool {
    &&& lower.len() == upper.len()
    &&& forall|i: int| 0 <= i < lower.len() ==> real_le(#[trigger] lower[i], upper[i])
}

/// Accepts a count that is strictly positive.
pub fn validate_positive(value: usize, field: Field) -> (r: Result<(), AlgorithmBuilderError>)
    ensures
        r is Ok <==> value > 0,
        r is Err ==> r == Err::<(), _>(AlgorithmBuilderError::ValidationError(field)),
{
    if value == 0 {
        Err(AlgorithmBuilderError::ValidationError(field))
    } else {
        Ok(())
    }
}

/// Accepts a rate that lies in the closed interval from 0 to 1.
pub fn validate_probability(value: u64, field: Field) -> (r: Result<(), AlgorithmBuilderError>)
    ensures
        r is Ok <==> is_probability(value),
        r is Err ==> r == Err::<(), _>(AlgorithmBuilderError::ValidationError(field)),
{
    if in_unit_interval(value) {
        Ok(())
    } else {
        Err(AlgorithmBuilderError::ValidationError(field))
    }
}

/// Accepts a lower and an upper vector of bounds that agree.
pub fn validate_bounds(lower: &Vec<u64>, upper: &Vec<u64>) -> (r: Result<(), AlgorithmBuilderError>)
    ensures
        r is Ok <==> bounds_agree(lower@, upper@),
        r is Err ==> r == Err::<(), _>(AlgorithmBuilderError::ValidationError(Field::Bounds)),
{
    if lower.len() != upper.len() {
        return Err(AlgorithmBuilderError::ValidationError(Field::Bounds));
    }
    let mut i: usize = 0;
    while i < lower.len()
        invariant
            i <= lower.len(),
            lower.len() == upper.len(),
            forall|k: int| 0 <= k < i ==> real_le(#[trigger] lower@[k], upper@[k]),
        decreases lower.len() - i,
    {
        if !le(lower[i], upper[i]) {
            return Err(AlgorithmBuilderError::ValidationError(Field::Bounds));
        }
        i += 1;
    }
    Ok(())
}

} // verus!
