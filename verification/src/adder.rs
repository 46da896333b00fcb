//! The native computation behind the exported `add` symbol: unsigned 64-bit
//! addition that reports overflow instead of wrapping.

use vstd::prelude::*;

verus! {

/// The two ways a call across the bridge can fail: an argument that cannot
/// be coerced to the native unsigned type, or a sum that does not fit it.
#[derive(Clone, Copy, Debug, PartialEq, Eq, Structural)]
pub enum AddError {
    Coercion,
    Overflow,
}

/// What `add` returns: the mathematical sum when it is representable in
/// 64 bits, and an overflow error otherwise. Never a wrapped value.
pub open spec fn add_spec(a: u64, b: u64) -> Result<u64, AddError> {
    if a + b <= u64::MAX {
        Ok((a + b) as u64)
    } else {
        Err(AddError::Overflow)
    }
}

/// The exposed computation: the sum of `a` and `b`, or `AddError::Overflow`
/// when the sum exceeds `u64::MAX`. Pure, with no side effects.
pub fn add(a: u64, b: u64) -> (r: Result<u64, AddError>)
    ensures
        r == add_spec(a, b),
{
    if b <= u64::MAX - a {
        Ok(a + b)
    } else {
        Err(AddError::Overflow)
    }
}

/// For all non-negative integers within the representable range, the
/// adapter returns exactly their mathematical sum.
pub proof fn lemma_add_exact(a: u64, b: u64)
    requires
        a + b <= u64::MAX,
    ensures
        add_spec(a, b) == Ok::<u64, AddError>((a + b) as u64),
{
}

/// Addition through the adapter is commutative: swapping the arguments
/// never changes the outcome, successful or not.
pub proof fn lemma_add_commutative(a: u64, b: u64)
    ensures
        add_spec(a, b) == add_spec(b, a),
{
}

/// Zero is an identity: adding zero to any representable value returns
/// that value unchanged.
pub proof fn lemma_add_identity(a: u64)
    ensures
        add_spec(a, 0) == Ok::<u64, AddError>(a),
{
}

/// A sum beyond the representable range surfaces as an overflow error,
/// never as a silently wrapped value.
pub proof fn lemma_add_overflow(a: u64, b: u64)
    requires
        a + b > u64::MAX,
    ensures
        add_spec(a, b) == Err::<u64, AddError>(AddError::Overflow),
{
}

} // verus!
