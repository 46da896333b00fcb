//! The boundary-crossing half of the adapter: a model of the values a host
//! interpreter can hand over, and the coercion that turns one into the
//! native unsigned word before the computation runs.

use vstd::prelude::*;
use crate::adder::AddError;

verus! {

/// What the adapter can learn about one host-supplied argument. The bridge
/// glue classifies each incoming value into exactly one of these before the
/// library decides anything; only a non-negative integer that already fits
/// the native 64-bit word is coercible.
#[derive(Debug, PartialEq, Eq)]
pub enum HostValue {
    /// A non-negative integer within the native unsigned 64-bit range.
    Uint(u64),
    /// An integer below zero, or one above the native range: numeric, but
    /// not representable, so it must be rejected rather than truncated.
    OutOfRange,
    /// A number with a fractional part.
    Fractional,
    /// A text value.
    Text(String),
    /// Anything else the host can construct.
    Other,
}

/// Whether a host value can be coerced to the native unsigned word.
pub open spec fn coercible(v: HostValue) -> bool {
    v is Uint
}

/// The native word a coercible host value stands for.
pub open spec fn coerced(v: HostValue) -> u64 {
    v->Uint_0
}

/// What a full call through the bridge returns: a coercion error when either
/// argument is not a representable non-negative integer (whichever argument
/// fails, the same error surfaces), otherwise whatever the native addition
/// gives.
pub open spec fn call_add_spec(a: HostValue, b: HostValue) -> Result<u64, AddError> {
    if !coercible(a) || !coercible(b) {
        Err(AddError::Coercion)
    } else {
        crate::adder::add_spec(coerced(a), coerced(b))
    }
}

/// Coercion of one argument: the carried word for a representable integer,
/// `AddError::Coercion` for every other kind of host value.
pub fn coerce(v: &HostValue) -> (r: Result<u64, AddError>)
    ensures
        coercible(*v) ==> r == Ok::<u64, AddError>(coerced(*v)),
        !coercible(*v) ==> r == Err::<u64, AddError>(AddError::Coercion),
{
    match v {
        HostValue::Uint(n) => Ok(*n),
        _ => Err(AddError::Coercion),
    }
}

/// The whole exposed call as the host sees it: coerce both arguments, then
/// add. Referentially transparent; a failed call has no observable effect.
pub fn call_add(a: &HostValue, b: &HostValue) -> (r: Result<u64, AddError>)
    ensures
        r == call_add_spec(*a, *b),
{
    let x = match coerce(a) {
        Ok(x) => x,
        Err(e) => {
            return Err(e);
        },
    };
    let y = match coerce(b) {
        Ok(y) => y,
        Err(e) => {
            return Err(e);
        },
    };
    crate::adder::add(x, y)
}

/// An argument the host cannot coerce to the native numeric type — text,
/// a fractional number, an integer outside the range, anything but a
/// representable non-negative integer — makes the whole call fail with a
/// coercion error, whichever position it stands in.
pub proof fn lemma_non_numeric_rejected(a: HostValue, b: HostValue)
    requires
        !coercible(a) || !coercible(b),
    ensures
        call_add_spec(a, b) == Err::<u64, AddError>(AddError::Coercion),
{
}

} // verus!
