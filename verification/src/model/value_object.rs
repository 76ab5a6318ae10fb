//! Validated values: a raw value wrapped by a constructor that may refuse it.
use vstd::prelude::*;

verus! {

/// A value that exists only once its raw content has been accepted.
pub trait ValueObject: Sized {
    /// The raw content.
    type Value;

    /// Why a raw content was refused.
    type Error: ValueObjectError;

    /// The raw content that the value wraps.
    spec fn raw(&self) -> Self::Value;

    fn inner_ref(&self) -> (r: &Self::Value)
        ensures
            *r == self.raw(),
    ;

    fn into_inner(self) -> (r: Self::Value)
        ensures
            r == self.raw(),
    ;
}

/// Marks the error types of value objects.
pub trait ValueObjectError {

}

} // verus!
