//! Entities: values that are the same thing whenever their identities agree.
use vstd::prelude::*;

verus! {

pub trait Entity {
    type Identity;

    /// The identity, in contracts.
    spec fn id(&self) -> Self::Identity;

    fn identity(&self) -> (r: &Self::Identity)
        ensures
            *r == self.id(),
    ;

    /// Two entities are the same when their identities are equal.
    fn eq(&self, other: &Self) -> (r: bool)
        ensures
            r == (self.id() == other.id()),
    ;
}

} // verus!
