use vstd::prelude::*;

verus! {

/// No token was available: the count was zero, or stayed zero until the deadline.
#[derive(Copy, Clone, Debug, Eq, PartialEq, Hash, Ord, PartialOrd)]
pub struct NoToken;

impl NoToken {
    /// The text that describes this condition.
    pub fn message(&self) -> (r: &'static str)
        ensures
            r@ == "No token available"@,
    {
        "No token available"
    }
}

/// A release found the count at the largest value the primitive can hold.
#[derive(Copy, Clone, Debug, Eq, PartialEq, Hash, Ord, PartialOrd)]
pub struct Overflow;

impl Overflow {
    /// The text that describes this condition.
    pub fn message(&self) -> (r: &'static str)
        ensures
            r@ == "Overflow of a semaphore"@,
    {
        "Overflow of a semaphore"
    }
}

} // verus!
