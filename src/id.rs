use vstd::prelude::*;

verus! {

/// A 128-bit universally unique identifier of a user, a group or a membership.
#[derive(Clone, Copy, Debug, PartialEq, Eq, Structural, Hash)]
pub struct Id(pub u128);

impl Id {
    /// A fresh random identifier.
    /// Relies on uuid::Uuid::new_v4 for the random bits; nothing is promised
    /// of the value.
    #[verifier::external_body]
    pub fn new_v4() -> (r: Id) {
        Id(u128::from_be_bytes(*uuid::Uuid::new_v4().as_bytes()))
    }
}

} // verus!
