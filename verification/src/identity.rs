//! Identities of owners, authorities and assets.

use vstd::prelude::*;

verus! {

/// A 256-bit identity: of a user, of a pool's own authority, or of an asset.
/// It is held as two 128-bit halves, so that two identities are the same
/// exactly when both halves are.
#[derive(Clone, Copy, Debug, PartialEq, Eq, Structural)]
pub struct Identity {
    pub hi: u128,
    pub lo: u128,
}

impl Identity {
    /// The identity with the given halves.
    pub fn new(hi: u128, lo: u128) -> (id: Identity)
        ensures
            id == (Identity { hi, lo }),
    {
        Identity { hi, lo }
    }

    /// Whether two identities are the same.
    pub fn same(&self, other: &Identity) -> (r: bool)
        ensures
            r == (*self == *other),
    {
        self.hi == other.hi && self.lo == other.lo
    }
}

} // verus!
