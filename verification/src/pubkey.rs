//! Identities: the addresses of administrators, claimants, token mints and
//! balance holders.
//!
//! The ledger's own key material is opaque to the state machine; all it ever
//! does with a key is compare it for equality and test it against the
//! default (all-zero) identity.  A `Pubkey` therefore carries the key as one
//! plain value.

use vstd::prelude::*;

verus! {

/// An identity on the ledger.  `id == 0` is the default (empty) identity,
/// which never belongs to a real party.
#[derive(Clone, Copy, Debug, PartialEq, Eq, Structural)]
pub struct Pubkey {
    pub id: u64,
}

impl Pubkey {
    /// The default (all-zero) identity, used where no party is recorded.
    pub open spec fn is_zero(self) -> bool {
        self.id == 0
    }

    pub fn new(id: u64) -> (k: Pubkey)
        ensures
            k.id == id,
    {
        Pubkey { id }
    }

    /// The default identity itself.
    pub fn zero() -> (k: Pubkey)
        ensures
            k.is_zero(),
    {
        Pubkey { id: 0 }
    }
}

} // verus!
