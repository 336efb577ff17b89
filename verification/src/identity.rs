//! Identities: who owns an entity and who asks.

use vstd::prelude::*;
use crate::error::CustomError;

verus! {

/// An opaque 32-byte handle for an account or an authority. The library
/// stores handles and compares them; it never derives or interprets one.
#[derive(Clone, Copy, Debug, PartialEq, Eq)]
pub struct Address {
    pub bytes: [u8; 32],
}

impl Address {
    /// Whether two handles are the same, byte for byte.
    pub fn same_as(&self, other: &Address) -> (r: bool)
        ensures
            r == (self.bytes@ == other.bytes@),
    {
        let mut i: usize = 0;
        while i < 32
            invariant
                i <= 32,
                forall|j: int| 0 <= j < i ==> self.bytes@[j] == other.bytes@[j],
            decreases 32 - i,
        {
            if self.bytes[i] != other.bytes[i] {
                return false;
            }
            i = i + 1;
        }
        proof {
            assert(self.bytes@ =~= other.bytes@);
        }
        true
    }
}

/// What the authorization check answers for a caller and the authority that
/// the entity records.
pub open spec fn spec_authorize(caller: Address, required: Address) -> Result<(), CustomError> {
    if caller.bytes@ == required.bytes@ {
        Ok(())
    } else {
        Err(CustomError::UnauthorizedAccess)
    }
}

/// Lets the caller through where it is the required authority, and fails
/// with `UnauthorizedAccess` where it is not.
pub fn authorize(caller: &Address, required: &Address) -> (r: Result<(), CustomError>)
    ensures
        r == spec_authorize(*caller, *required),
{
    if caller.same_as(required) {
        Ok(())
    } else {
        Err(CustomError::UnauthorizedAccess)
    }
}

} // verus!
