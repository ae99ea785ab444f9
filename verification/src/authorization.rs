//! The guard in front of every administrative change.
//!
//! The guard is a pure function of two identities: the authority that the token
//! record names, and the caller. It reads nothing else and changes nothing.
//! What it hands to a caller that passes is a capability. Every function that
//! writes a rate or a batch takes one, and uses it up: nothing but the guard
//! makes a capability, so no such write happens without the guard.

use crate::error::ErrorCode;
use crate::identity::Identity;
use vstd::prelude::*;

verus! {

/// The proof that a caller has passed the guard as the stored authority. It is
/// good for one administrative change.
#[derive(Debug)]
pub struct AuthorityCapability {
    holder: Identity,
}

impl AuthorityCapability {
    /// The authority to whom the guard gave this capability.
    pub closed spec fn holder(&self) -> Identity {
        self.holder
    }

    /// The authority to whom the guard gave this capability.
    pub fn holder_identity(&self) -> (id: Identity)
        ensures
            id == self.holder(),
    {
        self.holder
    }
}

/// What the guard answers: the caller passes exactly when it is the stored
/// authority.
pub open spec fn authorization(stored: Identity, caller: Identity) -> Result<(), ErrorCode> {
    if stored == caller {
        Ok(())
    } else {
        Err(ErrorCode::Unauthorized)
    }
}

/// Lets the caller through if it is the stored authority, and refuses it with
/// `Unauthorized` otherwise.
pub fn authorize(stored: &Identity, caller: &Identity) -> (r: Result<
    AuthorityCapability,
    ErrorCode,
>)
    ensures
        r is Ok <==> *stored == *caller,
        r is Ok <==> authorization(*stored, *caller) is Ok,
        r matches Ok(capability) ==> capability.holder() == *stored,
        r matches Err(e) ==> e == ErrorCode::Unauthorized,
{
    if *stored == *caller {
        Ok(AuthorityCapability { holder: *caller })
    } else {
        Err(ErrorCode::Unauthorized)
    }
}

} // verus!
