//! The authorization guard: only the admin of a record may administer it.

use vstd::prelude::*;

use crate::error::Errors;
use crate::identity::Pubkey;
use crate::registry::AgentData;

verus! {

/// What the guard answers a caller who asks to administer the record of `admin`.
pub open spec fn authorization_of(admin: Seq<u8>, caller: Seq<u8>) -> Result<(), Errors> {
    if caller == admin {
        Ok(())
    } else {
        Err(Errors::UnauthorizedSigner)
    }
}

/// Succeeds exactly when `caller` is the admin of `record`; any other caller
/// is refused with `UnauthorizedSigner`.
pub fn authorize_admin(record: &AgentData, caller: &Pubkey) -> (outcome: Result<(), Errors>)
    ensures
        outcome == authorization_of(record.admin@, caller@),
{
    if record.admin == *caller {
        Ok(())
    } else {
        Err(Errors::UnauthorizedSigner)
    }
}

} // verus!
