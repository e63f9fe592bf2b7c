use vstd::prelude::*;

use crate::error::{error_of, Error, PlatformFailure};

verus! {

/// Opaque handle to the registered native plugin.
///
/// It wraps the token under which the host runtime knows the native module
/// it registered, and it deliberately exposes no operations: the extension
/// surface behind the handle is defined elsewhere, and callers of this
/// scaffold only store the handle in managed state and retrieve it again.
#[derive(Clone, Copy, PartialEq, Eq, Structural, Debug)]
pub struct Ext {
    token: u64,
}

/// The handle wrapping a given native token.
pub closed spec fn ext_of(token: u64) -> Ext {
    Ext { token }
}

impl Ext {
    /// The native token this handle wraps.
    pub closed spec fn id(self) -> u64 {
        self.token
    }
}

/// The handle wrapping a token carries exactly that token.
pub proof fn lemma_ext_of_id(token: u64)
    ensures
        ext_of(token).id() == token,
{
}

/// A handle is determined by its token: two handles that wrap the same
/// native token are the same handle.
pub proof fn lemma_ext_determined_by_id(a: Ext, b: Ext)
    requires
        a.id() == b.id(),
    ensures
        a == b,
{
}

/// What initialization yields for each outcome of the host's native call:
/// a handle wrapping the returned token, or the failure surfaced unchanged.
pub open spec fn init_result(outcome: Result<u64, PlatformFailure>) -> Result<Ext, Error> {
    match outcome {
        Ok(token) => Ok(ext_of(token)),
        Err(failure) => Err(error_of(failure)),
    }
}

/// Mobile initializer: completes plugin registration from the outcome of the
/// host's native call — the Android plugin-class registration or the iOS
/// entry-symbol binding. A successful registration is wrapped as the opaque
/// handle; a failure is surfaced unchanged.
pub fn init(outcome: Result<u64, PlatformFailure>) -> (r: Result<Ext, Error>)
    ensures
        r == init_result(outcome),
{
    match outcome {
        Ok(token) => Ok(Ext { token }),
        Err(failure) => Err(failure.into_error()),
    }
}

} // verus!
