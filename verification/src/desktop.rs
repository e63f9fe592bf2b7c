use vstd::prelude::*;

use crate::error::{Error, PlatformFailure};
use crate::mobile::{init_result, Ext};

verus! {

/// Desktop initializer: completes plugin registration from the outcome of
/// the host's native backend construction. It yields the same opaque handle
/// type as the mobile paths; a failed construction is surfaced unchanged,
/// its kind opaque to this scaffold.
pub fn init(outcome: Result<u64, PlatformFailure>) -> (r: Result<Ext, Error>)
    ensures
        r == init_result(outcome),
{
    crate::mobile::init(outcome)
}

} // verus!
