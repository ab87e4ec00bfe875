use vstd::prelude::*;

verus! {

/// Seconds for which a session token is honoured after it is issued.
pub const TOKEN_TTL_SECONDS: u64 = 600;

} // verus!
