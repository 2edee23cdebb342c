//! Application-level configuration that the core consumes.

use vstd::prelude::*;

verus! {

/// Public base URL of the application; confirmation links embed it.
pub struct ApplicationBaseUrl(pub String);

} // verus!
