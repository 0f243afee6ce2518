//! What the running application shares between its handlers.

use vstd::prelude::*;

verus! {

/// The address under which clients reach the application. Confirmation
/// links begin with it.
#[derive(Debug, Clone)]
pub struct ApplicationBaseUrl(pub String);

} // verus!
