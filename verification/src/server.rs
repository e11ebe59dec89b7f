//! Server provider markers; the transport itself lives outside the
//! verified library.

use vstd::prelude::*;

verus! {

/// A server provider that performs no requests; every operation reports an
/// unreachable server.
#[derive(Debug, Clone)]
pub struct NoOpServerProvider;

impl NoOpServerProvider {
    /// Create a new no-op server provider.
    pub fn new() -> (r: NoOpServerProvider) {
        NoOpServerProvider
    }
}

} // verus!
