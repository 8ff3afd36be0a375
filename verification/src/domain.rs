//! Interfaces offered to embedders of the core.

use vstd::prelude::*;

verus! {

/// What a client-side configuration sink accepts: move and resize requests
/// for a single client. Implemented by embedders; the core promises nothing
/// about foreign implementations.
pub trait ClientConfigurationImpl {
    fn req_move(&self, x: i32, y: i32);

    fn req_resize(&self, width: i32, height: i32);
}

} // verus!
