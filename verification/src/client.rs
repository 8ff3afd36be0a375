//! Client identity: the pair of window identifiers a managed client owns.

use vstd::prelude::*;

verus! {

/// A managed client: the application's top-level window and the decorated
/// frame window created for it. Immutable once created.
#[derive(Debug, Clone, Copy, PartialEq, Eq, Structural)]
pub struct Client {
    pub app_id: u32,
    pub frame_id: u32,
}

impl Client {
    pub fn new(app_id: u32, frame_id: u32) -> (r: Client)
        ensures
            r == (Client { app_id, frame_id }),
    {
        Client { app_id, frame_id }
    }
}

/// The role a window identifier plays for the client it resolves to.
#[derive(Debug, Clone, Copy, PartialEq, Eq, Structural)]
pub enum Role {
    App,
    Frame,
}

} // verus!
