//! Window hints a renderer consumes when drawing a frame decoration.

use vstd::prelude::*;

verus! {

/// Hints fetched from a client's application window: for now only the title
/// shown in the frame's titlebar.
#[derive(Debug, Clone)]
pub struct ClientHints {
    pub title: String,
}

impl Default for ClientHints {
    /// Hints for a client that published none: an empty title.
    fn default() -> (r: ClientHints)
        ensures
            r.title@ == Seq::<char>::empty(),
    {
        ClientHints { title: String::new() }
    }
}

} // verus!
