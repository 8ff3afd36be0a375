//! The execution guard: bracketing a request sequence in the server-wide
//! mutual-exclusion pair, so that other clients observe it atomically.
//!
//! The caller performing the requests must release the guard on every exit
//! path, error paths included; the bracket it must honour is planned here.

use vstd::prelude::*;

use crate::request::Request;

verus! {

/// Plans mutual-exclusion brackets around request sequences.
pub struct MiddleExecutor {
}

impl MiddleExecutor {
    pub fn new() -> (r: MiddleExecutor)
    {
        MiddleExecutor {  }
    }

    /// Bracket a request sequence in the grab/ungrab pair: the grab comes
    /// first, the release last, with the sequence unchanged in between.
    pub fn execute_grabbed(&self, requests: Vec<Request>) -> (r: Vec<Request>)
        ensures
            r@ =~= seq![Request::GrabServer] + requests@ + seq![Request::UngrabServer],
    {
        let mut bracketed: Vec<Request> = Vec::new();
        bracketed.push(Request::GrabServer);
        let n = requests.len();
        let mut i: usize = 0;
        while i < n
            invariant
                n == requests@.len(),
                0 <= i <= n,
                bracketed@ =~= seq![Request::GrabServer] + requests@.take(i as int),
            decreases n - i,
        {
            bracketed.push(requests[i]);
            i += 1;
        }
        proof {
            assert(requests@.take(n as int) =~= requests@);
        }
        bracketed.push(Request::UngrabServer);
        bracketed
    }
}

} // verus!
