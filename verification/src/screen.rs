//! State for the demonstration modal screen. The windowing layer around the
//! library owns all drawing and event plumbing; only the plain screen state
//! lives here.
use vstd::prelude::*;

verus! {

/// The demonstration modal screen. It carries no state of its own yet; the
/// surrounding user interface opens and closes it.
#[derive(Clone, Copy, Debug, PartialEq, Eq, Structural)]
pub struct TestModal;

impl TestModal {
    /// A fresh modal screen.
    pub fn new() -> (r: TestModal)
        ensures
            r == (TestModal {}),
    {
        TestModal {}
    }
}

} // verus!
