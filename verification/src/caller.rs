use vstd::prelude::*;

verus! {

/// State of the call-forwarding demo contract. The forwarded calls
/// themselves go to another deployed contract through the hosting
/// environment and live outside the library.
pub struct Caller {
    state: bool,
}

impl Caller {
    /// The demo contract's single state flag.
    pub closed spec fn spec_state(&self) -> bool {
        self.state
    }

    pub fn new() -> (c: Caller)
        ensures
            c.spec_state() == true,
    {
        Caller { state: true }
    }
}

} // verus!
