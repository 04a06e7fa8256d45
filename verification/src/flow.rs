use vstd::prelude::*;

verus! {

/// Per-request control-flow signal carried through a handler chain.
/// Once `skip_rest` is set, the executor invokes no further handler.
pub struct FlowCtrl {
    /// True once some handler has terminated the chain early.
    pub skip_rest: bool,
}

impl FlowCtrl {
    /// A fresh signal for a new request: nothing skipped yet.
    pub fn new() -> (r: FlowCtrl)
        ensures
            !r.skip_rest,
    {
        FlowCtrl { skip_rest: false }
    }

    /// Stops the rest of the chain: no handler after the caller runs.
    pub fn cease(&mut self)
        ensures
            final(self).skip_rest,
    {
        self.skip_rest = true;
    }
}

} // verus!
