//! Options of a decision.

use vstd::prelude::*;

verus! {

/// What the caller asks of a decision besides the decision itself.
#[derive(Clone, Copy, Debug)]
pub struct DecideOptions {
    /// Do not report the decision, whatever it comes from.
    pub disable_decision_event: bool,
}

impl Default for DecideOptions {
    /// The options of a plain decision: it is reported where it can be.
    fn default() -> (options: DecideOptions)
        ensures
            !options.disable_decision_event,
    {
        DecideOptions { disable_decision_event: false }
    }
}

} // verus!
