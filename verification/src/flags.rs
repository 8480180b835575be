//! The run-time toggles of a single run.

use vstd::prelude::*;

verus! {

/// The two independent toggles of a run: debug-trace emission and
/// instruction-frequency profiling. Both are chosen before the run
/// starts and stay fixed while the machine executes.
#[derive(Clone, Copy, PartialEq, Eq, Structural, Debug)]
pub struct RunFlags {
    /// Emit verbose execution traces while the machine runs.
    pub debug: bool,
    /// Count each executed instruction by its identifier.
    pub profile: bool,
}

impl RunFlags {
    /// Flags with both toggles off: no tracing, no profiling.
    pub fn off() -> (r: RunFlags)
        ensures
            !r.debug,
            !r.profile,
    {
        RunFlags { debug: false, profile: false }
    }

    /// Flags with the given toggles.
    pub fn new(debug: bool, profile: bool) -> (r: RunFlags)
        ensures
            r.debug == debug,
            r.profile == profile,
    {
        RunFlags { debug, profile }
    }
}

} // verus!
