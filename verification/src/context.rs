//! The shared context of a running pipeline.

use vstd::prelude::*;
use crate::bus::{Bus, BusView};

verus! {

/// Holds the distribution bus that captured telemetry and signaling
/// messages are fanned out on. It is made once and handed to every
/// component that publishes or subscribes.
pub struct Context {
    pub bus: Bus,
}

impl Context {
    /// A context whose bus has the given capacity and holds nothing yet.
    pub fn new(capacity: usize) -> (ctx: Context)
        ensures
            ctx.bus.wf(),
            ctx.bus@ == (BusView { capacity, history: Seq::empty(), closed: false }),
    {
        Context { bus: Bus::new(capacity) }
    }
}

} // verus!
