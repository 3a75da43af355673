//! Capability profile for the terminal hosting the rendered client.
//!
//! Configuration expresses which optional features the user wants. Runtime
//! protocol negotiation establishes which requested extensions are safe to
//! enable. Before that negotiation completes, Windows starts conservatively.
use vstd::prelude::*;

verus! {

#[derive(Debug, Clone, Copy, PartialEq, Eq, Structural)]
pub struct HostTerminalCapabilities {
    pub kitty_graphics: bool,
    pub synchronized_output: bool,
}

impl HostTerminalCapabilities {
    /// The profile before negotiation: no extensions on Windows; on Unix the
    /// established ones, whose host probes and direct graphics transport
    /// already bound what Unix terminal stacks accept.
    pub fn initial_for_platform(is_windows: bool) -> (r: Self)
        ensures
            r.kitty_graphics == !is_windows,
            r.synchronized_output == !is_windows,
    {
        if is_windows {
            Self { kitty_graphics: false, synchronized_output: false }
        } else {
            Self { kitty_graphics: true, synchronized_output: true }
        }
    }
}

} // verus!
