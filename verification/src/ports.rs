//! The decision step of upward port probing: the surrounding
//! application asks the system whether a candidate port is free and
//! hands the answer in; this step decides whether to bind it or which
//! port to probe next.

use vstd::prelude::*;

verus! {

/// The outcome of probing one candidate port.
#[derive(Clone, Copy, Debug, PartialEq, Eq, Structural)]
pub enum PortProbe {
    /// The candidate is free: bind it.
    Chosen(u16),
    /// The candidate is taken: probe this one next.
    Next(u16),
}

/// Decides on one probed candidate: a free port is chosen; a taken
/// port moves the probe to the next port number, wrapping around at
/// the top of the range.
pub fn advance_port(port: u16, free: bool) -> (r: PortProbe)
    ensures
        free ==> r == PortProbe::Chosen(port),
        !free && port < u16::MAX ==> r == PortProbe::Next((port + 1) as u16),
        !free && port == u16::MAX ==> r == PortProbe::Next(0u16),
{
    if free {
        PortProbe::Chosen(port)
    } else if port == u16::MAX {
        PortProbe::Next(0)
    } else {
        PortProbe::Next(port + 1)
    }
}

} // verus!
