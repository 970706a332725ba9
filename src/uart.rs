//! Settings of the UART channels.

use vstd::prelude::*;

verus! {

/// UART parity settings
#[derive(Debug, Clone, Copy, PartialEq, Eq, Structural)]
pub enum Parity {
    Off,
    Odd,
    Even,
}

/// UART flow control settings
#[derive(Debug, Clone, Copy, PartialEq, Eq, Structural)]
pub enum FlowControl {
    Off,
    Rts,
    Cts,
    RtsCts,
}

} // verus!
