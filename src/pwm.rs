//! Settings of the PWM channels.

use vstd::prelude::*;

verus! {

/// PWM modulation types
#[derive(Debug, Clone, Copy, PartialEq, Eq, Structural)]
pub enum ModulationType {
    /// Amplitude modulation.
    Am,
}

} // verus!
