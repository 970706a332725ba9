//! Settings of the analog input channels.

use vstd::prelude::*;

verus! {

/// AD channel configuration
#[derive(Debug, Clone, Copy, PartialEq, Eq, Structural)]
pub struct AdConfig {
    pub stream: bool,
}

} // verus!
