//! Settings of the digital I/O pins.

use vstd::prelude::*;

verus! {

/// Output driver of a pin.
#[derive(Debug, Clone, Copy, PartialEq, Eq, Structural)]
pub enum OutputType {
    PushPull5v,
    PushPull3v,
    OpenDrain,
}

/// Pull resistor of a pin.
#[derive(Debug, Clone, Copy, PartialEq, Eq, Structural)]
pub enum PullType {
    PullUp5v,
    PullUp3v,
    PullDown,
    Float,
}

/// Direction of a pin.
#[derive(Debug, Clone, Copy, PartialEq, Eq, Structural)]
pub enum Direction {
    Input,
    Output,
}

/// Full configuration of a pin; unset options are left as they are.
#[derive(Debug, Clone)]
pub struct IoConfig {
    pub direction: Direction,
    pub value: Option<bool>,
    pub output_type: Option<OutputType>,
    pub pull_type: Option<PullType>,
    pub stream: Option<bool>,
}

} // verus!
