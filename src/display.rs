//! Settings of the display.

use vstd::prelude::*;
use crate::error::ObnizResult;

verus! {

/// QR code error correction levels
#[derive(Debug, Clone, Copy, PartialEq, Eq, Structural)]
pub enum QrCorrectionType {
    Low,
    Medium,
    Quality,
    High,
}

/// Color depth for raw display data
#[derive(Debug, Clone, Copy, PartialEq, Eq, Structural)]
pub enum DisplayRawColorDepth {
    OneBit,
    FourBit,
    SixteenBit,
}

/// Display configuration for raw data
#[derive(Debug, Clone)]
pub struct RawDisplayConfig {
    pub width: u16,
    pub height: u16,
    pub color_depth: DisplayRawColorDepth,
    pub data: Vec<u16>,
}

/// Pin assignment configuration for display modules
#[derive(Debug, Clone)]
pub struct PinAssignment {
    pub pin: u8,
    pub module_name: String,
    pub pin_name: String,
}

/// Blocking display operations on a connected device.
pub trait ObnizDisplay {
    fn display_text(&self, text: &str) -> ObnizResult<()>;

    fn display_clear(&self) -> ObnizResult<()>;

    fn display_qr(&self, text: &str, correction_type: QrCorrectionType) -> ObnizResult<()>;

    fn display_raw(&self, config: RawDisplayConfig) -> ObnizResult<()>;

    fn display_pin_assign(&self, assignments: Vec<PinAssignment>) -> ObnizResult<()>;
}

} // verus!
