//! Board-wide information and settings.

use vstd::prelude::*;

verus! {

/// System information structure
#[derive(Debug, Clone)]
pub struct SystemInfo {
    pub version: String,
    pub hardware: String,
    pub device_type: String,
    pub region: Option<String>,
}

/// Reset configuration
#[derive(Debug, Clone)]
pub struct ResetConfig {
    pub reset_obniz_on_ws_disconnection: bool,
}

} // verus!
