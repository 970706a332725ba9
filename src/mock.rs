//! Settings of a simulated device.

use vstd::prelude::*;

verus! {

/// How a simulated device behaves.
#[derive(Debug, Clone)]
pub struct MockConfig {
    pub device_id: String,
    pub should_fail_connection: bool,
    pub should_timeout: bool,
    pub default_delay_ms: u64,
}

impl Default for MockConfig {
    /// A device named `mock-device` that connects, answers, and waits 10 ms.
    fn default() -> (r: Self)
        ensures
            r.device_id@ == "mock-device"@,
            !r.should_fail_connection,
            !r.should_timeout,
            r.default_delay_ms == 10,
    {
        MockConfig {
            device_id: String::from_str("mock-device"),
            should_fail_connection: false,
            should_timeout: false,
            default_delay_ms: 10,
        }
    }
}

} // verus!
