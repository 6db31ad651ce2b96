//! Telemetry set-up.
use vstd::prelude::*;

verus! {

/// Sets up telemetry; the runtime reports through `tracing` and installs no
/// subscriber of its own.
pub fn init_telemetry() {
}

} // verus!
