//! What the service reports of its own health.

use vstd::prelude::*;

verus! {

/// The state of each part of the service.
#[derive(Clone, Debug, PartialEq, Eq)]
pub struct HealthChecks {
    pub api: String,
    pub websocket: String,
    pub analysis_service: String,
}

/// The health of the service as a whole.
#[derive(Clone, Debug, PartialEq, Eq)]
pub struct HealthStatus {
    pub status: String,
    pub version: String,
    pub uptime_seconds: u64,
    pub checks: HealthChecks,
}

/// The count of open WebSocket connections after one of them has closed. A
/// count of zero stays zero.
pub fn connections_after_close(active: u32) -> (left: u32)
    ensures
        left == if active > 0 { active - 1 } else { 0 },
{
    if active > 0 {
        active - 1
    } else {
        0
    }
}

impl HealthChecks {
    /// Every part is in order.
    pub open spec fn is_all_ok(&self) -> bool {
        &&& self.api@ == "ok"@
        &&& self.websocket@ == "ok"@
        &&& self.analysis_service@ == "ok"@
    }

    /// The checks of a service of which every part is in order.
    pub fn all_ok() -> (checks: HealthChecks)
        ensures
            checks.is_all_ok(),
    {
        HealthChecks {
            api: String::from_str("ok"),
            websocket: String::from_str("ok"),
            analysis_service: String::from_str("ok"),
        }
    }
}

impl HealthStatus {
    /// The report of a healthy service of version `version` that has been
    /// up for `uptime_seconds` seconds.
    pub fn healthy(version: String, uptime_seconds: u64) -> (health: HealthStatus)
        ensures
            health.status@ == "healthy"@,
            health.version == version,
            health.uptime_seconds == uptime_seconds,
            health.checks.is_all_ok(),
    {
        HealthStatus {
            status: String::from_str("healthy"),
            version,
            uptime_seconds,
            checks: HealthChecks::all_ok(),
        }
    }
}

} // verus!
