//! The health report of the service.
use vstd::prelude::*;

verus! {

/// Name, version and build of the service.
pub struct ServiceInfo {
    pub name: &'static str,
    pub version: &'static str,
    pub is_debug: bool,
    pub build: BuildInfo,
}

/// When and how the service was built.
pub struct BuildInfo {
    pub timestamp: &'static str,
    pub is_debug: bool,
    pub is_prerelease: bool,
}

/// Start time, uptime and request counts of the running service.
pub struct RuntimeStats {
    /// The start time, as RFC 3339 text.
    pub started_at: String,
    pub uptime_seconds: i64,
    pub requests: RequestStats,
}

/// Request counts.
pub struct RequestStats {
    pub total: u64,
    pub active: u64,
    pub errors: u64,
}

/// What the service offers: its models, endpoints and features.
pub struct Capabilities {
    pub models: Vec<String>,
    pub endpoints: &'static [&'static str],
    pub features: &'static [&'static str],
}

} // verus!
