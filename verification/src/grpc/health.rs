//! The health check service.
use vstd::prelude::*;

verus! {

#[derive(Debug, Clone)]
pub struct HealthCheckRequest {
    /// The service to check status for; if not provided,
    /// status of the queried server overall is returned.
    ///
    /// Generally, this will only be set when querying
    /// the API gateway.  It's not recommended to rely on
    /// internal subservice names being stable.
    pub service: Option<String>,
    pub include_metrics: Option<bool>,
}

#[derive(Debug, Clone, Copy, PartialEq, Eq, Structural)]
pub enum HealthStatus {
    Unknown,
    Serving,
    NotServing,
    ServiceUnknown,
}

impl HealthStatus {
    /// The status's name in screaming snake case, e.g. "NOT_SERVING".
    pub fn as_str(&self) -> (r: &'static str)
        ensures
            r@ == (match self {
                HealthStatus::Unknown => "UNKNOWN"@,
                HealthStatus::Serving => "SERVING"@,
                HealthStatus::NotServing => "NOT_SERVING"@,
                HealthStatus::ServiceUnknown => "SERVICE_UNKNOWN"@,
            }),
    {
        match self {
            HealthStatus::Unknown => "UNKNOWN",
            HealthStatus::Serving => "SERVING",
            HealthStatus::NotServing => "NOT_SERVING",
            HealthStatus::ServiceUnknown => "SERVICE_UNKNOWN",
        }
    }
}

} // verus!
