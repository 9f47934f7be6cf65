//! The API's health check.
use vstd::prelude::*;

verus! {

/// API health status.
pub struct ApiHealthStatus {
    pub health_status: String,
}

/// The path of the health check.
pub fn ping_path() -> (r: &'static str)
    ensures
        r@ == "/3.0/ping"@,
{
    "/3.0/ping"
}

} // verus!
