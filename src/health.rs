//! The liveness payloads: the root greeting and the health routes.

use vstd::prelude::*;
use vstd::string::*;

verus! {

/// The version the health route reports.
pub const API_VERSION: &'static str = "0.1.0";

/// The root route's greeting.
pub fn hello() -> (r: &'static str)
    ensures
        r@ == "hello world"@,
{
    "hello world"
}

/// The payload of the enveloped health route.
#[derive(Clone, Debug)]
pub struct HealthStatus {
    pub status: String,
}

impl HealthStatus {
    /// The healthy status, `"ok"`.
    pub fn ok() -> (r: HealthStatus)
        ensures
            r.status@ == "ok"@,
    {
        HealthStatus { status: String::from_str("ok") }
    }
}

/// The payload of the plain health route: a status code and the version.
#[derive(Clone, Debug)]
pub struct HealthResponse {
    pub status: u16,
    pub version: String,
}

/// The plain health payload: status 200 and the API's version.
pub fn health() -> (r: HealthResponse)
    ensures
        r.status == 200,
        r.version@ == API_VERSION@,
{
    HealthResponse { status: 200, version: String::from_str(API_VERSION) }
}

} // verus!
