//! The health checks.
use vstd::prelude::*;
use crate::repository::health::HealthCheckError;

verus! {

/// The status of the service's own health check: it answers, so it is up.
pub fn health_check() -> (r: u16)
    ensures
        r == 200,
{
    200
}

/// The status of the database's health check.
pub fn health_check_db(result: Result<(), HealthCheckError>) -> (r: u16)
    ensures
        r == (if result is Ok {
            200u16
        } else {
            500u16
        }),
{
    match result {
        Ok(_) => 200,
        Err(_) => 500,
    }
}

} // verus!
