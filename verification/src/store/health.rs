//! The decision of the health check.
use vstd::prelude::*;
use crate::repository::health::HealthCheckError;

verus! {

/// What the answer to the probe query means: the database is there, or it
/// is not.
pub fn check_db(answered: bool) -> (r: Result<(), HealthCheckError>)
    ensures
        answered ==> r is Ok,
        !answered ==> r == Err::<(), HealthCheckError>(HealthCheckError::DatabaseConnectionError),
{
    if answered {
        Ok(())
    } else {
        Err(HealthCheckError::DatabaseConnectionError)
    }
}

} // verus!
