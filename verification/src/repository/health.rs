//! Failures of the health check.
use vstd::prelude::*;

verus! {

/// Why the health check failed.
#[derive(Clone, Copy, Debug, PartialEq, Eq, Structural)]
pub enum HealthCheckError {
    /// The database did not answer.
    DatabaseConnectionError,
}

} // verus!
