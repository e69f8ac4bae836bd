//! The health of a deployment and how it is stored.
use crate::error::{StoreError, Violation};
use vstd::prelude::*;

verus! {

#[derive(Debug, Clone, Copy, PartialEq, Eq, Structural)]
pub enum SubgraphHealth {
    /// Syncing without errors.
    Healthy,
    /// Syncing, but with non-fatal errors.
    Unhealthy,
    /// Stopped by a fatal error.
    Failed,
}

/// The health that a stored string denotes, if any.
pub open spec fn health_of(s: Seq<char>) -> Option<SubgraphHealth> {
    if s == "healthy"@ {
        Some(SubgraphHealth::Healthy)
    } else if s == "unhealthy"@ {
        Some(SubgraphHealth::Unhealthy)
    } else if s == "failed"@ {
        Some(SubgraphHealth::Failed)
    } else {
        None
    }
}

/// Reads a stored health string; an unknown one is a violation that carries it.
pub fn parse_health(s: String) -> (r: Result<SubgraphHealth, StoreError>)
    ensures
        r == (match health_of(s@) {
            Some(h) => Ok(h),
            None => Err(StoreError::ConstraintViolation(Violation::UnknownHealth { value: s })),
        }),
{
    if s == "healthy".to_owned() {
        Ok(SubgraphHealth::Healthy)
    } else if s == "unhealthy".to_owned() {
        Ok(SubgraphHealth::Unhealthy)
    } else if s == "failed".to_owned() {
        Ok(SubgraphHealth::Failed)
    } else {
        Err(StoreError::ConstraintViolation(Violation::UnknownHealth { value: s }))
    }
}

} // verus!
