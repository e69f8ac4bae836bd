//! Status resolution for subgraph deployments: validation of the raw rows of
//! the deployment detail view and their mapping into status records.
pub mod block;
pub mod detail;
pub mod error;
pub mod health;
pub mod numeric;
pub mod query;
pub mod version;
