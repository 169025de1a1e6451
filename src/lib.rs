//! Consistency core of a multi-tenant control plane: the request-scoped
//! unit of work over the catalog, and the reconciliation of catalog entities
//! (tenants, workloads, volumes, variables) onto cluster objects.
pub mod naming;
pub mod text;
pub mod model;
pub mod manifest;
pub mod plan;
pub mod run;
pub mod laws;
pub mod slot;
pub mod auth;
pub mod database;
pub mod transaction;
pub mod error;
pub mod requests;
