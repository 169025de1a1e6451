//! Catalog entities as the reconciliation sees them.
use vstd::prelude::*;

verus! {

/// How a workload is reachable from outside its pods.
pub enum Exposure {
    /// Reachable only through its Service.
    Unexposed,
    /// Reachable inside the cluster as `{subdomain}.gws.internal`.
    Private(String),
    /// Reachable from outside as `{subdomain}.localhost`.
    Public(String),
}

/// A tenant: an isolated environment that owns one namespace.
pub struct Galaxy {
    pub id: u128,
    pub name: String,
    pub user_id: u128,
}

/// A workload deployed inside a tenant.
pub struct Star {
    pub id: u128,
    pub name: String,
    /// Image reference the workload runs.
    pub nebula: String,
    pub exposure: Exposure,
    pub port: u16,
    pub galaxy_id: u128,
}

/// A persistent volume, optionally attached to one workload of its tenant.
pub struct Planet {
    pub id: u128,
    pub name: String,
    pub capacity: i32,
    pub path: String,
    pub star_id: Option<u128>,
    pub galaxy_id: u128,
}

/// An environment variable of a workload.
pub struct Variable {
    pub id: u128,
    pub name: String,
    pub value: String,
    pub star_id: u128,
}

impl Exposure {
    /// Exposure recorded as two optional subdomains; a public one wins.
    pub fn from_domains(public: Option<String>, private: Option<String>) -> (r: Exposure)
        ensures
            public matches Some(p) ==> r == Exposure::Public(p),
            public is None ==> (private matches Some(q) ==> r == Exposure::Private(q)),
            public is None && private is None ==> r is Unexposed,
    {
        match public {
            Some(p) => Exposure::Public(p),
            None => match private {
                Some(q) => Exposure::Private(q),
                None => Exposure::Unexposed,
            },
        }
    }
}

} // verus!
