//! Request payloads, and the rules they must meet before the catalog sees them.
use vstd::prelude::*;
use vstd::string::*;
use crate::auth::AuthData;
use crate::error::{ApiError, FieldError, field_names};

verus! {

pub struct CreateGalaxyData {
    pub name: String,
}

pub struct UpdateGalaxyData {
    pub name: Option<String>,
}

/// Subdomain under which a workload is published, if any.
pub struct PublicDomain {
    pub subdomain: Option<String>,
}

pub struct CreateStarData {
    pub name: String,
    /// Image reference.
    pub nebula: String,
    pub public_domain: PublicDomain,
    pub port: i32,
}

pub struct UpdateStarData {
    pub name: Option<String>,
    pub nebula: Option<String>,
    pub public_domain: Option<PublicDomain>,
    pub port: Option<i32>,
}

pub struct CreatePlanetData {
    pub name: String,
    pub capacity: i32,
    pub path: String,
    /// Workload to attach the volume to.
    pub star: Option<u128>,
}

pub struct UpdatePlanetData {
    pub name: Option<String>,
    pub capacity: Option<i32>,
    pub path: Option<String>,
    /// `Some` changes the attachment: to the given workload, or to none.
    pub star: Option<Option<u128>>,
}

pub struct CreateVariableData {
    pub name: String,
    pub value: String,
}

pub struct UpdateVariableData {
    pub name: Option<String>,
    pub value: Option<String>,
}

/// Query of a workload lookup: whether to stream its status.
pub struct WatchQuery {
    pub watch: Option<bool>,
}

/// Availability of a workload's Deployment.
#[derive(Clone, Copy, Debug, PartialEq, Eq, Structural)]
pub enum StarStatus {
    Active,
    Failure,
}

pub open spec fn port_ok(port: i32) -> bool {
    1 <= port <= 65535
}

pub open spec fn text_ok(s: Seq<char>) -> bool {
    s.len() >= 1
}

pub open spec fn subdomain_ok(d: PublicDomain) -> bool {
    match d.subdomain {
        Some(s) => text_ok(s@),
        None => true,
    }
}

pub open spec fn field_if(bad: bool, name: Seq<char>) -> Seq<Seq<char>> {
    if bad {
        seq![name]
    } else {
        Seq::empty()
    }
}

/// Names of the fields that break the rules, in declaration order.
pub open spec fn create_galaxy_failures(d: CreateGalaxyData) -> Seq<Seq<char>> {
    field_if(!text_ok(d.name@), "name"@)
}

pub open spec fn update_galaxy_failures(d: UpdateGalaxyData) -> Seq<Seq<char>> {
    field_if(d.name matches Some(n) && !text_ok(n@), "name"@)
}

pub open spec fn create_star_failures(d: CreateStarData) -> Seq<Seq<char>> {
    field_if(!text_ok(d.name@), "name"@) + field_if(!text_ok(d.nebula@), "nebula"@)
        + field_if(!subdomain_ok(d.public_domain), "public_domain"@)
        + field_if(!port_ok(d.port), "port"@)
}

pub open spec fn update_star_failures(d: UpdateStarData) -> Seq<Seq<char>> {
    field_if(d.name matches Some(n) && !text_ok(n@), "name"@)
        + field_if(d.nebula matches Some(n) && !text_ok(n@), "nebula"@)
        + field_if(d.public_domain matches Some(p) && !subdomain_ok(p), "public_domain"@)
        + field_if(d.port matches Some(p) && !port_ok(p), "port"@)
}

pub open spec fn create_planet_failures(d: CreatePlanetData) -> Seq<Seq<char>> {
    field_if(!text_ok(d.name@), "name"@) + field_if(d.capacity < 0, "capacity"@)
        + field_if(!text_ok(d.path@), "path"@)
}

pub open spec fn update_planet_failures(d: UpdatePlanetData) -> Seq<Seq<char>> {
    field_if(d.name matches Some(n) && !text_ok(n@), "name"@)
        + field_if(d.capacity matches Some(c) && c < 0, "capacity"@)
        + field_if(d.path matches Some(p) && !text_ok(p@), "path"@)
}

pub open spec fn create_variable_failures(d: CreateVariableData) -> Seq<Seq<char>> {
    field_if(!text_ok(d.name@), "name"@) + field_if(!text_ok(d.value@), "value"@)
}

pub open spec fn update_variable_failures(d: UpdateVariableData) -> Seq<Seq<char>> {
    field_if(d.name matches Some(n) && !text_ok(n@), "name"@)
        + field_if(d.value matches Some(v) && !text_ok(v@), "value"@)
}

pub open spec fn auth_failures(d: AuthData) -> Seq<Seq<char>> {
    field_if(!text_ok(d.credentials.username_view()), "username"@)
        + field_if(!text_ok(d.credentials.password()@), "password"@)
}

/// `Ok` when no field failed, else the validation error naming them.
pub open spec fn verdict_matches(r: Result<(), ApiError>, failures: Seq<Seq<char>>) -> bool {
    if failures.len() == 0 {
        r is Ok
    } else {
        r matches Err(ApiError::Validation(f)) && field_names(f@) == failures
    }
}

fn non_empty(s: &String) -> (r: bool)
    ensures
        r == text_ok(s@),
{
    s.as_str().unicode_len() >= 1
}

fn optional_non_empty(s: &Option<String>) -> (r: bool)
    ensures
        r == (s matches Some(n) ==> text_ok(n@)),
{
    match s {
        Some(n) => non_empty(n),
        None => true,
    }
}

fn note(errors: &mut Vec<FieldError>, bad: bool, field: &str, message: &str)
    ensures
        field_names(final(errors)@) == field_names(old(errors)@) + field_if(bad, field@),
{
    let ghost before = field_names(errors@);
    if bad {
        errors.push(FieldError { field: String::from_str(field), message: String::from_str(message) });
    }
    assert(field_names(errors@) =~= before + field_if(bad, field@));
}

fn verdict(errors: Vec<FieldError>) -> (r: Result<(), ApiError>)
    ensures
        verdict_matches(r, field_names(errors@)),
{
    if errors.len() == 0 {
        Ok(())
    } else {
        Err(ApiError::Validation(errors))
    }
}

fn port_in_range(port: i32) -> (r: bool)
    ensures
        r == port_ok(port),
{
    1 <= port && port <= 65535
}

impl CreateGalaxyData {
    pub fn validate(&self) -> (r: Result<(), ApiError>)
        ensures
            verdict_matches(r, create_galaxy_failures(*self)),
    {
        let mut errors: Vec<FieldError> = Vec::new();
        assert(field_names(errors@) =~= Seq::<Seq<char>>::empty());
        note(&mut errors, !non_empty(&self.name), "name", "cannot be empty");
        assert(field_names(errors@) =~= create_galaxy_failures(*self));
        verdict(errors)
    }
}

impl UpdateGalaxyData {
    pub fn validate(&self) -> (r: Result<(), ApiError>)
        ensures
            verdict_matches(r, update_galaxy_failures(*self)),
    {
        let mut errors: Vec<FieldError> = Vec::new();
        assert(field_names(errors@) =~= Seq::<Seq<char>>::empty());
        note(&mut errors, !optional_non_empty(&self.name), "name", "cannot be empty");
        assert(field_names(errors@) =~= update_galaxy_failures(*self));
        verdict(errors)
    }
}

impl PublicDomain {
    pub fn is_valid(&self) -> (r: bool)
        ensures
            r == subdomain_ok(*self),
    {
        optional_non_empty(&self.subdomain)
    }
}

impl CreateStarData {
    pub fn validate(&self) -> (r: Result<(), ApiError>)
        ensures
            verdict_matches(r, create_star_failures(*self)),
    {
        let mut errors: Vec<FieldError> = Vec::new();
        assert(field_names(errors@) =~= Seq::<Seq<char>>::empty());
        note(&mut errors, !non_empty(&self.name), "name", "cannot be empty");
        note(&mut errors, !non_empty(&self.nebula), "nebula", "cannot be empty");
        note(&mut errors, !self.public_domain.is_valid(), "public_domain", "cannot be empty");
        note(&mut errors, !port_in_range(self.port), "port", "must be between 1 and 65535");
        assert(field_names(errors@) =~= create_star_failures(*self));
        verdict(errors)
    }
}

impl UpdateStarData {
    pub fn validate(&self) -> (r: Result<(), ApiError>)
        ensures
            verdict_matches(r, update_star_failures(*self)),
    {
        let mut errors: Vec<FieldError> = Vec::new();
        assert(field_names(errors@) =~= Seq::<Seq<char>>::empty());
        note(&mut errors, !optional_non_empty(&self.name), "name", "cannot be empty");
        note(&mut errors, !optional_non_empty(&self.nebula), "nebula", "cannot be empty");
        let domain_ok = match &self.public_domain {
            Some(d) => d.is_valid(),
            None => true,
        };
        note(&mut errors, !domain_ok, "public_domain", "cannot be empty");
        let port_ok = match self.port {
            Some(p) => port_in_range(p),
            None => true,
        };
        note(&mut errors, !port_ok, "port", "must be between 1 and 65535");
        assert(field_names(errors@) =~= update_star_failures(*self));
        verdict(errors)
    }
}

impl CreatePlanetData {
    pub fn validate(&self) -> (r: Result<(), ApiError>)
        ensures
            verdict_matches(r, create_planet_failures(*self)),
    {
        let mut errors: Vec<FieldError> = Vec::new();
        assert(field_names(errors@) =~= Seq::<Seq<char>>::empty());
        note(&mut errors, !non_empty(&self.name), "name", "cannot be empty");
        note(&mut errors, self.capacity < 0, "capacity", "must be between 0 and 2147483647");
        note(&mut errors, !non_empty(&self.path), "path", "cannot be empty");
        assert(field_names(errors@) =~= create_planet_failures(*self));
        verdict(errors)
    }
}

impl UpdatePlanetData {
    pub fn validate(&self) -> (r: Result<(), ApiError>)
        ensures
            verdict_matches(r, update_planet_failures(*self)),
    {
        let mut errors: Vec<FieldError> = Vec::new();
        assert(field_names(errors@) =~= Seq::<Seq<char>>::empty());
        note(&mut errors, !optional_non_empty(&self.name), "name", "cannot be empty");
        let capacity_bad = match self.capacity {
            Some(c) => c < 0,
            None => false,
        };
        note(&mut errors, capacity_bad, "capacity", "must be between 0 and 2147483647");
        note(&mut errors, !optional_non_empty(&self.path), "path", "cannot be empty");
        assert(field_names(errors@) =~= update_planet_failures(*self));
        verdict(errors)
    }
}

impl CreateVariableData {
    pub fn validate(&self) -> (r: Result<(), ApiError>)
        ensures
            verdict_matches(r, create_variable_failures(*self)),
    {
        let mut errors: Vec<FieldError> = Vec::new();
        assert(field_names(errors@) =~= Seq::<Seq<char>>::empty());
        note(&mut errors, !non_empty(&self.name), "name", "cannot be empty");
        note(&mut errors, !non_empty(&self.value), "value", "cannot be empty");
        assert(field_names(errors@) =~= create_variable_failures(*self));
        verdict(errors)
    }
}

impl UpdateVariableData {
    pub fn validate(&self) -> (r: Result<(), ApiError>)
        ensures
            verdict_matches(r, update_variable_failures(*self)),
    {
        let mut errors: Vec<FieldError> = Vec::new();
        assert(field_names(errors@) =~= Seq::<Seq<char>>::empty());
        note(&mut errors, !optional_non_empty(&self.name), "name", "cannot be empty");
        note(&mut errors, !optional_non_empty(&self.value), "value", "cannot be empty");
        assert(field_names(errors@) =~= update_variable_failures(*self));
        verdict(errors)
    }
}

impl AuthData {
    pub fn validate(&self) -> (r: Result<(), ApiError>)
        ensures
            verdict_matches(r, auth_failures(*self)),
    {
        let mut errors: Vec<FieldError> = Vec::new();
        assert(field_names(errors@) =~= Seq::<Seq<char>>::empty());
        let username_empty = self.credentials.username_ref().unicode_len() == 0;
        note(&mut errors, username_empty, "username", "cannot be empty");
        note(&mut errors, self.credentials.password_ref().is_empty(), "password", "cannot be empty");
        assert(field_names(errors@) =~= auth_failures(*self));
        verdict(errors)
    }
}

impl WatchQuery {
    /// Streaming is asked for only by an explicit `watch=true`.
    pub fn watching(&self) -> (r: bool)
        ensures
            r == (self.watch == Some(true)),
    {
        match self.watch {
            Some(w) => w,
            None => false,
        }
    }
}

impl StarStatus {
    /// A single-replica Deployment is active once it reports available replicas.
    pub fn from_available(available_replicas: Option<i32>) -> (r: StarStatus)
        ensures
            r == if available_replicas is Some { StarStatus::Active } else { StarStatus::Failure },
    {
        match available_replicas {
            Some(_) => StarStatus::Active,
            None => StarStatus::Failure,
        }
    }
}

} // verus!
