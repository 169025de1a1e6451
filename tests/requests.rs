use gws::auth::{AuthData, Credentials, Password};
use gws::error::ApiError;
use gws::requests::{
    CreateGalaxyData, CreatePlanetData, CreateStarData, CreateVariableData, PublicDomain,
    StarStatus, UpdateGalaxyData, UpdatePlanetData, UpdateStarData, UpdateVariableData, WatchQuery,
};

fn fields(r: Result<(), ApiError>) -> Vec<String> {
    match r {
        Ok(()) => Vec::new(),
        Err(ApiError::Validation(f)) => f.into_iter().map(|e| e.field).collect(),
        Err(_) => panic!("not a validation error"),
    }
}

#[test]
fn galaxy_names_must_not_be_empty() {
    assert!(CreateGalaxyData { name: "g".to_string() }.validate().is_ok());
    assert_eq!(fields(CreateGalaxyData { name: String::new() }.validate()), vec!["name"]);
    assert!(UpdateGalaxyData { name: None }.validate().is_ok());
    assert_eq!(fields(UpdateGalaxyData { name: Some(String::new()) }.validate()), vec!["name"]);
}

#[test]
fn star_data_rules() {
    let ok = CreateStarData {
        name: "web".to_string(),
        nebula: "nginx".to_string(),
        public_domain: PublicDomain { subdomain: None },
        port: 65535,
    };
    assert!(ok.validate().is_ok());
    let bad = CreateStarData {
        name: String::new(),
        nebula: String::new(),
        public_domain: PublicDomain { subdomain: Some(String::new()) },
        port: 0,
    };
    assert_eq!(fields(bad.validate()), vec!["name", "nebula", "public_domain", "port"]);
    let high = CreateStarData {
        name: "w".to_string(),
        nebula: "n".to_string(),
        public_domain: PublicDomain { subdomain: Some("foo".to_string()) },
        port: 65536,
    };
    assert_eq!(fields(high.validate()), vec!["port"]);
}

#[test]
fn star_update_rules() {
    let none = UpdateStarData { name: None, nebula: None, public_domain: None, port: None };
    assert!(none.validate().is_ok());
    let bad = UpdateStarData {
        name: None,
        nebula: Some(String::new()),
        public_domain: Some(PublicDomain { subdomain: None }),
        port: Some(-1),
    };
    assert_eq!(fields(bad.validate()), vec!["nebula", "port"]);
}

#[test]
fn watch_only_when_asked() {
    assert!(WatchQuery { watch: Some(true) }.watching());
    assert!(!WatchQuery { watch: Some(false) }.watching());
    assert!(!WatchQuery { watch: None }.watching());
}

#[test]
fn status_from_available_replicas() {
    assert_eq!(StarStatus::from_available(Some(1)), StarStatus::Active);
    assert_eq!(StarStatus::from_available(Some(0)), StarStatus::Active);
    assert_eq!(StarStatus::from_available(None), StarStatus::Failure);
}

#[test]
fn planet_data_rules() {
    let ok = CreatePlanetData { name: "p".to_string(), capacity: 0, path: "/d".to_string(), star: None };
    assert!(ok.validate().is_ok());
    let bad = CreatePlanetData { name: String::new(), capacity: -1, path: String::new(), star: Some(3) };
    assert_eq!(fields(bad.validate()), vec!["name", "capacity", "path"]);
    let update = UpdatePlanetData { name: None, capacity: Some(-5), path: Some("/x".to_string()), star: Some(None) };
    assert_eq!(fields(update.validate()), vec!["capacity"]);
}

#[test]
fn variable_data_rules() {
    assert!(CreateVariableData { name: "K".to_string(), value: "v".to_string() }.validate().is_ok());
    assert_eq!(
        fields(CreateVariableData { name: "K".to_string(), value: String::new() }.validate()),
        vec!["value"]
    );
    assert_eq!(
        fields(UpdateVariableData { name: Some(String::new()), value: None }.validate()),
        vec!["name"]
    );
}

#[test]
fn auth_data_rules() {
    let ok = AuthData { credentials: Credentials::new("a".to_string(), Password::new("b".to_string())), remember: false };
    assert!(ok.validate().is_ok());
    let bad = AuthData { credentials: Credentials::new(String::new(), Password::new(String::new())), remember: true };
    assert_eq!(fields(bad.validate()), vec!["username", "password"]);
}
