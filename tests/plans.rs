use gws::manifest::{Body, Kind, ObjectRef};
use gws::model::{Exposure, Galaxy, Planet, Star, Variable};
use gws::plan::{
    galaxy_create, galaxy_delete, galaxy_update, planet_create, planet_delete, planet_update,
    star_create, star_delete, star_update, variable_delete, variable_upsert, Action,
    TenantPresence,
};

const STAR: u128 = 0x67e5504410b1426f9247bb680e5fe0c8;
const GALAXY: u128 = 0x11111111222233334444555555555555;
const OTHER_STAR: u128 = 0x0a0b0c0d0e0f00010203040506070809;
const PLANET: u128 = 0xfedcba98765432100123456789abcdef;
const STAR_TEXT: &str = "67e55044-10b1-426f-9247-bb680e5fe0c8";
const GALAXY_TEXT: &str = "11111111-2222-3333-4444-555555555555";
const PLANET_TEXT: &str = "fedcba98-7654-3210-0123-456789abcdef";

fn galaxy() -> Galaxy {
    Galaxy { id: GALAXY, name: "home".to_string(), user_id: 7 }
}

fn star(exposure: Exposure) -> Star {
    Star {
        id: STAR,
        name: "web".to_string(),
        nebula: "Docker.io/Library/NGINX:Latest".to_string(),
        exposure,
        port: 8080,
        galaxy_id: GALAXY,
    }
}

fn planet(star_id: Option<u128>) -> Planet {
    Planet {
        id: PLANET,
        name: "data".to_string(),
        capacity: 10,
        path: "/data".to_string(),
        star_id,
        galaxy_id: GALAXY,
    }
}

fn target(a: &Action) -> &ObjectRef {
    match a {
        Action::Create(r, _) => r,
        Action::Replace(r, _) => r,
        Action::Apply(r, _) => r,
        Action::Merge(r, _) => r,
        Action::Delete(r) => r,
        Action::Restart(r) => r,
    }
}

fn count(plan: &[Action], f: impl Fn(&Action) -> bool) -> usize {
    plan.iter().filter(|a| f(a)).count()
}

fn on_kind(plan: &[Action], kind: Kind) -> usize {
    count(plan, |a| target(a).kind == kind)
}

fn on_dns(plan: &[Action]) -> usize {
    count(plan, |a| {
        let t = target(a);
        t.kind == Kind::ConfigMap && t.namespace == "kube-system" && t.name == "coredns-custom"
    })
}

fn ns() -> String {
    format!("galaxy-{GALAXY_TEXT}")
}

#[test]
fn tenant_create_applies_namespace_then_children() {
    let plan = galaxy_create(&galaxy());
    assert_eq!(plan.len(), 3);
    match &plan[0] {
        Action::Create(r, Body::Namespace { labels }) => {
            assert_eq!(r.kind, Kind::Namespace);
            assert_eq!(r.namespace, "");
            assert_eq!(r.name, ns());
            assert_eq!(labels[0], ("name".to_string(), "home".to_string()));
            assert_eq!(labels[1], ("galaxy_id".to_string(), GALAXY_TEXT.to_string()));
        }
        _ => panic!("namespace first"),
    }
    match &plan[1] {
        Action::Create(r, Body::TlsReplica { annotations, secret_type, data }) => {
            assert_eq!(r.kind, Kind::Secret);
            assert_eq!(r.namespace, ns());
            assert_eq!(r.name, "stars-tls-secret-replica");
            assert_eq!(annotations[0].1, "cert-manager/stars-src-tls");
            assert_eq!(secret_type, "kubernetes.io/tls");
            assert_eq!(
                data,
                &vec![("tls.key".to_string(), String::new()), ("tls.crt".to_string(), String::new())]
            );
        }
        _ => panic!("tls replica second"),
    }
    match &plan[2] {
        Action::Create(r, Body::NetworkPolicy { pod_selector, ingress }) => {
            assert_eq!(r.name, format!("net-policy-galaxy-{GALAXY_TEXT}"));
            assert!(pod_selector.is_empty());
            assert_eq!(ingress.len(), 1);
            assert_eq!(ingress[0].key, "kubernetes.io/metadata.name");
            assert_eq!(ingress[0].operator, "In");
            assert_eq!(ingress[0].values, vec!["kube-system".to_string(), ns()]);
        }
        _ => panic!("policy third"),
    }
    assert_eq!(on_dns(&plan), 0);
}

#[test]
fn tenant_update_replaces_namespace() {
    let plan = galaxy_update(&galaxy());
    assert_eq!(plan.len(), 1);
    assert!(matches!(&plan[0], Action::Replace(r, Body::Namespace { .. }) if r.name == ns()));
}

#[test]
fn tenant_delete_removes_all_then_nothing_once_absent() {
    let all = TenantPresence { namespace: true, tls_replica: true, policy: true };
    let plan = galaxy_delete(GALAXY, all);
    assert_eq!(plan.len(), 3);
    assert!(matches!(&plan[0], Action::Delete(r) if r.kind == Kind::Secret && r.name == "stars-tls-secret-replica"));
    assert!(matches!(&plan[1], Action::Delete(r) if r.kind == Kind::NetworkPolicy));
    assert!(matches!(&plan[2], Action::Delete(r) if r.kind == Kind::Namespace && r.name == ns()));
    let none = TenantPresence { namespace: false, tls_replica: false, policy: false };
    assert!(galaxy_delete(GALAXY, none).is_empty());
    let partial = TenantPresence { namespace: true, tls_replica: false, policy: false };
    let plan = galaxy_delete(GALAXY, partial);
    assert_eq!(plan.len(), 1);
    assert!(matches!(&plan[0], Action::Delete(r) if r.kind == Kind::Namespace));
}

#[test]
fn workload_create_without_exposure_has_no_ingress_nor_dns() {
    let plan = star_create(&star(Exposure::Unexposed));
    assert_eq!(plan.len(), 3);
    assert_eq!(on_kind(&plan, Kind::Ingress), 0);
    assert_eq!(on_dns(&plan), 0);
}

#[test]
fn workload_create_orders_secret_before_deployment() {
    let plan = star_create(&star(Exposure::Unexposed));
    match &plan[0] {
        Action::Create(r, Body::Secret { entries }) => {
            assert_eq!(r.name, format!("star-{STAR_TEXT}-vars"));
            assert!(entries.is_empty());
        }
        _ => panic!("vars secret first"),
    }
    match &plan[1] {
        Action::Create(r, Body::Deployment { labels, selector, replicas, service_links, container }) => {
            assert_eq!(*replicas, 1);
            assert!(!*service_links);
            assert_eq!(r.kind, Kind::Deployment);
            assert_eq!(r.name, format!("star-{STAR_TEXT}"));
            assert_eq!(r.namespace, ns());
            assert_eq!(labels.len(), 3);
            assert_eq!(labels[0], ("star_name".to_string(), "web".to_string()));
            assert_eq!(selector, &vec![("star_id".to_string(), STAR_TEXT.to_string())]);
            assert_eq!(container.name, format!("star-container-{STAR_TEXT}"));
            assert_eq!(container.image, "docker.io/library/nginx:latest");
            assert_eq!(container.env[0], ("ADDRESS".to_string(), "0.0.0.0".to_string()));
            assert_eq!(container.env[1], ("PORT".to_string(), "8080".to_string()));
            assert_eq!(container.env_secret, format!("star-{STAR_TEXT}-vars"));
            assert_eq!(container.port, 8080);
        }
        _ => panic!("deployment second"),
    }
    match &plan[2] {
        Action::Create(r, Body::Service { selector, port, .. }) => {
            assert_eq!(r.kind, Kind::Service);
            assert_eq!(selector, &vec![("star_id".to_string(), STAR_TEXT.to_string())]);
            assert_eq!(*port, 8080);
        }
        _ => panic!("service third"),
    }
}

#[test]
fn workload_create_public_has_one_ingress() {
    let plan = star_create(&star(Exposure::Public("foo".to_string())));
    assert_eq!(plan.len(), 4);
    assert_eq!(on_kind(&plan, Kind::Ingress), 1);
    assert_eq!(on_dns(&plan), 0);
    match &plan[3] {
        Action::Create(r, Body::Ingress { host, path, path_type, service, port, tls_secret, .. }) => {
            assert_eq!(r.name, format!("star-{STAR_TEXT}"));
            assert_eq!(host, "foo.localhost");
            assert_eq!(path, "/");
            assert_eq!(path_type, "Prefix");
            assert_eq!(service, &format!("star-{STAR_TEXT}"));
            assert_eq!(*port, 8080);
            assert_eq!(tls_secret, "stars-tls-secret-replica");
        }
        _ => panic!("ingress last"),
    }
}

#[test]
fn workload_create_private_sets_one_dns_key() {
    let plan = star_create(&star(Exposure::Private("foo".to_string())));
    assert_eq!(plan.len(), 4);
    assert_eq!(on_kind(&plan, Kind::Ingress), 0);
    assert_eq!(on_dns(&plan), 1);
    match &plan[3] {
        Action::Merge(_, edits) => {
            assert_eq!(edits.len(), 1);
            assert_eq!(edits[0].0, format!("star-{STAR_TEXT}.override"));
            assert!(edits[0].1.is_some());
        }
        _ => panic!("dns merge last"),
    }
}

#[test]
fn workload_update_public_to_none_deletes_ingress() {
    let plan = star_update(&star(Exposure::Unexposed), true);
    assert_eq!(on_kind(&plan, Kind::Ingress), 1);
    assert!(matches!(&plan[2], Action::Delete(r) if r.kind == Kind::Ingress && r.name == format!("star-{STAR_TEXT}")));
    match plan.last().unwrap() {
        Action::Merge(_, edits) => assert_eq!(edits[0], (format!("star-{STAR_TEXT}.override"), None)),
        _ => panic!("dns removal last"),
    }
}

#[test]
fn workload_update_none_to_public_creates_one_ingress() {
    let plan = star_update(&star(Exposure::Public("foo".to_string())), false);
    assert_eq!(on_kind(&plan, Kind::Ingress), 1);
    assert_eq!(count(&plan, |a| matches!(a, Action::Create(r, _) if r.kind == Kind::Ingress)), 1);
}

#[test]
fn workload_update_still_public_replaces_ingress() {
    let plan = star_update(&star(Exposure::Public("bar".to_string())), true);
    assert!(matches!(&plan[2], Action::Replace(_, Body::Ingress { host, .. }) if host == "bar.localhost"));
    let plan = star_update(&star(Exposure::Unexposed), false);
    assert_eq!(on_kind(&plan, Kind::Ingress), 0);
    assert_eq!(plan.len(), 3);
}

#[test]
fn workload_delete_probes_ingress() {
    let plan = star_delete(STAR, GALAXY, false);
    assert_eq!(plan.len(), 4);
    assert_eq!(on_kind(&plan, Kind::Ingress), 0);
    let plan = star_delete(STAR, GALAXY, true);
    assert_eq!(plan.len(), 5);
    assert!(matches!(&plan[0], Action::Delete(r) if r.name == format!("star-{STAR_TEXT}-vars")));
    assert!(matches!(&plan[3], Action::Delete(r) if r.kind == Kind::Ingress));
}

#[test]
fn volume_create_attached_mounts_into_workload() {
    let plan = planet_create(&planet(Some(STAR)));
    assert_eq!(plan.len(), 2);
    match &plan[0] {
        Action::Create(r, Body::VolumeClaim { access_mode, storage_class, storage, .. }) => {
            assert_eq!(r.name, format!("planet-{PLANET_TEXT}"));
            assert_eq!(access_mode, "ReadWriteOnce");
            assert_eq!(storage_class, "local-path");
            assert_eq!(storage, "1G");
        }
        _ => panic!("claim first"),
    }
    match &plan[1] {
        Action::Apply(r, Body::VolumeMounts { selector, container, mounts }) => {
            assert_eq!(r.kind, Kind::Deployment);
            assert_eq!(r.name, format!("star-{STAR_TEXT}"));
            assert_eq!(selector, &vec![("star_id".to_string(), STAR_TEXT.to_string())]);
            assert_eq!(container, &format!("star-container-{STAR_TEXT}"));
            assert_eq!(mounts.len(), 1);
            assert_eq!(mounts[0].name, format!("planet-volume-{PLANET_TEXT}"));
            assert_eq!(mounts[0].path, "/data");
            assert_eq!(mounts[0].claim, format!("planet-{PLANET_TEXT}"));
        }
        _ => panic!("mount patch second"),
    }
    assert_eq!(planet_create(&planet(None)).len(), 1);
}

#[test]
fn volume_detach_clears_mounts_of_previous_workload() {
    let plan = planet_update(&planet(None), Some(STAR));
    assert_eq!(plan.len(), 2);
    assert!(matches!(&plan[0], Action::Apply(_, Body::VolumeClaim { .. })));
    match &plan[1] {
        Action::Apply(r, Body::VolumeMounts { mounts, .. }) => {
            assert_eq!(r.name, format!("star-{STAR_TEXT}"));
            assert!(mounts.is_empty());
        }
        _ => panic!("clearing patch"),
    }
}

#[test]
fn volume_moved_between_workloads() {
    let plan = planet_update(&planet(Some(OTHER_STAR)), Some(STAR));
    assert_eq!(plan.len(), 3);
    assert!(matches!(&plan[1], Action::Apply(r, Body::VolumeMounts { mounts, .. }) if r.name == format!("star-{STAR_TEXT}") && mounts.is_empty()));
    assert!(matches!(&plan[2], Action::Apply(_, Body::VolumeMounts { mounts, .. }) if mounts.len() == 1));
    let plan = planet_update(&planet(Some(STAR)), Some(STAR));
    assert_eq!(plan.len(), 2);
    assert!(matches!(&plan[1], Action::Apply(_, Body::VolumeMounts { mounts, .. }) if mounts.len() == 1));
}

#[test]
fn volume_delete_detaches() {
    let plan = planet_delete(&planet(Some(STAR)));
    assert_eq!(plan.len(), 2);
    assert!(matches!(&plan[0], Action::Delete(r) if r.kind == Kind::PersistentVolumeClaim));
    assert!(matches!(&plan[1], Action::Apply(_, Body::VolumeMounts { mounts, .. }) if mounts.is_empty()));
    assert_eq!(planet_delete(&planet(None)).len(), 1);
}

#[test]
fn variable_upsert_patches_secret_and_restarts() {
    let v = Variable { id: 1, name: "KEY".to_string(), value: "v1".to_string(), star_id: STAR };
    let plan = variable_upsert(&v, GALAXY);
    assert_eq!(plan.len(), 2);
    match &plan[0] {
        Action::Apply(r, Body::Secret { entries }) => {
            assert_eq!(r.name, format!("star-{STAR_TEXT}-vars"));
            assert_eq!(entries, &vec![("KEY".to_string(), "v1".to_string())]);
        }
        _ => panic!("secret patch"),
    }
    assert!(matches!(&plan[1], Action::Restart(r) if r.kind == Kind::Deployment && r.name == format!("star-{STAR_TEXT}")));
}

#[test]
fn variable_delete_restarts_only_if_key_existed() {
    let v = Variable { id: 1, name: "KEY".to_string(), value: "v1".to_string(), star_id: STAR };
    let present = Some(vec!["OTHER".to_string(), "KEY".to_string()]);
    let plan = variable_delete(&v, GALAXY, &present);
    assert_eq!(plan.len(), 2);
    assert!(matches!(&plan[0], Action::Merge(_, edits) if edits == &vec![("KEY".to_string(), None)]));
    assert!(matches!(&plan[1], Action::Restart(_)));
    let absent = Some(vec!["OTHER".to_string()]);
    assert_eq!(variable_delete(&v, GALAXY, &absent).len(), 1);
    assert!(variable_delete(&v, GALAXY, &None).is_empty());
}

#[test]
fn private_workload_dns_lifecycle() {
    let tenant = galaxy();
    let tenant_plan = galaxy_create(&tenant);
    assert_eq!(on_dns(&tenant_plan), 0);
    let w = star(Exposure::Private("foo".to_string()));
    let plan = star_create(&w);
    let key = format!("star-{STAR_TEXT}.override");
    let host = format!("star-{STAR_TEXT}.galaxy-{GALAXY_TEXT}.svc.cluster.local");
    match &plan[3] {
        Action::Merge(r, edits) => {
            assert_eq!(r.kind, Kind::ConfigMap);
            assert_eq!(r.namespace, "kube-system");
            assert_eq!(r.name, "coredns-custom");
            assert_eq!(edits.len(), 1);
            assert_eq!(edits[0].0, key);
            let rule = edits[0].1.clone().unwrap();
            assert_eq!(
                rule,
                format!(
                    "template IN ANY foo.gws.internal {{\n  match \"^foo\\.gws\\.internal\\.$\"\n  answer \"{{{{ .Name }}}} 60 IN CNAME {host}.\"\n}}"
                )
            );
        }
        _ => panic!("dns merge"),
    }
    let plan = star_delete(STAR, GALAXY, false);
    let merges: Vec<&Action> = plan.iter().filter(|a| matches!(a, Action::Merge(..))).collect();
    assert_eq!(merges.len(), 1);
    match merges[0] {
        Action::Merge(r, edits) => {
            assert_eq!(r.name, "coredns-custom");
            assert_eq!(edits, &vec![(key, None)]);
        }
        _ => unreachable!(),
    }
}
