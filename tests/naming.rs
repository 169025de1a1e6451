use gws::naming::{
    claim_name, container_name, dns_key, mount_name, namespace_name, policy_name, service_host,
    vars_secret_name, workload_name,
};

const STAR: u128 = 0x67e5504410b1426f9247bb680e5fe0c8;
const GALAXY: u128 = 0x11111111222233334444555555555555;

#[test]
fn names_follow_the_persisted_scheme() {
    assert_eq!(namespace_name(GALAXY), "galaxy-11111111-2222-3333-4444-555555555555");
    assert_eq!(workload_name(STAR), "star-67e55044-10b1-426f-9247-bb680e5fe0c8");
    assert_eq!(vars_secret_name(STAR), "star-67e55044-10b1-426f-9247-bb680e5fe0c8-vars");
    assert_eq!(container_name(STAR), "star-container-67e55044-10b1-426f-9247-bb680e5fe0c8");
    assert_eq!(claim_name(STAR), "planet-67e55044-10b1-426f-9247-bb680e5fe0c8");
    assert_eq!(mount_name(STAR), "planet-volume-67e55044-10b1-426f-9247-bb680e5fe0c8");
    assert_eq!(dns_key(STAR), "star-67e55044-10b1-426f-9247-bb680e5fe0c8.override");
    assert_eq!(policy_name(GALAXY), "net-policy-galaxy-11111111-2222-3333-4444-555555555555");
}

#[test]
fn service_host_joins_workload_and_namespace() {
    assert_eq!(
        service_host(STAR, GALAXY),
        "star-67e55044-10b1-426f-9247-bb680e5fe0c8.galaxy-11111111-2222-3333-4444-555555555555.svc.cluster.local"
    );
}

#[test]
fn zero_id_has_full_width_text() {
    assert_eq!(namespace_name(0), "galaxy-00000000-0000-0000-0000-000000000000");
}

#[test]
fn distinct_ids_have_distinct_names() {
    assert_ne!(namespace_name(GALAXY), namespace_name(GALAXY + 1));
    assert_ne!(dns_key(STAR), dns_key(STAR ^ (1u128 << 127)));
    assert_eq!(namespace_name(u128::MAX), "galaxy-ffffffff-ffff-ffff-ffff-ffffffffffff");
}
