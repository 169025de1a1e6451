//! Cluster objects described as data, and the resource graph of each entity:
//! the objects that mirror it, computed from its current fields alone.
use vstd::prelude::*;
use vstd::string::*;
use crate::model::{Galaxy, Planet, Star};
use crate::naming::{
    claim_name, container_name, id_text, mount_name, namespace_name, policy_name, service_host,
    spec_claim_name, spec_container_name, spec_mount_name, spec_namespace_name, spec_policy_name,
    spec_service_host, spec_vars_secret_name, spec_workload_name, uuid_text, vars_secret_name,
    workload_name,
};
use crate::text::{decimal_text, lower_text, lowercase, port_text};

verus! {

/// Kinds of cluster object that the control plane manages.
#[derive(Clone, Copy, Debug, PartialEq, Eq, Structural)]
pub enum Kind {
    Namespace,
    Secret,
    NetworkPolicy,
    Deployment,
    Service,
    Ingress,
    ConfigMap,
    PersistentVolumeClaim,
}

/// Address of a cluster object; an empty namespace means cluster scope.
pub struct ObjectRef {
    pub kind: Kind,
    pub namespace: String,
    pub name: String,
}

pub ghost struct ObjectKey {
    pub kind: Kind,
    pub namespace: Seq<char>,
    pub name: Seq<char>,
}

impl View for ObjectRef {
    type V = ObjectKey;

    open spec fn view(&self) -> ObjectKey {
        ObjectKey { kind: self.kind, namespace: self.namespace@, name: self.name@ }
    }
}

pub open spec fn pairs_view(p: Seq<(String, String)>) -> Seq<(Seq<char>, Seq<char>)> {
    p.map_values(|e: (String, String)| (e.0@, e.1@))
}

pub open spec fn texts_view(p: Seq<String>) -> Seq<Seq<char>> {
    p.map_values(|e: String| e@)
}

/// A volume mounted into a container, backed by a claim.
pub struct Mount {
    pub name: String,
    pub path: String,
    pub claim: String,
}

pub ghost struct MountView {
    pub name: Seq<char>,
    pub path: Seq<char>,
    pub claim: Seq<char>,
}

impl View for Mount {
    type V = MountView;

    open spec fn view(&self) -> MountView {
        MountView { name: self.name@, path: self.path@, claim: self.claim@ }
    }
}

pub open spec fn mounts_view(m: Seq<Mount>) -> Seq<MountView> {
    m.map_values(|e: Mount| e@)
}

/// The single container of a workload.
pub struct Container {
    pub name: String,
    pub image: String,
    pub env: Vec<(String, String)>,
    /// Secret whose keys all become environment variables.
    pub env_secret: String,
    pub port: u16,
}

pub ghost struct ContainerView {
    pub name: Seq<char>,
    pub image: Seq<char>,
    pub env: Seq<(Seq<char>, Seq<char>)>,
    pub env_secret: Seq<char>,
    pub port: u16,
}

impl View for Container {
    type V = ContainerView;

    open spec fn view(&self) -> ContainerView {
        ContainerView {
            name: self.name@,
            image: self.image@,
            env: pairs_view(self.env@),
            env_secret: self.env_secret@,
            port: self.port,
        }
    }
}

/// Admits traffic from the namespaces whose label `key` relates to
/// `values` by `operator`.
pub struct NamespaceMatch {
    pub key: String,
    pub operator: String,
    pub values: Vec<String>,
}

pub ghost struct NamespaceMatchView {
    pub key: Seq<char>,
    pub operator: Seq<char>,
    pub values: Seq<Seq<char>>,
}

impl View for NamespaceMatch {
    type V = NamespaceMatchView;

    open spec fn view(&self) -> NamespaceMatchView {
        NamespaceMatchView { key: self.key@, operator: self.operator@, values: texts_view(self.values@) }
    }
}

pub open spec fn matches_view(m: Seq<NamespaceMatch>) -> Seq<NamespaceMatchView> {
    m.map_values(|e: NamespaceMatch| e@)
}

/// What a manifest holds besides its address.
pub enum Body {
    Namespace { labels: Vec<(String, String)> },
    /// A TLS secret filled by replication from a shared source.
    TlsReplica {
        annotations: Vec<(String, String)>,
        secret_type: String,
        data: Vec<(String, String)>,
    },
    /// Applies to the pods whose labels include `pod_selector` (all pods
    /// when empty) and admits ingress only through its rules: one rule per
    /// element of `ingress`, each admitting the namespaces it matches.
    NetworkPolicy { pod_selector: Vec<(String, String)>, ingress: Vec<NamespaceMatch> },
    Secret { entries: Vec<(String, String)> },
    Deployment {
        labels: Vec<(String, String)>,
        selector: Vec<(String, String)>,
        replicas: u32,
        service_links: bool,
        container: Container,
    },
    Service { labels: Vec<(String, String)>, selector: Vec<(String, String)>, port: u16 },
    Ingress {
        labels: Vec<(String, String)>,
        annotations: Vec<(String, String)>,
        host: String,
        path: String,
        path_type: String,
        service: String,
        port: u16,
        tls_secret: String,
    },
    VolumeClaim {
        labels: Vec<(String, String)>,
        access_mode: String,
        storage_class: String,
        storage: String,
    },
    /// The volumes of a Deployment's container; an empty list detaches all.
    VolumeMounts { selector: Vec<(String, String)>, container: String, mounts: Vec<Mount> },
}

pub ghost enum BodyView {
    Namespace { labels: Seq<(Seq<char>, Seq<char>)> },
    TlsReplica {
        annotations: Seq<(Seq<char>, Seq<char>)>,
        secret_type: Seq<char>,
        data: Seq<(Seq<char>, Seq<char>)>,
    },
    NetworkPolicy { pod_selector: Seq<(Seq<char>, Seq<char>)>, ingress: Seq<NamespaceMatchView> },
    Secret { entries: Seq<(Seq<char>, Seq<char>)> },
    Deployment {
        labels: Seq<(Seq<char>, Seq<char>)>,
        selector: Seq<(Seq<char>, Seq<char>)>,
        replicas: u32,
        service_links: bool,
        container: ContainerView,
    },
    Service { labels: Seq<(Seq<char>, Seq<char>)>, selector: Seq<(Seq<char>, Seq<char>)>, port: u16 },
    Ingress {
        labels: Seq<(Seq<char>, Seq<char>)>,
        annotations: Seq<(Seq<char>, Seq<char>)>,
        host: Seq<char>,
        path: Seq<char>,
        path_type: Seq<char>,
        service: Seq<char>,
        port: u16,
        tls_secret: Seq<char>,
    },
    VolumeClaim {
        labels: Seq<(Seq<char>, Seq<char>)>,
        access_mode: Seq<char>,
        storage_class: Seq<char>,
        storage: Seq<char>,
    },
    VolumeMounts {
        selector: Seq<(Seq<char>, Seq<char>)>,
        container: Seq<char>,
        mounts: Seq<MountView>,
    },
}

impl View for Body {
    type V = BodyView;

    open spec fn view(&self) -> BodyView {
        match self {
            Body::Namespace { labels } => BodyView::Namespace { labels: pairs_view(labels@) },
            Body::TlsReplica { annotations, secret_type, data } => BodyView::TlsReplica {
                annotations: pairs_view(annotations@),
                secret_type: secret_type@,
                data: pairs_view(data@),
            },
            Body::NetworkPolicy { pod_selector, ingress } => BodyView::NetworkPolicy {
                pod_selector: pairs_view(pod_selector@),
                ingress: matches_view(ingress@),
            },
            Body::Secret { entries } => BodyView::Secret { entries: pairs_view(entries@) },
            Body::Deployment { labels, selector, replicas, service_links, container } => BodyView::Deployment {
                labels: pairs_view(labels@),
                selector: pairs_view(selector@),
                replicas: *replicas,
                service_links: *service_links,
                container: container@,
            },
            Body::Service { labels, selector, port } => BodyView::Service {
                labels: pairs_view(labels@),
                selector: pairs_view(selector@),
                port: *port,
            },
            Body::Ingress { labels, annotations, host, path, path_type, service, port, tls_secret } => BodyView::Ingress {
                labels: pairs_view(labels@),
                annotations: pairs_view(annotations@),
                host: host@,
                path: path@,
                path_type: path_type@,
                service: service@,
                port: *port,
                tls_secret: tls_secret@,
            },
            Body::VolumeClaim { labels, access_mode, storage_class, storage } => BodyView::VolumeClaim {
                labels: pairs_view(labels@),
                access_mode: access_mode@,
                storage_class: storage_class@,
                storage: storage@,
            },
            Body::VolumeMounts { selector, container, mounts } => BodyView::VolumeMounts {
                selector: pairs_view(selector@),
                container: container@,
                mounts: mounts_view(mounts@),
            },
        }
    }
}

/// Namespace that cluster-wide services live in.
pub open spec fn spec_control_namespace() -> Seq<char> {
    "kube-system"@
}

/// Shared ConfigMap that holds the private DNS overrides of all tenants.
pub open spec fn spec_dns_config_name() -> Seq<char> {
    "coredns-custom"@
}

/// TLS secret that each tenant namespace replicates and each Ingress serves.
pub open spec fn spec_tls_secret_name() -> Seq<char> {
    "stars-tls-secret-replica"@
}

pub open spec fn key(kind: Kind, namespace: Seq<char>, name: Seq<char>) -> ObjectKey {
    ObjectKey { kind, namespace, name }
}

// ---- addresses

pub open spec fn spec_namespace_ref(g: u128) -> ObjectKey {
    key(Kind::Namespace, Seq::empty(), spec_namespace_name(g))
}

pub open spec fn spec_tls_replica_ref(g: u128) -> ObjectKey {
    key(Kind::Secret, spec_namespace_name(g), spec_tls_secret_name())
}

pub open spec fn spec_policy_ref(g: u128) -> ObjectKey {
    key(Kind::NetworkPolicy, spec_namespace_name(g), spec_policy_name(g))
}

pub open spec fn spec_vars_secret_ref(star: u128, g: u128) -> ObjectKey {
    key(Kind::Secret, spec_namespace_name(g), spec_vars_secret_name(star))
}

pub open spec fn spec_deployment_ref(star: u128, g: u128) -> ObjectKey {
    key(Kind::Deployment, spec_namespace_name(g), spec_workload_name(star))
}

pub open spec fn spec_service_ref(star: u128, g: u128) -> ObjectKey {
    key(Kind::Service, spec_namespace_name(g), spec_workload_name(star))
}

pub open spec fn spec_ingress_ref(star: u128, g: u128) -> ObjectKey {
    key(Kind::Ingress, spec_namespace_name(g), spec_workload_name(star))
}

pub open spec fn spec_dns_config_ref() -> ObjectKey {
    key(Kind::ConfigMap, spec_control_namespace(), spec_dns_config_name())
}

pub open spec fn spec_claim_ref(planet: u128, g: u128) -> ObjectKey {
    key(Kind::PersistentVolumeClaim, spec_namespace_name(g), spec_claim_name(planet))
}

fn object_ref(kind: Kind, namespace: String, name: String) -> (r: ObjectRef)
    ensures
        r@ == key(kind, namespace@, name@),
{
    ObjectRef { kind, namespace, name }
}

pub fn namespace_ref(g: u128) -> (r: ObjectRef)
    ensures
        r@ == spec_namespace_ref(g),
{
    object_ref(Kind::Namespace, String::new(), namespace_name(g))
}

pub fn tls_replica_ref(g: u128) -> (r: ObjectRef)
    ensures
        r@ == spec_tls_replica_ref(g),
{
    object_ref(Kind::Secret, namespace_name(g), String::from_str("stars-tls-secret-replica"))
}

pub fn policy_ref(g: u128) -> (r: ObjectRef)
    ensures
        r@ == spec_policy_ref(g),
{
    object_ref(Kind::NetworkPolicy, namespace_name(g), policy_name(g))
}

pub fn vars_secret_ref(star: u128, g: u128) -> (r: ObjectRef)
    ensures
        r@ == spec_vars_secret_ref(star, g),
{
    object_ref(Kind::Secret, namespace_name(g), vars_secret_name(star))
}

pub fn deployment_ref(star: u128, g: u128) -> (r: ObjectRef)
    ensures
        r@ == spec_deployment_ref(star, g),
{
    object_ref(Kind::Deployment, namespace_name(g), workload_name(star))
}

pub fn service_ref(star: u128, g: u128) -> (r: ObjectRef)
    ensures
        r@ == spec_service_ref(star, g),
{
    object_ref(Kind::Service, namespace_name(g), workload_name(star))
}

pub fn ingress_ref(star: u128, g: u128) -> (r: ObjectRef)
    ensures
        r@ == spec_ingress_ref(star, g),
{
    object_ref(Kind::Ingress, namespace_name(g), workload_name(star))
}

pub fn dns_config_ref() -> (r: ObjectRef)
    ensures
        r@ == spec_dns_config_ref(),
{
    object_ref(Kind::ConfigMap, String::from_str("kube-system"), String::from_str("coredns-custom"))
}

pub fn claim_ref(planet: u128, g: u128) -> (r: ObjectRef)
    ensures
        r@ == spec_claim_ref(planet, g),
{
    object_ref(Kind::PersistentVolumeClaim, namespace_name(g), claim_name(planet))
}

// ---- bodies

fn pair(k: &str, v: String) -> (r: (String, String))
    ensures
        r.0@ == k@,
        r.1@ == v@,
{
    (String::from_str(k), v)
}

pub open spec fn spec_namespace_body(g: Galaxy) -> BodyView {
    BodyView::Namespace {
        labels: seq![("name"@, g.name@), ("galaxy_id"@, uuid_text(g.id))],
    }
}

pub fn namespace_body(g: &Galaxy) -> (r: Body)
    ensures
        r@ == spec_namespace_body(*g),
{
    let mut labels: Vec<(String, String)> = Vec::new();
    labels.push(pair("name", g.name.clone()));
    labels.push(pair("galaxy_id", id_text(g.id)));
    assert(pairs_view(labels@) =~= seq![("name"@, g.name@), ("galaxy_id"@, uuid_text(g.id))]);
    Body::Namespace { labels }
}

/// A TLS secret with empty key and certificate, which the replicator fills
/// from the shared source.
pub open spec fn spec_tls_replica_body() -> BodyView {
    BodyView::TlsReplica {
        annotations: seq![
            ("replicator.v1.mittwald.de/replicate-from"@, "cert-manager/stars-src-tls"@),
        ],
        secret_type: "kubernetes.io/tls"@,
        data: seq![("tls.key"@, Seq::empty()), ("tls.crt"@, Seq::empty())],
    }
}

pub fn tls_replica_body() -> (r: Body)
    ensures
        r@ == spec_tls_replica_body(),
{
    let mut annotations: Vec<(String, String)> = Vec::new();
    annotations.push(
        pair(
            "replicator.v1.mittwald.de/replicate-from",
            String::from_str("cert-manager/stars-src-tls"),
        ),
    );
    assert(pairs_view(annotations@) =~= seq![
        ("replicator.v1.mittwald.de/replicate-from"@, "cert-manager/stars-src-tls"@),
    ]);
    let mut data: Vec<(String, String)> = Vec::new();
    data.push(pair("tls.key", String::new()));
    data.push(pair("tls.crt", String::new()));
    assert(pairs_view(data@) =~= seq![("tls.key"@, Seq::<char>::empty()), ("tls.crt"@, Seq::<char>::empty())]);
    Body::TlsReplica { annotations, secret_type: String::from_str("kubernetes.io/tls"), data }
}

/// Every pod of the tenant namespace admits traffic through a single rule:
/// from the namespaces named `kube-system` and `galaxy-{g}`, no others.
pub open spec fn spec_policy_body(g: u128) -> BodyView {
    BodyView::NetworkPolicy {
        pod_selector: Seq::empty(),
        ingress: seq![
            NamespaceMatchView {
                key: "kubernetes.io/metadata.name"@,
                operator: "In"@,
                values: seq![spec_control_namespace(), spec_namespace_name(g)],
            },
        ],
    }
}

pub fn policy_body(g: u128) -> (r: Body)
    ensures
        r@ == spec_policy_body(g),
{
    let mut allowed: Vec<String> = Vec::new();
    allowed.push(String::from_str("kube-system"));
    allowed.push(namespace_name(g));
    assert(texts_view(allowed@) =~= seq![spec_control_namespace(), spec_namespace_name(g)]);
    let rule = NamespaceMatch {
        key: String::from_str("kubernetes.io/metadata.name"),
        operator: String::from_str("In"),
        values: allowed,
    };
    let mut ingress: Vec<NamespaceMatch> = Vec::new();
    ingress.push(rule);
    assert(matches_view(ingress@) =~= seq![
        NamespaceMatchView {
            key: "kubernetes.io/metadata.name"@,
            operator: "In"@,
            values: seq![spec_control_namespace(), spec_namespace_name(g)],
        },
    ]);
    let pod_selector: Vec<(String, String)> = Vec::new();
    assert(pairs_view(pod_selector@) =~= Seq::empty());
    Body::NetworkPolicy { pod_selector, ingress }
}

pub open spec fn spec_workload_labels(s: Star) -> Seq<(Seq<char>, Seq<char>)> {
    seq![
        ("star_name"@, s.name@),
        ("star_id"@, uuid_text(s.id)),
        ("galaxy_id"@, uuid_text(s.galaxy_id)),
    ]
}

fn workload_labels(s: &Star) -> (r: Vec<(String, String)>)
    ensures
        pairs_view(r@) == spec_workload_labels(*s),
{
    let mut labels: Vec<(String, String)> = Vec::new();
    labels.push(pair("star_name", s.name.clone()));
    labels.push(pair("star_id", id_text(s.id)));
    labels.push(pair("galaxy_id", id_text(s.galaxy_id)));
    assert(pairs_view(labels@) =~= spec_workload_labels(*s));
    labels
}

/// Labels that select a workload's pods.
pub open spec fn spec_workload_selector(star: u128) -> Seq<(Seq<char>, Seq<char>)> {
    seq![("star_id"@, uuid_text(star))]
}

fn workload_selector(star: u128) -> (r: Vec<(String, String)>)
    ensures
        pairs_view(r@) == spec_workload_selector(star),
{
    let mut selector: Vec<(String, String)> = Vec::new();
    selector.push(pair("star_id", id_text(star)));
    assert(pairs_view(selector@) =~= spec_workload_selector(star));
    selector
}

pub open spec fn spec_vars_secret_body() -> BodyView {
    BodyView::Secret { entries: Seq::empty() }
}

pub fn vars_secret_body() -> (r: Body)
    ensures
        r@ == spec_vars_secret_body(),
{
    let entries: Vec<(String, String)> = Vec::new();
    assert(pairs_view(entries@) =~= Seq::empty());
    Body::Secret { entries }
}

pub open spec fn spec_deployment_body(s: Star) -> BodyView {
    BodyView::Deployment {
        labels: spec_workload_labels(s),
        selector: spec_workload_selector(s.id),
        replicas: 1,
        service_links: false,
        container: ContainerView {
            name: spec_container_name(s.id),
            image: lower_text(s.nebula@),
            env: seq![("ADDRESS"@, "0.0.0.0"@), ("PORT"@, decimal_text(s.port as nat))],
            env_secret: spec_vars_secret_name(s.id),
            port: s.port,
        },
    }
}

pub fn deployment_body(s: &Star) -> (r: Body)
    ensures
        r@ == spec_deployment_body(*s),
{
    let mut env: Vec<(String, String)> = Vec::new();
    env.push(pair("ADDRESS", String::from_str("0.0.0.0")));
    env.push(pair("PORT", port_text(s.port)));
    assert(pairs_view(env@) =~= seq![("ADDRESS"@, "0.0.0.0"@), ("PORT"@, decimal_text(s.port as nat))]);
    let container = Container {
        name: container_name(s.id),
        image: lowercase(s.nebula.as_str()),
        env,
        env_secret: vars_secret_name(s.id),
        port: s.port,
    };
    Body::Deployment {
        labels: workload_labels(s),
        selector: workload_selector(s.id),
        replicas: 1,
        service_links: false,
        container,
    }
}

pub open spec fn spec_service_body(s: Star) -> BodyView {
    BodyView::Service { labels: spec_workload_labels(s), selector: spec_workload_selector(s.id), port: s.port }
}

pub fn service_body(s: &Star) -> (r: Body)
    ensures
        r@ == spec_service_body(*s),
{
    Body::Service { labels: workload_labels(s), selector: workload_selector(s.id), port: s.port }
}

/// Host under which a public workload is served.
pub open spec fn spec_public_host(subdomain: Seq<char>) -> Seq<char> {
    subdomain + ".localhost"@
}

pub open spec fn spec_ingress_annotations() -> Seq<(Seq<char>, Seq<char>)> {
    seq![
        ("traefik.ingress.kubernetes.io/router.middlewares"@, "default-redirect@kubernetescrd"@),
        ("traefik.ingress.kubernetes.io/router.entrypoints"@, "web, websecure"@),
    ]
}

pub open spec fn spec_ingress_body(s: Star, subdomain: Seq<char>) -> BodyView {
    BodyView::Ingress {
        labels: spec_workload_labels(s),
        annotations: spec_ingress_annotations(),
        host: spec_public_host(subdomain),
        path: "/"@,
        path_type: "Prefix"@,
        service: spec_workload_name(s.id),
        port: s.port,
        tls_secret: spec_tls_secret_name(),
    }
}

pub fn ingress_body(s: &Star, subdomain: &String) -> (r: Body)
    ensures
        r@ == spec_ingress_body(*s, subdomain@),
{
    let mut annotations: Vec<(String, String)> = Vec::new();
    annotations.push(
        pair(
            "traefik.ingress.kubernetes.io/router.middlewares",
            String::from_str("default-redirect@kubernetescrd"),
        ),
    );
    annotations.push(
        pair(
            "traefik.ingress.kubernetes.io/router.entrypoints",
            String::from_str("web, websecure"),
        ),
    );
    assert(pairs_view(annotations@) =~= spec_ingress_annotations());
    let mut host = subdomain.clone();
    host.append(".localhost");
    Body::Ingress {
        labels: workload_labels(s),
        annotations,
        host,
        path: String::from_str("/"),
        path_type: String::from_str("Prefix"),
        service: workload_name(s.id),
        port: s.port,
        tls_secret: String::from_str("stars-tls-secret-replica"),
    }
}

/// Domain under which a private workload is resolvable inside the cluster.
pub open spec fn spec_private_domain(subdomain: Seq<char>) -> Seq<char> {
    subdomain + ".gws.internal"@
}

/// CoreDNS rule that answers the private domain with the workload's Service.
pub open spec fn spec_dns_rule(subdomain: Seq<char>, star: u128, g: u128) -> Seq<char> {
    "template IN ANY "@ + spec_private_domain(subdomain) + " {\n  match \"^"@ + subdomain
        + "\\.gws\\.internal\\.$\"\n  answer \"{{ .Name }} 60 IN CNAME "@
        + spec_service_host(star, g) + ".\"\n}"@
}

pub fn dns_rule(subdomain: &String, star: u128, g: u128) -> (r: String)
    ensures
        r@ == spec_dns_rule(subdomain@, star, g),
{
    let host = service_host(star, g);
    let mut r = String::from_str("template IN ANY ");
    r.append(subdomain.as_str());
    r.append(".gws.internal");
    r.append(" {\n  match \"^");
    r.append(subdomain.as_str());
    r.append("\\.gws\\.internal\\.$\"\n  answer \"{{ .Name }} 60 IN CNAME ");
    r.append(host.as_str());
    r.append(".\"\n}");
    assert(r@ =~= spec_dns_rule(subdomain@, star, g));
    r
}

pub open spec fn spec_claim_labels(p: Planet) -> Seq<(Seq<char>, Seq<char>)> {
    seq![("planet_id"@, uuid_text(p.id)), ("galaxy_id"@, uuid_text(p.galaxy_id))]
}

pub open spec fn spec_claim_body(p: Planet) -> BodyView {
    BodyView::VolumeClaim {
        labels: spec_claim_labels(p),
        access_mode: "ReadWriteOnce"@,
        storage_class: "local-path"@,
        storage: "1G"@,
    }
}

pub fn claim_body(p: &Planet) -> (r: Body)
    ensures
        r@ == spec_claim_body(*p),
{
    let mut labels: Vec<(String, String)> = Vec::new();
    labels.push(pair("planet_id", id_text(p.id)));
    labels.push(pair("galaxy_id", id_text(p.galaxy_id)));
    assert(pairs_view(labels@) =~= spec_claim_labels(*p));
    Body::VolumeClaim {
        labels,
        access_mode: String::from_str("ReadWriteOnce"),
        storage_class: String::from_str("local-path"),
        storage: String::from_str("1G"),
    }
}

pub open spec fn spec_mount(planet: u128) -> MountView {
    MountView { name: spec_mount_name(planet), path: "/data"@, claim: spec_claim_name(planet) }
}

/// Patch of workload `star`'s Deployment that mounts the given volume, or none.
pub open spec fn spec_mounts_body(star: u128, planet: Option<u128>) -> BodyView {
    BodyView::VolumeMounts {
        selector: spec_workload_selector(star),
        container: spec_container_name(star),
        mounts: match planet {
            Some(p) => seq![spec_mount(p)],
            None => Seq::empty(),
        },
    }
}

pub fn mounts_body(star: u128, planet: Option<u128>) -> (r: Body)
    ensures
        r@ == spec_mounts_body(star, planet),
{
    let mut mounts: Vec<Mount> = Vec::new();
    match planet {
        Some(p) => {
            mounts.push(Mount { name: mount_name(p), path: String::from_str("/data"), claim: claim_name(p) });
        },
        None => {},
    }
    assert(mounts_view(mounts@) =~= match planet {
        Some(p) => seq![spec_mount(p)],
        None => Seq::<MountView>::empty(),
    });
    Body::VolumeMounts { selector: workload_selector(star), container: container_name(star), mounts }
}

} // verus!
