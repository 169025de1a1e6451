//! Reconciliation plans: for each entity and each change of it, the ordered
//! cluster actions that bring the cluster in line with the catalog.
//!
//! Objects are created in dependency order (namespace before its children,
//! Secret and claim before the Deployment that references them). Members
//! whose presence depends on a field (Ingress, DNS override, volume mount)
//! are reconciled by presence: the caller probes the cluster and hands the
//! observation in, and the plan creates, replaces or deletes accordingly.
use vstd::prelude::*;
use vstd::string::*;
use crate::manifest::{
    Body, BodyView, ObjectKey, ObjectRef, claim_body, claim_ref, deployment_body, deployment_ref,
    dns_config_ref, dns_rule, ingress_body, ingress_ref, key, mounts_body, namespace_body,
    namespace_ref, pairs_view, policy_body, policy_ref, service_body, service_ref, spec_claim_body,
    spec_claim_ref, spec_deployment_body, spec_deployment_ref, spec_dns_config_ref, spec_dns_rule,
    spec_ingress_body, spec_ingress_ref, spec_mounts_body, spec_namespace_body, spec_namespace_ref,
    spec_policy_body, spec_policy_ref, spec_service_body, spec_service_ref, spec_tls_replica_body,
    spec_tls_replica_ref, spec_vars_secret_body, spec_vars_secret_ref, texts_view, tls_replica_body,
    tls_replica_ref, vars_secret_body, vars_secret_ref,
};
use crate::model::{Exposure, Galaxy, Planet, Star, Variable};
use crate::naming::{dns_key, spec_dns_key};

verus! {

/// One call against the cluster API.
pub enum Action {
    Create(ObjectRef, Body),
    Replace(ObjectRef, Body),
    /// Server-side apply of the given fields.
    Apply(ObjectRef, Body),
    /// Merge patch of a ConfigMap's or Secret's data: a value sets its key,
    /// `None` removes it, other keys are left as they are.
    Merge(ObjectRef, Vec<(String, Option<String>)>),
    Delete(ObjectRef),
    /// Rolling restart of a Deployment.
    Restart(ObjectRef),
}

pub ghost enum ActionView {
    Create(ObjectKey, BodyView),
    Replace(ObjectKey, BodyView),
    Apply(ObjectKey, BodyView),
    Merge(ObjectKey, Seq<(Seq<char>, Option<Seq<char>>)>),
    Delete(ObjectKey),
    Restart(ObjectKey),
}

pub open spec fn option_text_view(o: Option<String>) -> Option<Seq<char>> {
    match o {
        Some(s) => Some(s@),
        None => None,
    }
}

pub open spec fn edits_view(p: Seq<(String, Option<String>)>) -> Seq<(Seq<char>, Option<Seq<char>>)> {
    p.map_values(|e: (String, Option<String>)| (e.0@, option_text_view(e.1)))
}

impl View for Action {
    type V = ActionView;

    open spec fn view(&self) -> ActionView {
        match self {
            Action::Create(r, b) => ActionView::Create(r@, b@),
            Action::Replace(r, b) => ActionView::Replace(r@, b@),
            Action::Apply(r, b) => ActionView::Apply(r@, b@),
            Action::Merge(r, e) => ActionView::Merge(r@, edits_view(e@)),
            Action::Delete(r) => ActionView::Delete(r@),
            Action::Restart(r) => ActionView::Restart(r@),
        }
    }
}

pub open spec fn plan_view(p: Seq<Action>) -> Seq<ActionView> {
    p.map_values(|a: Action| a@)
}

/// What a probe of the cluster found of a tenant's objects.
#[derive(Clone, Copy, Debug, PartialEq, Eq, Structural)]
pub struct TenantPresence {
    pub namespace: bool,
    pub tls_replica: bool,
    pub policy: bool,
}

pub open spec fn when(b: bool, a: ActionView) -> Seq<ActionView> {
    if b {
        seq![a]
    } else {
        Seq::empty()
    }
}

// ---- tenants

pub open spec fn spec_galaxy_create(g: Galaxy) -> Seq<ActionView> {
    seq![
        ActionView::Create(spec_namespace_ref(g.id), spec_namespace_body(g)),
        ActionView::Create(spec_tls_replica_ref(g.id), spec_tls_replica_body()),
        ActionView::Create(spec_policy_ref(g.id), spec_policy_body(g.id)),
    ]
}

pub open spec fn spec_galaxy_update(g: Galaxy) -> Seq<ActionView> {
    seq![ActionView::Replace(spec_namespace_ref(g.id), spec_namespace_body(g))]
}

/// Children go before the namespace; an object the probe did not find is skipped.
pub open spec fn spec_galaxy_delete(g: u128, found: TenantPresence) -> Seq<ActionView> {
    when(found.tls_replica, ActionView::Delete(spec_tls_replica_ref(g)))
        + when(found.policy, ActionView::Delete(spec_policy_ref(g)))
        + when(found.namespace, ActionView::Delete(spec_namespace_ref(g)))
}

pub fn galaxy_create(g: &Galaxy) -> (r: Vec<Action>)
    ensures
        plan_view(r@) == spec_galaxy_create(*g),
{
    let mut r: Vec<Action> = Vec::new();
    r.push(Action::Create(namespace_ref(g.id), namespace_body(g)));
    r.push(Action::Create(tls_replica_ref(g.id), tls_replica_body()));
    r.push(Action::Create(policy_ref(g.id), policy_body(g.id)));
    assert(plan_view(r@) =~= spec_galaxy_create(*g));
    r
}

pub fn galaxy_update(g: &Galaxy) -> (r: Vec<Action>)
    ensures
        plan_view(r@) == spec_galaxy_update(*g),
{
    let mut r: Vec<Action> = Vec::new();
    r.push(Action::Replace(namespace_ref(g.id), namespace_body(g)));
    assert(plan_view(r@) =~= spec_galaxy_update(*g));
    r
}

pub fn galaxy_delete(g: u128, found: TenantPresence) -> (r: Vec<Action>)
    ensures
        plan_view(r@) == spec_galaxy_delete(g, found),
{
    let mut r: Vec<Action> = Vec::new();
    if found.tls_replica {
        r.push(Action::Delete(tls_replica_ref(g)));
    }
    assert(plan_view(r@) =~= when(found.tls_replica, ActionView::Delete(spec_tls_replica_ref(g))));
    let ghost first = plan_view(r@);
    if found.policy {
        r.push(Action::Delete(policy_ref(g)));
    }
    assert(plan_view(r@) =~= first + when(found.policy, ActionView::Delete(spec_policy_ref(g))));
    let ghost second = plan_view(r@);
    if found.namespace {
        r.push(Action::Delete(namespace_ref(g)));
    }
    assert(plan_view(r@) =~= second + when(found.namespace, ActionView::Delete(spec_namespace_ref(g))));
    r
}

// ---- workloads

pub open spec fn spec_dns_set(s: Star, subdomain: Seq<char>) -> ActionView {
    ActionView::Merge(
        spec_dns_config_ref(),
        seq![(spec_dns_key(s.id), Some(spec_dns_rule(subdomain, s.id, s.galaxy_id)))],
    )
}

pub open spec fn spec_dns_unset(star: u128) -> ActionView {
    ActionView::Merge(spec_dns_config_ref(), seq![(spec_dns_key(star), None)])
}

pub open spec fn spec_ingress_create(s: Star) -> Seq<ActionView> {
    match s.exposure {
        Exposure::Public(sub) => seq![
            ActionView::Create(spec_ingress_ref(s.id, s.galaxy_id), spec_ingress_body(s, sub@)),
        ],
        _ => Seq::empty(),
    }
}

pub open spec fn spec_dns_create(s: Star) -> Seq<ActionView> {
    match s.exposure {
        Exposure::Private(sub) => seq![spec_dns_set(s, sub@)],
        _ => Seq::empty(),
    }
}

pub open spec fn spec_star_create(s: Star) -> Seq<ActionView> {
    seq![
        ActionView::Create(spec_vars_secret_ref(s.id, s.galaxy_id), spec_vars_secret_body()),
        ActionView::Create(spec_deployment_ref(s.id, s.galaxy_id), spec_deployment_body(s)),
        ActionView::Create(spec_service_ref(s.id, s.galaxy_id), spec_service_body(s)),
    ] + spec_ingress_create(s) + spec_dns_create(s)
}

/// The Ingress exists iff the workload is public: create it when newly
/// public, replace it while public, delete it when no longer public.
pub open spec fn spec_ingress_reconcile(s: Star, ingress_found: bool) -> Seq<ActionView> {
    match s.exposure {
        Exposure::Public(sub) => if ingress_found {
            seq![ActionView::Replace(spec_ingress_ref(s.id, s.galaxy_id), spec_ingress_body(s, sub@))]
        } else {
            seq![ActionView::Create(spec_ingress_ref(s.id, s.galaxy_id), spec_ingress_body(s, sub@))]
        },
        _ => when(ingress_found, ActionView::Delete(spec_ingress_ref(s.id, s.galaxy_id))),
    }
}

/// The DNS override is set iff the workload is private.
pub open spec fn spec_dns_reconcile(s: Star) -> ActionView {
    match s.exposure {
        Exposure::Private(sub) => spec_dns_set(s, sub@),
        _ => spec_dns_unset(s.id),
    }
}

pub open spec fn spec_star_update(s: Star, ingress_found: bool) -> Seq<ActionView> {
    seq![
        ActionView::Replace(spec_deployment_ref(s.id, s.galaxy_id), spec_deployment_body(s)),
        ActionView::Replace(spec_service_ref(s.id, s.galaxy_id), spec_service_body(s)),
    ] + spec_ingress_reconcile(s, ingress_found) + seq![spec_dns_reconcile(s)]
}

pub open spec fn spec_star_delete(star: u128, g: u128, ingress_found: bool) -> Seq<ActionView> {
    seq![
        ActionView::Delete(spec_vars_secret_ref(star, g)),
        ActionView::Delete(spec_deployment_ref(star, g)),
        ActionView::Delete(spec_service_ref(star, g)),
    ] + when(ingress_found, ActionView::Delete(spec_ingress_ref(star, g))) + seq![spec_dns_unset(star)]
}

fn dns_set(s: &Star, subdomain: &String) -> (r: Action)
    ensures
        r@ == spec_dns_set(*s, subdomain@),
{
    let mut edits: Vec<(String, Option<String>)> = Vec::new();
    edits.push((dns_key(s.id), Some(dns_rule(subdomain, s.id, s.galaxy_id))));
    assert(edits_view(edits@) =~= seq![
        (spec_dns_key(s.id), Some(spec_dns_rule(subdomain@, s.id, s.galaxy_id))),
    ]);
    Action::Merge(dns_config_ref(), edits)
}

fn dns_unset(star: u128) -> (r: Action)
    ensures
        r@ == spec_dns_unset(star),
{
    let mut edits: Vec<(String, Option<String>)> = Vec::new();
    edits.push((dns_key(star), None));
    assert(edits_view(edits@) =~= seq![(spec_dns_key(star), None::<Seq<char>>)]);
    Action::Merge(dns_config_ref(), edits)
}

pub fn star_create(s: &Star) -> (r: Vec<Action>)
    ensures
        plan_view(r@) == spec_star_create(*s),
{
    let mut r: Vec<Action> = Vec::new();
    r.push(Action::Create(vars_secret_ref(s.id, s.galaxy_id), vars_secret_body()));
    r.push(Action::Create(deployment_ref(s.id, s.galaxy_id), deployment_body(s)));
    r.push(Action::Create(service_ref(s.id, s.galaxy_id), service_body(s)));
    let ghost base = plan_view(r@);
    match &s.exposure {
        Exposure::Public(sub) => {
            r.push(Action::Create(ingress_ref(s.id, s.galaxy_id), ingress_body(s, sub)));
        },
        _ => {},
    }
    assert(plan_view(r@) =~= base + spec_ingress_create(*s));
    let ghost with_ingress = plan_view(r@);
    match &s.exposure {
        Exposure::Private(sub) => {
            r.push(dns_set(s, sub));
        },
        _ => {},
    }
    assert(plan_view(r@) =~= with_ingress + spec_dns_create(*s));
    r
}

pub fn star_update(s: &Star, ingress_found: bool) -> (r: Vec<Action>)
    ensures
        plan_view(r@) == spec_star_update(*s, ingress_found),
{
    let mut r: Vec<Action> = Vec::new();
    r.push(Action::Replace(deployment_ref(s.id, s.galaxy_id), deployment_body(s)));
    r.push(Action::Replace(service_ref(s.id, s.galaxy_id), service_body(s)));
    let ghost base = plan_view(r@);
    match &s.exposure {
        Exposure::Public(sub) => {
            if ingress_found {
                r.push(Action::Replace(ingress_ref(s.id, s.galaxy_id), ingress_body(s, sub)));
            } else {
                r.push(Action::Create(ingress_ref(s.id, s.galaxy_id), ingress_body(s, sub)));
            }
        },
        _ => {
            if ingress_found {
                r.push(Action::Delete(ingress_ref(s.id, s.galaxy_id)));
            }
        },
    }
    assert(plan_view(r@) =~= base + spec_ingress_reconcile(*s, ingress_found));
    let ghost with_ingress = plan_view(r@);
    match &s.exposure {
        Exposure::Private(sub) => {
            r.push(dns_set(s, sub));
        },
        _ => {
            r.push(dns_unset(s.id));
        },
    }
    assert(plan_view(r@) =~= with_ingress + seq![spec_dns_reconcile(*s)]);
    r
}

pub fn star_delete(star: u128, g: u128, ingress_found: bool) -> (r: Vec<Action>)
    ensures
        plan_view(r@) == spec_star_delete(star, g, ingress_found),
{
    let mut r: Vec<Action> = Vec::new();
    r.push(Action::Delete(vars_secret_ref(star, g)));
    r.push(Action::Delete(deployment_ref(star, g)));
    r.push(Action::Delete(service_ref(star, g)));
    let ghost base = plan_view(r@);
    if ingress_found {
        r.push(Action::Delete(ingress_ref(star, g)));
    }
    assert(plan_view(r@) =~= base + when(ingress_found, ActionView::Delete(spec_ingress_ref(star, g))));
    let ghost with_ingress = plan_view(r@);
    r.push(dns_unset(star));
    assert(plan_view(r@) =~= with_ingress + seq![spec_dns_unset(star)]);
    r
}

// ---- volumes

pub open spec fn spec_mount_patch(star: u128, g: u128, planet: Option<u128>) -> ActionView {
    ActionView::Apply(spec_deployment_ref(star, g), spec_mounts_body(star, planet))
}

pub open spec fn spec_attach(p: Planet) -> Seq<ActionView> {
    match p.star_id {
        Some(s) => seq![spec_mount_patch(s, p.galaxy_id, Some(p.id))],
        None => Seq::empty(),
    }
}

pub open spec fn spec_planet_create(p: Planet) -> Seq<ActionView> {
    seq![ActionView::Create(spec_claim_ref(p.id, p.galaxy_id), spec_claim_body(p))] + spec_attach(p)
}

/// Detaches from the workload the volume was attached to before, when that changed.
pub open spec fn spec_detach_previous(p: Planet, previous: Option<u128>) -> Seq<ActionView> {
    match previous {
        Some(q) => when(p.star_id != Some(q), spec_mount_patch(q, p.galaxy_id, None)),
        None => Seq::empty(),
    }
}

pub open spec fn spec_planet_update(p: Planet, previous: Option<u128>) -> Seq<ActionView> {
    seq![ActionView::Apply(spec_claim_ref(p.id, p.galaxy_id), spec_claim_body(p))]
        + spec_detach_previous(p, previous) + spec_attach(p)
}

pub open spec fn spec_planet_delete(p: Planet) -> Seq<ActionView> {
    seq![ActionView::Delete(spec_claim_ref(p.id, p.galaxy_id))] + match p.star_id {
        Some(s) => seq![spec_mount_patch(s, p.galaxy_id, None)],
        None => Seq::empty(),
    }
}

fn mount_patch(star: u128, g: u128, planet: Option<u128>) -> (r: Action)
    ensures
        r@ == spec_mount_patch(star, g, planet),
{
    Action::Apply(deployment_ref(star, g), mounts_body(star, planet))
}

pub fn planet_create(p: &Planet) -> (r: Vec<Action>)
    ensures
        plan_view(r@) == spec_planet_create(*p),
{
    let mut r: Vec<Action> = Vec::new();
    r.push(Action::Create(claim_ref(p.id, p.galaxy_id), claim_body(p)));
    let ghost base = plan_view(r@);
    match p.star_id {
        Some(s) => {
            r.push(mount_patch(s, p.galaxy_id, Some(p.id)));
        },
        None => {},
    }
    assert(plan_view(r@) =~= base + spec_attach(*p));
    r
}

/// `previous` is the workload the volume was attached to before the change.
pub fn planet_update(p: &Planet, previous: Option<u128>) -> (r: Vec<Action>)
    ensures
        plan_view(r@) == spec_planet_update(*p, previous),
{
    let mut r: Vec<Action> = Vec::new();
    r.push(Action::Apply(claim_ref(p.id, p.galaxy_id), claim_body(p)));
    let ghost base = plan_view(r@);
    match previous {
        Some(q) => {
            let still = match p.star_id {
                Some(s) => s == q,
                None => false,
            };
            if !still {
                r.push(mount_patch(q, p.galaxy_id, None));
            }
        },
        None => {},
    }
    assert(plan_view(r@) =~= base + spec_detach_previous(*p, previous));
    let ghost detached = plan_view(r@);
    match p.star_id {
        Some(s) => {
            r.push(mount_patch(s, p.galaxy_id, Some(p.id)));
        },
        None => {},
    }
    assert(plan_view(r@) =~= detached + spec_attach(*p));
    r
}

pub fn planet_delete(p: &Planet) -> (r: Vec<Action>)
    ensures
        plan_view(r@) == spec_planet_delete(*p),
{
    let mut r: Vec<Action> = Vec::new();
    r.push(Action::Delete(claim_ref(p.id, p.galaxy_id)));
    let ghost base = plan_view(r@);
    match p.star_id {
        Some(s) => {
            r.push(mount_patch(s, p.galaxy_id, None));
        },
        None => {},
    }
    assert(plan_view(r@) =~= base + match p.star_id {
        Some(s) => seq![spec_mount_patch(s, p.galaxy_id, None)],
        None => Seq::<ActionView>::empty(),
    });
    r
}

// ---- variables

pub open spec fn spec_variable_upsert(v: Variable, g: u128) -> Seq<ActionView> {
    seq![
        ActionView::Apply(
            spec_vars_secret_ref(v.star_id, g),
            BodyView::Secret { entries: seq![(v.name@, v.value@)] },
        ),
        ActionView::Restart(spec_deployment_ref(v.star_id, g)),
    ]
}

/// `keys` are the keys the workload's Secret held, `None` when it held no data.
pub open spec fn spec_variable_delete(v: Variable, g: u128, keys: Option<Seq<Seq<char>>>) -> Seq<ActionView> {
    match keys {
        Some(k) => seq![
            ActionView::Merge(spec_vars_secret_ref(v.star_id, g), seq![(v.name@, None)]),
        ] + when(k.contains(v.name@), ActionView::Restart(spec_deployment_ref(v.star_id, g))),
        None => Seq::empty(),
    }
}

/// Creating and updating a variable both upsert its key and restart the workload.
pub fn variable_upsert(v: &Variable, g: u128) -> (r: Vec<Action>)
    ensures
        plan_view(r@) == spec_variable_upsert(*v, g),
{
    let mut entries: Vec<(String, String)> = Vec::new();
    entries.push((v.name.clone(), v.value.clone()));
    assert(pairs_view(entries@) =~= seq![(v.name@, v.value@)]);
    let mut r: Vec<Action> = Vec::new();
    r.push(Action::Apply(vars_secret_ref(v.star_id, g), Body::Secret { entries }));
    r.push(Action::Restart(deployment_ref(v.star_id, g)));
    assert(plan_view(r@) =~= spec_variable_upsert(*v, g));
    r
}

fn holds_key(keys: &Vec<String>, name: &String) -> (r: bool)
    ensures
        r == texts_view(keys@).contains(name@),
{
    let mut i: usize = 0;
    while i < keys.len()
        invariant
            i <= keys@.len(),
            forall|j: int| 0 <= j < i ==> keys@[j]@ != name@,
        decreases keys@.len() - i,
    {
        if keys[i] == *name {
            assert(texts_view(keys@)[i as int] == name@);
            return true;
        }
        i = i + 1;
    }
    assert forall|j: int| 0 <= j < texts_view(keys@).len() implies texts_view(keys@)[j] != name@ by {
        assert(keys@[j]@ != name@);
    }
    false
}

/// Deleting a variable removes its key, and restarts the workload only if the key was there.
pub fn variable_delete(v: &Variable, g: u128, keys: &Option<Vec<String>>) -> (r: Vec<Action>)
    ensures
        plan_view(r@) == spec_variable_delete(*v, g, match keys {
            Some(k) => Some(texts_view(k@)),
            None => None,
        }),
{
    let mut r: Vec<Action> = Vec::new();
    match keys {
        Some(k) => {
            let mut edits: Vec<(String, Option<String>)> = Vec::new();
            edits.push((v.name.clone(), None));
            assert(edits_view(edits@) =~= seq![(v.name@, None::<Seq<char>>)]);
            r.push(Action::Merge(vars_secret_ref(v.star_id, g), edits));
            let ghost base = plan_view(r@);
            let present = holds_key(k, &v.name);
            if present {
                r.push(Action::Restart(deployment_ref(v.star_id, g)));
            }
            assert(plan_view(r@) =~= base + when(present, ActionView::Restart(spec_deployment_ref(v.star_id, g))));
        },
        None => {
            assert(plan_view(r@) =~= Seq::<ActionView>::empty());
        },
    }
    r
}

} // verus!
