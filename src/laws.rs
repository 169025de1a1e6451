//! Properties of the reconciliation plans, stated over their models.
use vstd::prelude::*;
use crate::manifest::{
    BodyView, Kind, MountView, ObjectKey, spec_deployment_ref,
    spec_dns_config_ref, spec_dns_rule, spec_ingress_body, spec_ingress_ref, spec_mount,
    spec_namespace_ref, spec_policy_ref, spec_public_host, spec_tls_replica_ref,
    spec_workload_selector,
};
use crate::model::{Exposure, Galaxy, Planet, Star};
use crate::naming::{spec_container_name, spec_dns_key, spec_mount_name};
use crate::plan::{
    ActionView, TenantPresence, spec_dns_set, spec_dns_unset, spec_galaxy_create, spec_galaxy_delete,
    spec_planet_create, spec_planet_update, spec_star_create, spec_star_delete, spec_star_update,
};

verus! {

/// The object an action is addressed to.
pub open spec fn target(a: ActionView) -> ObjectKey {
    match a {
        ActionView::Create(k, _) => k,
        ActionView::Replace(k, _) => k,
        ActionView::Apply(k, _) => k,
        ActionView::Merge(k, _) => k,
        ActionView::Delete(k) => k,
        ActionView::Restart(k) => k,
    }
}

/// Number of actions of a plan that satisfy `f`.
pub open spec fn count(plan: Seq<ActionView>, f: spec_fn(ActionView) -> bool) -> nat
    decreases plan.len(),
{
    if plan.len() == 0 {
        0
    } else {
        count(plan.drop_last(), f) + if f(plan.last()) { 1nat } else { 0nat }
    }
}

pub open spec fn on_kind(kind: Kind) -> spec_fn(ActionView) -> bool {
    |a: ActionView| target(a).kind == kind
}

pub open spec fn creates(kind: Kind) -> spec_fn(ActionView) -> bool {
    |a: ActionView| a is Create && target(a).kind == kind
}

pub open spec fn deletes(kind: Kind) -> spec_fn(ActionView) -> bool {
    |a: ActionView| a is Delete && target(a).kind == kind
}

pub open spec fn on_dns() -> spec_fn(ActionView) -> bool {
    |a: ActionView| target(a) == spec_dns_config_ref()
}

pub proof fn lemma_count_concat(a: Seq<ActionView>, b: Seq<ActionView>, f: spec_fn(ActionView) -> bool)
    ensures
        count(a + b, f) == count(a, f) + count(b, f),
    decreases b.len(),
{
    if b.len() == 0 {
        assert(a + b =~= a);
    } else {
        lemma_count_concat(a, b.drop_last(), f);
        assert((a + b).drop_last() =~= a + b.drop_last());
    }
}

pub proof fn lemma_count_one(x: ActionView, f: spec_fn(ActionView) -> bool)
    ensures
        count(seq![x], f) == if f(x) { 1nat } else { 0nat },
{
    reveal_with_fuel(count, 2);
    assert(seq![x].drop_last() =~= Seq::<ActionView>::empty());
}

proof fn lemma_count_three(x: ActionView, y: ActionView, z: ActionView, f: spec_fn(ActionView) -> bool)
    ensures
        count(seq![x, y, z], f) == count(seq![x], f) + count(seq![y], f) + count(seq![z], f),
{
    assert(seq![x, y, z] =~= seq![x] + seq![y] + seq![z]);
    lemma_count_concat(seq![x] + seq![y], seq![z], f);
    lemma_count_concat(seq![x], seq![y], f);
}

/// Creating a workload: with no exposure there is neither Ingress nor DNS
/// entry; a public one gets exactly one Ingress, serving
/// `{subdomain}.localhost`; a private one gets exactly one DNS change, which
/// sets the single key `star-{id}.override`.
pub proof fn lemma_create_exposure(s: Star)
    ensures
        s.exposure is Unexposed ==> count(spec_star_create(s), on_kind(Kind::Ingress)) == 0
            && count(spec_star_create(s), on_dns()) == 0,
        s.exposure matches Exposure::Public(sub) ==> count(spec_star_create(s), on_kind(Kind::Ingress)) == 1
            && count(spec_star_create(s), creates(Kind::Ingress)) == 1
            && count(spec_star_create(s), on_dns()) == 0
            && spec_star_create(s)[3] == ActionView::Create(
                spec_ingress_ref(s.id, s.galaxy_id),
                spec_ingress_body(s, sub@),
            )
            && spec_ingress_body(s, sub@)->Ingress_host == spec_public_host(sub@),
        s.exposure matches Exposure::Private(sub) ==> count(spec_star_create(s), on_kind(Kind::Ingress)) == 0
            && count(spec_star_create(s), on_dns()) == 1
            && spec_star_create(s)[3] == ActionView::Merge(
                spec_dns_config_ref(),
                seq![(spec_dns_key(s.id), Some(spec_dns_rule(sub@, s.id, s.galaxy_id)))],
            ),
{
    let plan = spec_star_create(s);
    let base = seq![plan[0], plan[1], plan[2]];
    let rest = plan.subrange(3, plan.len() as int);
    assert(plan =~= base + rest);
    let fs = seq![on_kind(Kind::Ingress), creates(Kind::Ingress), on_dns()];
    assert forall|i: int| 0 <= i < 3 implies count(base, #[trigger] fs[i]) == 0 by {
        lemma_count_three(plan[0], plan[1], plan[2], fs[i]);
        lemma_count_one(plan[0], fs[i]);
        lemma_count_one(plan[1], fs[i]);
        lemma_count_one(plan[2], fs[i]);
        assert(spec_dns_config_ref().kind == Kind::ConfigMap);
    }
    lemma_count_concat(base, rest, fs[0]);
    lemma_count_concat(base, rest, fs[1]);
    lemma_count_concat(base, rest, fs[2]);
    match s.exposure {
        Exposure::Unexposed => {
            assert(rest =~= Seq::<ActionView>::empty());
        },
        Exposure::Public(sub) => {
            assert(rest =~= seq![plan[3]]);
            lemma_count_one(plan[3], fs[0]);
            lemma_count_one(plan[3], fs[1]);
            lemma_count_one(plan[3], fs[2]);
        },
        Exposure::Private(sub) => {
            assert(rest =~= seq![plan[3]]);
            lemma_count_one(plan[3], fs[0]);
            lemma_count_one(plan[3], fs[2]);
        },
    }
}

/// Updating a workload whose Ingress the probe found, after its exposure
/// left public, deletes that Ingress and touches no other; updating one
/// whose Ingress the probe did not find, after it became public, creates
/// exactly one Ingress.
pub proof fn lemma_update_toggles_ingress(s: Star, ingress_found: bool)
    ensures
        s.exposure !is Public && ingress_found ==> count(spec_star_update(s, ingress_found), on_kind(Kind::Ingress)) == 1
            && count(spec_star_update(s, ingress_found), deletes(Kind::Ingress)) == 1
            && spec_star_update(s, ingress_found)[2] == ActionView::Delete(spec_ingress_ref(s.id, s.galaxy_id)),
        s.exposure !is Public && !ingress_found ==> count(spec_star_update(s, ingress_found), on_kind(Kind::Ingress)) == 0,
        s.exposure is Public && !ingress_found ==> count(spec_star_update(s, ingress_found), on_kind(Kind::Ingress)) == 1
            && count(spec_star_update(s, ingress_found), creates(Kind::Ingress)) == 1,
{
    let plan = spec_star_update(s, ingress_found);
    let fs = seq![on_kind(Kind::Ingress), creates(Kind::Ingress), deletes(Kind::Ingress)];
    let head = seq![plan[0], plan[1]];
    let n = plan.len() as int;
    let mid = plan.subrange(2, n - 1);
    let tail = seq![plan[n - 1]];
    assert(plan =~= head + mid + tail);
    assert(head =~= seq![plan[0]] + seq![plan[1]]);
    assert forall|i: int| 0 <= i < 3 implies count(head, #[trigger] fs[i]) == 0 && count(tail, fs[i]) == 0 by {
        lemma_count_concat(seq![plan[0]], seq![plan[1]], fs[i]);
        lemma_count_one(plan[0], fs[i]);
        lemma_count_one(plan[1], fs[i]);
        lemma_count_one(plan[n - 1], fs[i]);
        assert(spec_dns_config_ref().kind == Kind::ConfigMap);
    }
    lemma_count_concat(head, mid, fs[0]);
    lemma_count_concat(head, mid, fs[1]);
    lemma_count_concat(head, mid, fs[2]);
    lemma_count_concat(head + mid, tail, fs[0]);
    lemma_count_concat(head + mid, tail, fs[1]);
    lemma_count_concat(head + mid, tail, fs[2]);
    if mid.len() == 1 {
        assert(mid =~= seq![plan[2]]);
        lemma_count_one(plan[2], fs[0]);
        lemma_count_one(plan[2], fs[1]);
        lemma_count_one(plan[2], fs[2]);
    } else {
        assert(mid =~= Seq::<ActionView>::empty());
    }
}

/// Deleting a tenant whose objects the probe all found deletes its TLS
/// replica, its NetworkPolicy and its Namespace, children first; once the
/// probe finds none of them, a repeated delete has nothing to do and so
/// nothing that can fail.
pub proof fn lemma_tenant_delete(g: u128)
    ensures
        spec_galaxy_delete(g, TenantPresence { namespace: true, tls_replica: true, policy: true }) == seq![
            ActionView::Delete(spec_tls_replica_ref(g)),
            ActionView::Delete(spec_policy_ref(g)),
            ActionView::Delete(spec_namespace_ref(g)),
        ],
        spec_galaxy_delete(g, TenantPresence { namespace: false, tls_replica: false, policy: false })
            == Seq::<ActionView>::empty(),
{
    assert(spec_galaxy_delete(g, TenantPresence { namespace: true, tls_replica: true, policy: true }) =~= seq![
        ActionView::Delete(spec_tls_replica_ref(g)),
        ActionView::Delete(spec_policy_ref(g)),
        ActionView::Delete(spec_namespace_ref(g)),
    ]);
    assert(spec_galaxy_delete(g, TenantPresence { namespace: false, tls_replica: false, policy: false })
        =~= Seq::<ActionView>::empty());
}

/// Creating a volume attached to workload `w` patches `w`'s Deployment so
/// that its single container mounts `planet-volume-{id}`; updating it to no
/// workload patches the previous workload's Deployment with no volumes and
/// no mounts.
pub proof fn lemma_volume_mounts(p: Planet, w: u128)
    ensures
        p.star_id == Some(w) ==> spec_planet_create(p)[1] == ActionView::Apply(
            spec_deployment_ref(w, p.galaxy_id),
            BodyView::VolumeMounts {
                selector: spec_workload_selector(w),
                container: spec_container_name(w),
                mounts: seq![spec_mount(p.id)],
            },
        ) && spec_mount(p.id).name == spec_mount_name(p.id),
        p.star_id is None ==> spec_planet_update(p, Some(w))[1] == ActionView::Apply(
            spec_deployment_ref(w, p.galaxy_id),
            BodyView::VolumeMounts {
                selector: spec_workload_selector(w),
                container: spec_container_name(w),
                mounts: Seq::<MountView>::empty(),
            },
        ),
{
}

/// Deleting a workload removes every object its creation added, given that
/// the probe finds the Ingress exactly when the workload is public, and
/// unsets the DNS key its creation set.
pub proof fn lemma_delete_covers_create(s: Star)
    ensures
        ({
            let create = spec_star_create(s);
            let delete = spec_star_delete(s.id, s.galaxy_id, s.exposure is Public);
            &&& forall|i: int| 0 <= i < create.len() && #[trigger] create[i] is Create
                ==> exists|j: int| 0 <= j < delete.len() && delete[j] == ActionView::Delete(target(create[i]))
            &&& s.exposure is Private ==> exists|j: int| 0 <= j < delete.len() && delete[j] == spec_dns_unset(s.id)
        }),
{
    let create = spec_star_create(s);
    let delete = spec_star_delete(s.id, s.galaxy_id, s.exposure is Public);
    assert forall|i: int| 0 <= i < create.len() && #[trigger] create[i] is Create
        implies exists|j: int| 0 <= j < delete.len() && delete[j] == ActionView::Delete(target(create[i])) by {
        assert(delete[i] == ActionView::Delete(target(create[i])));
    }
    if s.exposure is Private {
        assert(delete[3] == spec_dns_unset(s.id));
    }
}

/// What a plan leaves in the data of ConfigMap `cm`, which held `data`.
pub open spec fn data_after(plan: Seq<ActionView>, cm: ObjectKey, data: Map<Seq<char>, Seq<char>>) -> Map<Seq<char>, Seq<char>>
    decreases plan.len(),
{
    if plan.len() == 0 {
        data
    } else {
        let before = data_after(plan.drop_last(), cm, data);
        match plan.last() {
            ActionView::Merge(k, edits) => if k == cm {
                merged(before, edits)
            } else {
                before
            },
            _ => before,
        }
    }
}

/// Data after a merge patch: each value sets its key, each `None` removes it.
pub open spec fn merged(data: Map<Seq<char>, Seq<char>>, edits: Seq<(Seq<char>, Option<Seq<char>>)>) -> Map<Seq<char>, Seq<char>>
    decreases edits.len(),
{
    if edits.len() == 0 {
        data
    } else {
        let before = merged(data, edits.drop_last());
        match edits.last().1 {
            Some(v) => before.insert(edits.last().0, v),
            None => before.remove(edits.last().0),
        }
    }
}

proof fn lemma_data_after_concat(a: Seq<ActionView>, b: Seq<ActionView>, cm: ObjectKey, data: Map<Seq<char>, Seq<char>>)
    ensures
        data_after(a + b, cm, data) == data_after(b, cm, data_after(a, cm, data)),
    decreases b.len(),
{
    if b.len() == 0 {
        assert(a + b =~= a);
    } else {
        lemma_data_after_concat(a, b.drop_last(), cm, data);
        assert((a + b).drop_last() =~= a + b.drop_last());
    }
}

proof fn lemma_data_after_untouched(plan: Seq<ActionView>, cm: ObjectKey, data: Map<Seq<char>, Seq<char>>)
    requires
        forall|i: int| 0 <= i < plan.len() ==> !(#[trigger] plan[i] is Merge),
    ensures
        data_after(plan, cm, data) == data,
    decreases plan.len(),
{
    if plan.len() > 0 {
        lemma_data_after_untouched(plan.drop_last(), cm, data);
    }
}

proof fn lemma_data_after_one(a: ActionView, cm: ObjectKey, data: Map<Seq<char>, Seq<char>>)
    ensures
        data_after(seq![a], cm, data) == match a {
            ActionView::Merge(k, edits) => if k == cm { merged(data, edits) } else { data },
            _ => data,
        },
{
    reveal_with_fuel(data_after, 2);
    assert(seq![a].drop_last() =~= Seq::<ActionView>::empty());
}

proof fn lemma_merged_one(data: Map<Seq<char>, Seq<char>>, k: Seq<char>, v: Option<Seq<char>>)
    ensures
        merged(data, seq![(k, v)]) == match v {
            Some(x) => data.insert(k, x),
            None => data.remove(k),
        },
{
    reveal_with_fuel(merged, 2);
    assert(seq![(k, v)].drop_last() =~= Seq::<(Seq<char>, Option<Seq<char>>)>::empty());
}

/// A tenant's creation leaves the shared DNS ConfigMap alone. Creating a
/// private workload `w` of tenant `t` with subdomain `sub` adds the one key
/// `star-{w}.override`, whose rule answers `{sub}.gws.internal` with
/// `star-{w}.galaxy-{t}.svc.cluster.local`; deleting the workload removes
/// exactly that key and leaves every other key, of any tenant, as it was.
pub proof fn lemma_dns_override_lifecycle(
    g: Galaxy,
    s: Star,
    before: Map<Seq<char>, Seq<char>>,
    later: Map<Seq<char>, Seq<char>>,
    ingress_found: bool,
)
    requires
        s.galaxy_id == g.id,
        s.exposure is Private,
    ensures
        data_after(spec_galaxy_create(g), spec_dns_config_ref(), before) == before,
        data_after(spec_star_create(s), spec_dns_config_ref(), before) == before.insert(
            spec_dns_key(s.id),
            spec_dns_rule(s.exposure->Private_0@, s.id, g.id),
        ),
        data_after(spec_star_delete(s.id, g.id, ingress_found), spec_dns_config_ref(), later)
            == later.remove(spec_dns_key(s.id)),
        forall|k: Seq<char>| k != spec_dns_key(s.id) && later.contains_key(k) ==> {
            let after = data_after(spec_star_delete(s.id, g.id, ingress_found), spec_dns_config_ref(), later);
            after.contains_key(k) && after[k] == later[k]
        },
{
    let cm = spec_dns_config_ref();
    let create_tenant = spec_galaxy_create(g);
    lemma_data_after_untouched(create_tenant, cm, before);

    let sub = s.exposure->Private_0@;
    let create = spec_star_create(s);
    let head = create.subrange(0, 3);
    assert(create =~= head + seq![spec_dns_set(s, sub)]);
    lemma_data_after_untouched(head, cm, before);
    lemma_data_after_concat(head, seq![spec_dns_set(s, sub)], cm, before);
    lemma_data_after_one(spec_dns_set(s, sub), cm, before);
    lemma_merged_one(before, spec_dns_key(s.id), Some(spec_dns_rule(sub, s.id, g.id)));

    let delete = spec_star_delete(s.id, g.id, ingress_found);
    let n = delete.len() as int;
    let front = delete.subrange(0, n - 1);
    assert(delete =~= front + seq![delete[n - 1]]);
    lemma_data_after_untouched(front, cm, later);
    lemma_data_after_concat(front, seq![delete[n - 1]], cm, later);
    lemma_data_after_one(delete[n - 1], cm, later);
    lemma_merged_one(later, spec_dns_key(s.id), None);
}

} // verus!
