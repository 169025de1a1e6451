//! Names of the cluster objects that mirror catalog entities.
//!
//! Every name is derived from an entity id alone, so the same entity always
//! maps to the same objects, whichever request computes them.
use vstd::prelude::*;
use vstd::string::*;
use vstd::arithmetic::div_mod::{lemma_div_denominator, lemma_fundamental_div_mod};
use crate::text::{hex_digit, lemma_hex_digit_injective};

verus! {

/// `16` to the power `n`.
pub open spec fn pow16(n: nat) -> nat
    decreases n,
{
    if n == 0 {
        1
    } else {
        16 * pow16((n - 1) as nat)
    }
}

/// Hex digit `k` of a number, counted from the least significant.
pub open spec fn digit(x: nat, k: nat) -> nat {
    (x / pow16(k)) % 16
}

/// Hyphens stand at these places of a UUID's text.
pub open spec fn is_hyphen_at(j: int) -> bool {
    j == 8 || j == 13 || j == 18 || j == 23
}

/// Which of the 32 hex digits, from the most significant, stands at place `j` of the text.
pub open spec fn digit_index(j: int) -> int {
    if j < 8 {
        j
    } else if j < 13 {
        j - 1
    } else if j < 18 {
        j - 2
    } else if j < 23 {
        j - 3
    } else {
        j - 4
    }
}

/// The hyphenated, lower-case text of a UUID given by its 128-bit value: the
/// 32 hex digits of its big-endian bytes, in groups of 8, 4, 4, 4 and 12.
pub open spec fn uuid_text(id: u128) -> Seq<char> {
    Seq::new(
        36,
        |j: int|
            if is_hyphen_at(j) {
                '-'
            } else {
                hex_digit(digit(id as nat, (31 - digit_index(j)) as nat) as u8)
            },
    )
}

proof fn lemma_pow16_positive(n: nat)
    ensures
        pow16(n) > 0,
    decreases n,
{
    if n > 0 {
        lemma_pow16_positive((n - 1) as nat);
    }
}

/// A number below `16^n` is fixed by its `n` lowest hex digits.
proof fn lemma_digits_determine(x: nat, y: nat, n: nat)
    requires
        x < pow16(n),
        y < pow16(n),
        forall|k: nat| k < n ==> #[trigger] digit(x, k) == digit(y, k),
    ensures
        x == y,
    decreases n,
{
    if n > 0 {
        let m = (n - 1) as nat;
        lemma_pow16_positive(m);
        let x1 = x / 16;
        let y1 = y / 16;
        assert(x1 < pow16(m)) by (nonlinear_arith)
            requires
                x < 16 * pow16(m),
                x1 == x / 16,
        ;
        assert(y1 < pow16(m)) by (nonlinear_arith)
            requires
                y < 16 * pow16(m),
                y1 == y / 16,
        ;
        assert forall|k: nat| k < m implies #[trigger] digit(x1, k) == digit(y1, k) by {
            lemma_pow16_positive(k);
            lemma_div_denominator(x as int, 16, pow16(k) as int);
            lemma_div_denominator(y as int, 16, pow16(k) as int);
            assert(pow16(k + 1) == 16 * pow16(k));
            assert(digit(x, k + 1) == digit(y, k + 1));
        }
        lemma_digits_determine(x1, y1, m);
        assert(digit(x, 0) == digit(y, 0));
        assert(pow16(0) == 1);
        assert(x / 1 == x && y / 1 == y);
        assert(x % 16 == y % 16);
        lemma_fundamental_div_mod(x as int, 16);
        lemma_fundamental_div_mod(y as int, 16);
        assert(x == 16 * x1 + x % 16);
        assert(y == 16 * y1 + y % 16);
    }
}

/// Distinct ids have distinct texts.
pub proof fn lemma_uuid_text_injective(a: u128, b: u128)
    requires
        uuid_text(a) == uuid_text(b),
    ensures
        a == b,
{
    assert forall|k: nat| k < 32 implies #[trigger] digit(a as nat, k) == digit(b as nat, k) by {
        let i = 31 - k;
        let j = if i < 8 {
            i
        } else if i < 12 {
            i + 1
        } else if i < 16 {
            i + 2
        } else if i < 20 {
            i + 3
        } else {
            i + 4
        };
        assert(0 <= j < 36 && !is_hyphen_at(j) && digit_index(j) == i);
        assert((31 - digit_index(j)) as nat == k);
        assert(uuid_text(a)[j] == hex_digit(digit(a as nat, k) as u8));
        assert(uuid_text(b)[j] == hex_digit(digit(b as nat, k) as u8));
        assert(digit(a as nat, k) < 16 && digit(b as nat, k) < 16);
        lemma_hex_digit_injective(digit(a as nat, k) as u8, digit(b as nat, k) as u8);
    }
    reveal_with_fuel(pow16, 33);
    assert(pow16(32) == 0x1_0000_0000_0000_0000_0000_0000_0000_0000nat);
    lemma_digits_determine(a as nat, b as nat, 32);
}

/// Distinct tenants get distinct namespaces and policies; distinct
/// workloads get distinct object names and DNS keys; distinct volumes get
/// distinct claims and mounts.
pub proof fn lemma_distinct_names(a: u128, b: u128)
    requires
        a != b,
    ensures
        spec_namespace_name(a) != spec_namespace_name(b),
        spec_policy_name(a) != spec_policy_name(b),
        spec_workload_name(a) != spec_workload_name(b),
        spec_vars_secret_name(a) != spec_vars_secret_name(b),
        spec_dns_key(a) != spec_dns_key(b),
        spec_claim_name(a) != spec_claim_name(b),
        spec_mount_name(a) != spec_mount_name(b),
{
    let ta = uuid_text(a);
    let tb = uuid_text(b);
    assert(ta != tb) by {
        if ta == tb {
            lemma_uuid_text_injective(a, b);
        }
    }
    let w = exists|j: int| 0 <= j < 36 && ta[j] != tb[j];
    assert(w) by {
        if !w {
            assert(ta =~= tb);
        }
    }
    let j = choose|j: int| 0 <= j < 36 && ta[j] != tb[j];
    reveal_strlit("galaxy-");
    reveal_strlit("net-policy-galaxy-");
    reveal_strlit("star-");
    reveal_strlit("-vars");
    reveal_strlit(".override");
    reveal_strlit("planet-");
    reveal_strlit("planet-volume-");
    assert(spec_namespace_name(a)[7 + j] != spec_namespace_name(b)[7 + j]);
    assert(spec_policy_name(a)[18 + j] != spec_policy_name(b)[18 + j]);
    assert(spec_workload_name(a)[5 + j] != spec_workload_name(b)[5 + j]);
    assert(spec_vars_secret_name(a)[5 + j] != spec_vars_secret_name(b)[5 + j]);
    assert(spec_dns_key(a)[5 + j] != spec_dns_key(b)[5 + j]);
    assert(spec_claim_name(a)[7 + j] != spec_claim_name(b)[7 + j]);
    assert(spec_mount_name(a)[14 + j] != spec_mount_name(b)[14 + j]);
}

/// Relies on `uuid::Uuid::from_u128` and the `Display` impl of `uuid::Uuid`:
/// the integer's big-endian bytes, as lower-case hex in hyphenated groups.
#[verifier::external_body]
pub(crate) fn id_text(id: u128) -> (r: String)
    ensures
        r@ == uuid_text(id),
{
    uuid::Uuid::from_u128(id).to_string()
}

/// Namespace that hosts every object of a tenant.
pub open spec fn spec_namespace_name(tenant: u128) -> Seq<char> {
    "galaxy-"@ + uuid_text(tenant)
}

/// Deployment, Service and Ingress of a workload.
pub open spec fn spec_workload_name(workload: u128) -> Seq<char> {
    "star-"@ + uuid_text(workload)
}

/// Secret that holds the environment variables of a workload.
pub open spec fn spec_vars_secret_name(workload: u128) -> Seq<char> {
    "star-"@ + uuid_text(workload) + "-vars"@
}

/// The single container of a workload's pods.
pub open spec fn spec_container_name(workload: u128) -> Seq<char> {
    "star-container-"@ + uuid_text(workload)
}

/// PersistentVolumeClaim of a volume.
pub open spec fn spec_claim_name(volume: u128) -> Seq<char> {
    "planet-"@ + uuid_text(volume)
}

/// Name under which a volume is mounted into a workload's container.
pub open spec fn spec_mount_name(volume: u128) -> Seq<char> {
    "planet-volume-"@ + uuid_text(volume)
}

/// Key of a workload's private DNS override in the shared ConfigMap.
pub open spec fn spec_dns_key(workload: u128) -> Seq<char> {
    "star-"@ + uuid_text(workload) + ".override"@
}

/// NetworkPolicy that isolates a tenant namespace.
pub open spec fn spec_policy_name(tenant: u128) -> Seq<char> {
    "net-policy-galaxy-"@ + uuid_text(tenant)
}

/// In-cluster host name of a workload's Service.
pub open spec fn spec_service_host(workload: u128, tenant: u128) -> Seq<char> {
    spec_workload_name(workload) + "."@ + spec_namespace_name(tenant) + ".svc.cluster.local"@
}

/// `prefix` followed by the id's text.
fn id_with(prefix: &str, id: u128) -> (r: String)
    ensures
        r@ == prefix@ + uuid_text(id),
{
    let text = id_text(id);
    let mut r = String::from_str(prefix);
    r.append(text.as_str());
    r
}

pub fn namespace_name(tenant: u128) -> (r: String)
    ensures
        r@ == spec_namespace_name(tenant),
{
    id_with("galaxy-", tenant)
}

pub fn workload_name(workload: u128) -> (r: String)
    ensures
        r@ == spec_workload_name(workload),
{
    id_with("star-", workload)
}

pub fn vars_secret_name(workload: u128) -> (r: String)
    ensures
        r@ == spec_vars_secret_name(workload),
{
    let mut r = id_with("star-", workload);
    r.append("-vars");
    r
}

pub fn container_name(workload: u128) -> (r: String)
    ensures
        r@ == spec_container_name(workload),
{
    id_with("star-container-", workload)
}

pub fn claim_name(volume: u128) -> (r: String)
    ensures
        r@ == spec_claim_name(volume),
{
    id_with("planet-", volume)
}

pub fn mount_name(volume: u128) -> (r: String)
    ensures
        r@ == spec_mount_name(volume),
{
    id_with("planet-volume-", volume)
}

pub fn dns_key(workload: u128) -> (r: String)
    ensures
        r@ == spec_dns_key(workload),
{
    let mut r = id_with("star-", workload);
    r.append(".override");
    r
}

pub fn policy_name(tenant: u128) -> (r: String)
    ensures
        r@ == spec_policy_name(tenant),
{
    id_with("net-policy-galaxy-", tenant)
}

pub fn service_host(workload: u128, tenant: u128) -> (r: String)
    ensures
        r@ == spec_service_host(workload, tenant),
{
    let w = workload_name(workload);
    let ns = namespace_name(tenant);
    let mut r = w;
    r.append(".");
    r.append(ns.as_str());
    r.append(".svc.cluster.local");
    r
}

} // verus!
