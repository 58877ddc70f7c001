//! The resource provider of the IBM Quantum Compute Service: its settings,
//! the environment it hands to each resource it creates, and the order in
//! which it lists backends.

use vstd::prelude::*;
use vstd::string::*;
use crate::error::QrmiError;
use crate::string_map::{StringMap, prefixed_map, lemma_prefix_skip};
use crate::ibm::service::{
    ServiceEnvVar, ServiceEnvironment, env_var_suffix, env_var_name, first_missing_required, map_value,
    opt_view,
};

verus! {

broadcast use vstd::string::group_string_axioms;

/// The first key a provider needs that `env` does not hold, in the order
/// endpoint, IAM endpoint, IAM API key, service CRN.
pub open spec fn first_missing_provider_key(env: Map<Seq<char>, Seq<char>>) -> Option<ServiceEnvVar> {
    if !env.contains_key(env_var_suffix(ServiceEnvVar::Endpoint)) {
        Some(ServiceEnvVar::Endpoint)
    } else if !env.contains_key(env_var_suffix(ServiceEnvVar::IamEndpoint)) {
        Some(ServiceEnvVar::IamEndpoint)
    } else if !env.contains_key(env_var_suffix(ServiceEnvVar::IamApiKey)) {
        Some(ServiceEnvVar::IamApiKey)
    } else if !env.contains_key(env_var_suffix(ServiceEnvVar::ServiceCrn)) {
        Some(ServiceEnvVar::ServiceCrn)
    } else {
        None
    }
}

/// The prefix under which a provider hands its environment to the
/// resource of one backend.
pub open spec fn backend_prefix(backend_name: Seq<char>) -> Seq<char> {
    backend_name + "_"@
}

/// A resource provider that discovers the backends available through the
/// IBM Quantum Compute Service.
#[derive(Debug)]
pub struct IBMQuantumComputeServiceProvider {
    pub endpoint: String,
    pub iam_endpoint: String,
    pub api_key: String,
    pub service_crn: String,
    pub provider_env: StringMap,
}

fn required_key(environment: &StringMap, v: ServiceEnvVar) -> (r: Result<String, QrmiError>)
    ensures
        environment@.contains_key(env_var_suffix(v)) ==> (r matches Ok(s) && s@ == environment@[env_var_suffix(v)]),
        !environment@.contains_key(env_var_suffix(v)) ==> (r matches Err(QrmiError::MissingConfigKey(k))
            && k@ == env_var_suffix(v)),
{
    let key = v.suffix();
    match environment.get(key) {
        Some(value) => Ok(value),
        None => Err(QrmiError::MissingConfigKey(key.to_string())),
    }
}

impl IBMQuantumComputeServiceProvider {
    /// Builds a provider from its environment map. Fails with the first
    /// required key the map does not hold.
    pub fn new(environment: &StringMap) -> (r: Result<IBMQuantumComputeServiceProvider, QrmiError>)
        ensures
            first_missing_provider_key(environment@) matches Some(v) ==> (r matches Err(QrmiError::MissingConfigKey(k))
                && k@ == env_var_suffix(v)),
            first_missing_provider_key(environment@) is None ==> (r matches Ok(p) && {
                &&& p.endpoint@ == environment@[env_var_suffix(ServiceEnvVar::Endpoint)]
                &&& p.iam_endpoint@ == environment@[env_var_suffix(ServiceEnvVar::IamEndpoint)]
                &&& p.api_key@ == environment@[env_var_suffix(ServiceEnvVar::IamApiKey)]
                &&& p.service_crn@ == environment@[env_var_suffix(ServiceEnvVar::ServiceCrn)]
                &&& p.provider_env@ == environment@
            }),
    {
        let endpoint = required_key(environment, ServiceEnvVar::Endpoint)?;
        let iam_endpoint = required_key(environment, ServiceEnvVar::IamEndpoint)?;
        let api_key = required_key(environment, ServiceEnvVar::IamApiKey)?;
        let service_crn = required_key(environment, ServiceEnvVar::ServiceCrn)?;
        Ok(IBMQuantumComputeServiceProvider {
            endpoint,
            iam_endpoint,
            api_key,
            service_crn,
            provider_env: environment.copy(),
        })
    }

    /// The environment handed to the resource of `backend_name`: every entry
    /// of the provider's environment under the backend name, an underscore
    /// and its key.
    pub fn backend_env(&self, backend_name: &str) -> (r: StringMap)
        ensures
            r@ == prefixed_map(self.provider_env@, backend_prefix(backend_name@)),
    {
        let mut prefix = backend_name.to_string();
        prefix.append("_");
        self.provider_env.with_key_prefix(prefix.as_str())
    }
}

/// A provider's environment configures every backend it lists: the
/// variables a resource reads from the environment handed to it name the
/// provider's own endpoint, IAM endpoint, API key and service instance, so
/// no required variable is missing, and its optional settings are the
/// provider's where the provider has them.
pub proof fn provider_env_configures_backends(
    provider_env: Map<Seq<char>, Seq<char>>,
    backend_name: Seq<char>,
    env: ServiceEnvironment,
    v: ServiceEnvVar,
)
    requires
        first_missing_provider_key(provider_env) is None,
        env.read_from(backend_name, prefixed_map(provider_env, backend_prefix(backend_name))),
    ensures
        first_missing_required(env) is None,
        map_value(prefixed_map(provider_env, backend_prefix(backend_name)), env_var_name(backend_name, v))
            == map_value(provider_env, env_var_suffix(v)),
        opt_view(env.endpoint) == Some(provider_env[env_var_suffix(ServiceEnvVar::Endpoint)]),
        opt_view(env.iam_endpoint) == Some(provider_env[env_var_suffix(ServiceEnvVar::IamEndpoint)]),
        opt_view(env.iam_apikey) == Some(provider_env[env_var_suffix(ServiceEnvVar::IamApiKey)]),
        opt_view(env.service_crn) == Some(provider_env[env_var_suffix(ServiceEnvVar::ServiceCrn)]),
{
    let p = backend_prefix(backend_name);
    let pm = prefixed_map(provider_env, p);
    assert forall|w: ServiceEnvVar| #[trigger] map_value(pm, env_var_name(backend_name, w))
        == map_value(provider_env, env_var_suffix(w)) by {
        lemma_prefix_skip(p, env_var_suffix(w));
        assert(env_var_name(backend_name, w) == p + env_var_suffix(w));
    }
    assert(map_value(pm, env_var_name(backend_name, ServiceEnvVar::Endpoint)) == map_value(provider_env, env_var_suffix(ServiceEnvVar::Endpoint)));
    assert(map_value(pm, env_var_name(backend_name, ServiceEnvVar::IamEndpoint)) == map_value(provider_env, env_var_suffix(ServiceEnvVar::IamEndpoint)));
    assert(map_value(pm, env_var_name(backend_name, ServiceEnvVar::IamApiKey)) == map_value(provider_env, env_var_suffix(ServiceEnvVar::IamApiKey)));
    assert(map_value(pm, env_var_name(backend_name, ServiceEnvVar::ServiceCrn)) == map_value(provider_env, env_var_suffix(ServiceEnvVar::ServiceCrn)));
    assert(map_value(pm, env_var_name(backend_name, v)) == map_value(provider_env, env_var_suffix(v)));
}

/// Backend `a` comes before backend `b` in a listing: it has a shorter
/// queue, or the same queue and came first.
pub open spec fn listed_before(queue_lengths: Seq<i64>, a: int, b: int) -> bool {
    queue_lengths[a] < queue_lengths[b] || (queue_lengths[a] == queue_lengths[b] && a < b)
}

/// Backend `j` appears in `order`.
pub open spec fn listed(order: Seq<usize>, j: int) -> bool {
    exists|i: int| 0 <= i < order.len() && order[i] == j
}

/// `order` lists every backend once, least busy first, keeping the order
/// in which backends were found among those with equal queues.
pub open spec fn is_queue_order(queue_lengths: Seq<i64>, order: Seq<usize>) -> bool {
    &&& order.len() == queue_lengths.len()
    &&& forall|i: int| 0 <= i < order.len() ==> order[i] < queue_lengths.len()
    &&& forall|j: int| 0 <= j < queue_lengths.len() ==> #[trigger] listed(order, j)
    &&& forall|i: int, k: int| 0 <= i < k < order.len() ==> listed_before(queue_lengths, order[i] as int, order[k] as int)
}

/// The order in which backends are listed: by queue length ascending, least
/// busy first, backends with equal queues in the order they were found.
pub fn queue_order(queue_lengths: &Vec<i64>) -> (r: Vec<usize>)
    ensures
        is_queue_order(queue_lengths@, r@),
{
    let n = queue_lengths.len();
    let ghost q = queue_lengths@;
    let mut order: Vec<usize> = Vec::new();
    for i in 0..n
        invariant
            n == q.len(),
            q == queue_lengths@,
            order@.len() == i,
            forall|a: int| 0 <= a < order@.len() ==> order@[a] < i,
            forall|j: int| 0 <= j < i ==> #[trigger] listed(order@, j),
            forall|a: int, b: int| 0 <= a < b < order@.len() ==> listed_before(q, order@[a] as int, order@[b] as int),
    {
        let len = order.len();
        let mut p: usize = 0;
        while p < len && queue_lengths[order[p]] <= queue_lengths[i]
            invariant
                len == order@.len(),
                p <= len,
                i < n,
                n == q.len(),
                q == queue_lengths@,
                forall|a: int| 0 <= a < order@.len() ==> order@[a] < i,
                forall|a: int| 0 <= a < p ==> q[order@[a] as int] <= q[i as int],
            decreases len - p,
        {
            p = p + 1;
        }
        let ghost old_order = order@;
        order.insert(p, i);
        proof {
            assert forall|a: int| 0 <= a < order@.len() implies order@[a] < i + 1 by {
                if a < p {
                    assert(order@[a] == old_order[a]);
                } else if a > p {
                    assert(order@[a] == old_order[a - 1]);
                }
            }
            assert forall|j: int| 0 <= j < i + 1 implies #[trigger] listed(order@, j) by {
                if j == i {
                    assert(order@[p as int] == j);
                } else {
                    assert(listed(old_order, j));
                    let a = choose|a: int| 0 <= a < old_order.len() && old_order[a] == j;
                    if a < p {
                        assert(order@[a] == j);
                    } else {
                        assert(order@[a + 1] == j);
                    }
                }
            }
            assert forall|a: int, b: int| 0 <= a < b < order@.len() implies listed_before(q, order@[a] as int, order@[b] as int) by {
                if b < p {
                    assert(order@[a] == old_order[a] && order@[b] == old_order[b]);
                } else if b == p {
                    assert(order@[a] == old_order[a]);
                } else if a > p {
                    assert(order@[a] == old_order[a - 1] && order@[b] == old_order[b - 1]);
                } else if a == p {
                    assert(order@[b] == old_order[b - 1]);
                    if p < old_order.len() {
                        assert(!(q[old_order[p as int] as int] <= q[i as int]));
                        if b - 1 > p {
                            assert(listed_before(q, old_order[p as int] as int, old_order[b - 1] as int));
                        }
                    }
                } else {
                    assert(order@[a] == old_order[a] && order@[b] == old_order[b - 1]);
                }
            }
        }
    }
    order
}

/// Two sequences, each strictly ordered by `listed_before` and holding the
/// same backends, are the same sequence.
proof fn lemma_listing_unique(q: Seq<i64>, o1: Seq<usize>, o2: Seq<usize>)
    requires
        forall|i: int, k: int| 0 <= i < k < o1.len() ==> listed_before(q, o1[i] as int, o1[k] as int),
        forall|i: int, k: int| 0 <= i < k < o2.len() ==> listed_before(q, o2[i] as int, o2[k] as int),
        forall|x: usize| o1.contains(x) <==> o2.contains(x),
    ensures
        o1 == o2,
    decreases o1.len(),
{
    if o1.len() == 0 {
        if o2.len() > 0 {
            assert(o2.contains(o2[0]));
        }
        assert(o1 =~= o2);
    } else if o2.len() == 0 {
        assert(o1.contains(o1[0]));
    } else {
        let a = o1[0];
        let b = o2[0];
        assert(o1.contains(a));
        assert(o2.contains(b));
        if a != b {
            let j = choose|j: int| 0 <= j < o2.len() && o2[j] == a;
            let k = choose|k: int| 0 <= k < o1.len() && o1[k] == b;
            assert(j > 0 && k > 0);
            assert(listed_before(q, b as int, a as int));
            assert(listed_before(q, a as int, b as int));
        }
        let r1 = o1.drop_first();
        let r2 = o2.drop_first();
        assert forall|x: usize| r1.contains(x) <==> r2.contains(x) by {
            if r1.contains(x) {
                let i = choose|i: int| 0 <= i < r1.len() && r1[i] == x;
                assert(o1[i + 1] == x);
                assert(listed_before(q, a as int, x as int));
                assert(o1.contains(x));
                assert(o2.contains(x));
                let j = choose|j: int| 0 <= j < o2.len() && o2[j] == x;
                assert(j != 0);
                assert(r2[j - 1] == x);
            }
            if r2.contains(x) {
                let i = choose|i: int| 0 <= i < r2.len() && r2[i] == x;
                assert(o2[i + 1] == x);
                assert(listed_before(q, b as int, x as int));
                assert(o2.contains(x));
                assert(o1.contains(x));
                let j = choose|j: int| 0 <= j < o1.len() && o1[j] == x;
                assert(j != 0);
                assert(r1[j - 1] == x);
            }
        }
        assert forall|i: int, k: int| 0 <= i < k < r1.len() implies listed_before(q, r1[i] as int, r1[k] as int) by {
            assert(r1[i] == o1[i + 1] && r1[k] == o1[k + 1]);
        }
        assert forall|i: int, k: int| 0 <= i < k < r2.len() implies listed_before(q, r2[i] as int, r2[k] as int) by {
            assert(r2[i] == o2[i + 1] && r2[k] == o2[k + 1]);
        }
        lemma_listing_unique(q, r1, r2);
        assert(o1 =~= seq![a] + r1);
        assert(o2 =~= seq![b] + r2);
    }
}

/// The listing of backends is determined by their queue lengths and the
/// order in which they were found: two listings that both meet
/// `is_queue_order` are the same.
pub proof fn queue_order_is_unique(queue_lengths: Seq<i64>, o1: Seq<usize>, o2: Seq<usize>)
    requires
        is_queue_order(queue_lengths, o1),
        is_queue_order(queue_lengths, o2),
    ensures
        o1 == o2,
{
    assert forall|x: usize| o1.contains(x) <==> o2.contains(x) by {
        if o1.contains(x) {
            let i = choose|i: int| 0 <= i < o1.len() && o1[i] == x;
            assert(x < queue_lengths.len());
            assert(listed(o2, x as int));
        }
        if o2.contains(x) {
            let i = choose|i: int| 0 <= i < o2.len() && o2[i] == x;
            assert(x < queue_lengths.len());
            assert(listed(o1, x as int));
        }
    }
    lemma_listing_unique(queue_lengths, o1, o2);
}

/// The backend listed first is the least busy one, and of those with the
/// shortest queue the one found first: taking the first listed backend
/// picks the least busy backend.
pub proof fn least_busy_is_first_listed(queue_lengths: Seq<i64>, order: Seq<usize>)
    requires
        is_queue_order(queue_lengths, order),
        queue_lengths.len() > 0,
    ensures
        forall|j: int| 0 <= j < queue_lengths.len() && j != order[0] ==> listed_before(queue_lengths, order[0] as int, j),
        forall|j: int| 0 <= j < queue_lengths.len() ==> queue_lengths[order[0] as int] <= #[trigger] queue_lengths[j],
{
    assert forall|j: int| 0 <= j < queue_lengths.len() && j != order[0] implies listed_before(queue_lengths, order[0] as int, j) by {
        assert(listed(order, j));
        let a = choose|a: int| 0 <= a < order.len() && order[a] == j;
        assert(a != 0);
    }
    assert forall|j: int| 0 <= j < queue_lengths.len() implies queue_lengths[order[0] as int] <= #[trigger] queue_lengths[j] by {
        if j != order[0] {
            assert(listed_before(queue_lengths, order[0] as int, j));
        }
    }
}

/// The backend listed first: the least busy one, and of those the first
/// found; none when there are no backends.
pub fn least_busy(queue_lengths: &Vec<i64>) -> (r: Option<usize>)
    ensures
        queue_lengths@.len() == 0 ==> r is None,
        queue_lengths@.len() > 0 ==> (r matches Some(b) && b < queue_lengths@.len()
            && forall|j: int| 0 <= j < queue_lengths@.len() && j != b ==> listed_before(queue_lengths@, b as int, j)),
{
    let order = queue_order(queue_lengths);
    if order.len() == 0 {
        None
    } else {
        let b = order[0];
        proof {
            least_busy_is_first_listed(queue_lengths@, order@);
        }
        Some(b)
    }
}

/// What became of one backend the service listed while its resource was
/// being made: the queue length the service reported, and whether its
/// configuration was fetched and read, whether that configuration passed
/// the filter, and whether a resource could be built for it.
#[derive(Debug, Clone, Copy, PartialEq, Eq, Structural)]
pub struct CandidateOutcome {
    pub queue_length: i64,
    pub configuration_read: bool,
    pub configuration_matches: bool,
    pub resource_built: bool,
}

/// A backend is offered when its configuration was read, passed the
/// filter, and a resource was built for it; any other is skipped.
pub open spec fn candidate_kept(c: CandidateOutcome) -> bool {
    c.configuration_read && c.configuration_matches && c.resource_built
}

/// The queue lengths of the candidates, in the order they were found.
pub open spec fn candidate_queues(cs: Seq<CandidateOutcome>) -> Seq<i64> {
    cs.map_values(|c: CandidateOutcome| c.queue_length)
}

/// `order` lists, by position among the candidates, exactly the backends
/// that are offered, each once, least busy first, those with equal queues
/// in the order they were found.
pub open spec fn is_resource_listing(cs: Seq<CandidateOutcome>, order: Seq<usize>) -> bool {
    &&& forall|i: int| 0 <= i < order.len() ==> order[i] < cs.len() && candidate_kept(cs[order[i] as int])
    &&& forall|j: int| 0 <= j < cs.len() && candidate_kept(cs[j]) ==> #[trigger] listed(order, j)
    &&& forall|i: int, k: int| 0 <= i < k < order.len() ==> listed_before(candidate_queues(cs), order[i] as int, order[k] as int)
}

/// Backend `x` stands among the first `n` entries of `order`.
pub open spec fn among_first(order: Seq<usize>, n: int, x: usize) -> bool {
    exists|a: int| 0 <= a < n && order[a] == x
}

/// The resources a listing offers, by position among the candidates: the
/// candidates are put in queue order, least busy first and stable among
/// equal queues, and those whose configuration could not be read, did not
/// pass the filter or gave no resource are skipped.
pub fn resource_listing(candidates: &Vec<CandidateOutcome>) -> (r: Vec<usize>)
    ensures
        is_resource_listing(candidates@, r@),
{
    let ghost cs = candidates@;
    let n = candidates.len();
    let mut queues: Vec<i64> = Vec::new();
    for i in 0..n
        invariant
            n == cs.len(),
            cs == candidates@,
            queues@.len() == i,
            forall|j: int| 0 <= j < i ==> queues@[j] == cs[j].queue_length,
    {
        queues.push(candidates[i].queue_length);
    }
    let ghost q = candidate_queues(cs);
    assert(queues@ =~= q);
    let order = queue_order(&queues);
    let m = order.len();
    let mut kept: Vec<usize> = Vec::new();
    for i in 0..m
        invariant
            m == order@.len(),
            n == cs.len(),
            cs == candidates@,
            q == candidate_queues(cs),
            is_queue_order(q, order@),
            forall|k: int| 0 <= k < kept@.len() ==> kept@[k] < cs.len() && candidate_kept(cs[kept@[k] as int]),
            forall|k: int| 0 <= k < kept@.len() ==> among_first(order@, i as int, #[trigger] kept@[k]),
            forall|a: int| 0 <= a < i && candidate_kept(cs[order@[a] as int]) ==> listed(kept@, #[trigger] order@[a] as int),
            forall|k: int, l: int| 0 <= k < l < kept@.len() ==> listed_before(q, kept@[k] as int, kept@[l] as int),
    {
        let j = order[i];
        let c = candidates[j];
        let ghost before = kept@;
        if c.configuration_read && c.configuration_matches && c.resource_built {
            kept.push(j);
            proof {
                assert(kept@[before.len() as int] == j);
                assert forall|k: int, l: int| 0 <= k < l < kept@.len() implies listed_before(q, kept@[k] as int, kept@[l] as int) by {
                    if l == before.len() {
                        assert(kept@[k] == before[k]);
                        assert(among_first(order@, i as int, before[k]));
                        let a = choose|a: int| 0 <= a < i && order@[a] == before[k];
                    } else {
                        assert(kept@[k] == before[k] && kept@[l] == before[l]);
                    }
                }
                assert forall|a: int| 0 <= a < i + 1 && candidate_kept(cs[order@[a] as int]) implies listed(kept@, #[trigger] order@[a] as int) by {
                    if a == i {
                        assert(kept@[before.len() as int] == order@[a]);
                    } else {
                        assert(listed(before, order@[a] as int));
                        let b = choose|b: int| 0 <= b < before.len() && before[b] == order@[a];
                        assert(kept@[b] == before[b]);
                    }
                }
                assert forall|k: int| 0 <= k < kept@.len() implies among_first(order@, i + 1, #[trigger] kept@[k]) by {
                    if k == before.len() {
                        assert(order@[i as int] == kept@[k]);
                    } else {
                        assert(kept@[k] == before[k]);
                        assert(among_first(order@, i as int, before[k]));
                        let a = choose|a: int| 0 <= a < i && order@[a] == before[k];
                        assert(order@[a] == kept@[k]);
                    }
                }
            }
        } else {
            proof {
                assert forall|k: int| 0 <= k < kept@.len() implies among_first(order@, i + 1, #[trigger] kept@[k]) by {
                    assert(among_first(order@, i as int, kept@[k]));
                    let a = choose|a: int| 0 <= a < i && order@[a] == kept@[k];
                    assert(order@[a] == kept@[k]);
                }
            }
        }
    }
    proof {
        assert forall|j: int| 0 <= j < cs.len() && candidate_kept(cs[j]) implies #[trigger] listed(kept@, j) by {
            assert(listed(order@, j));
            let a = choose|a: int| 0 <= a < order@.len() && order@[a] == j;
            assert(listed(kept@, order@[a] as int));
        }
    }
    kept
}

/// The resources a listing offers are determined by what became of the
/// candidates: two orders that both meet `is_resource_listing` are the same.
pub proof fn resource_listing_is_unique(cs: Seq<CandidateOutcome>, o1: Seq<usize>, o2: Seq<usize>)
    requires
        is_resource_listing(cs, o1),
        is_resource_listing(cs, o2),
    ensures
        o1 == o2,
{
    assert forall|x: usize| o1.contains(x) <==> o2.contains(x) by {
        if o1.contains(x) {
            let i = choose|i: int| 0 <= i < o1.len() && o1[i] == x;
            assert(listed(o2, x as int));
        }
        if o2.contains(x) {
            let i = choose|i: int| 0 <= i < o2.len() && o2[i] == x;
            assert(listed(o1, x as int));
        }
    }
    lemma_listing_unique(candidate_queues(cs), o1, o2);
}

/// The first resource a listing offers is the least busy of those offered,
/// and of those with the shortest queue the one found first; there is one
/// exactly when some candidate is offered.
pub proof fn first_offered_is_least_busy(cs: Seq<CandidateOutcome>, order: Seq<usize>)
    requires
        is_resource_listing(cs, order),
    ensures
        order.len() > 0 <==> exists|j: int| 0 <= j < cs.len() && candidate_kept(#[trigger] cs[j]),
        order.len() > 0 ==> forall|j: int| 0 <= j < cs.len() && candidate_kept(cs[j]) && j != order[0]
            ==> listed_before(candidate_queues(cs), order[0] as int, j),
{
    if exists|j: int| 0 <= j < cs.len() && candidate_kept(#[trigger] cs[j]) {
        let j = choose|j: int| 0 <= j < cs.len() && candidate_kept(#[trigger] cs[j]);
        assert(listed(order, j));
    }
    if order.len() > 0 {
        assert(candidate_kept(cs[order[0] as int]));
        assert forall|j: int| 0 <= j < cs.len() && candidate_kept(cs[j]) && j != order[0]
            implies listed_before(candidate_queues(cs), order[0] as int, j) by {
            assert(listed(order, j));
            let a = choose|a: int| 0 <= a < order.len() && order[a] == j;
            assert(a != 0);
        }
    }
}

} // verus!
