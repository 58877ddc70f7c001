//! Usage records of IBM Quantum Compute Service jobs and service instances,
//! and their mapping into the provider-neutral usage models.

use vstd::prelude::*;
use vstd::string::*;
use crate::models::{
    AccountUsage, AccountingStatus, TaskUsage, UsageMetric, UsageMetricView,
    ACCOUNT_USAGE_SCHEMA_VERSION, metrics_view, pairs_view,
};
use crate::text::{bool_text, clone_opt};

verus! {

broadcast use vstd::string::group_string_axioms;

/// Accounting status of a job's usage, as the service reports it.
#[derive(Debug, Clone, Copy, PartialEq, Eq, Structural)]
pub enum JobUsageStatus {
    Pending,
    Complete,
}

/// Lifecycle timestamps of a job, as the service reports them.
#[derive(Debug, Clone, PartialEq, Eq)]
pub struct JobMetricsTimestamps {
    pub created: Option<String>,
    pub running: Option<String>,
    pub finished: Option<String>,
}

/// Usage part of a job's metrics. Numbers are kept as the bit patterns of
/// the doubles the service client holds.
#[derive(Debug, Clone, PartialEq, Eq)]
pub struct JobMetricsUsage {
    pub qpu_charge_time_seconds: Option<u64>,
    pub status: Option<JobUsageStatus>,
}

/// Metrics of one job, as the service reports them.
#[derive(Debug, Clone, PartialEq, Eq)]
pub struct JobMetrics {
    pub timestamps: Option<JobMetricsTimestamps>,
    pub usage: Option<JobMetricsUsage>,
    /// Bit pattern of the circuits execution time in nanoseconds.
    pub circuits_execution_time_ns: Option<u64>,
}

/// Usage period of a service instance.
#[derive(Debug, Clone, PartialEq, Eq)]
pub struct UsagePeriod {
    pub start_time: Option<String>,
    pub end_time: Option<String>,
}

/// Usage of a service instance, as the service reports it. Numbers are kept
/// as the bit patterns of the doubles the service client holds.
#[derive(Debug, Clone, PartialEq, Eq)]
pub struct InstanceUsage {
    pub instance_id: String,
    pub plan_id: String,
    pub usage_consumed_seconds: u64,
    pub usage_limit_seconds: Option<u64>,
    pub usage_allocation_seconds: Option<u64>,
    pub usage_period: Option<UsagePeriod>,
    pub usage_limit_reached: Option<bool>,
    pub time_available_at: Option<String>,
}

pub open spec fn qpu_charge_time_semantics() -> Seq<char> {
    "IBM Quantum Compute Service resource usage used to calculate capacity consumption."@
}

pub open spec fn circuits_execution_time_semantics() -> Seq<char> {
    "IBM Quantum Compute Service time the job spent executing circuits on the QPU."@
}

/// The metric reporting a job's QPU charge time.
pub open spec fn qpu_charge_time_metric(v: u64) -> UsageMetricView {
    UsageMetricView {
        name: "ibm.job.qpu_charge_time"@,
        value_bits: v,
        unit: "seconds"@,
        semantics: qpu_charge_time_semantics(),
    }
}

/// The metric reporting a job's circuits execution time.
pub open spec fn circuits_execution_time_metric(v: u64) -> UsageMetricView {
    UsageMetricView {
        name: "ibm.job.circuits_execution_time"@,
        value_bits: v,
        unit: "nanoseconds"@,
        semantics: circuits_execution_time_semantics(),
    }
}

/// The QPU charge time a job's metrics report, if any.
pub open spec fn job_charge_time(m: JobMetrics) -> Option<u64> {
    match m.usage {
        Some(u) => u.qpu_charge_time_seconds,
        None => None,
    }
}

/// The metrics of a task's usage: the QPU charge time first, where
/// reported, then the circuits execution time, where reported; values are
/// carried unchanged.
pub open spec fn job_usage_metrics(m: JobMetrics) -> Seq<UsageMetricView> {
    let first = match job_charge_time(m) {
        Some(v) => seq![qpu_charge_time_metric(v)],
        None => Seq::empty(),
    };
    let second = match m.circuits_execution_time_ns {
        Some(v) => seq![circuits_execution_time_metric(v)],
        None => Seq::empty(),
    };
    first + second
}

/// The accounting status of a task's usage: pending stays pending, and a
/// complete report is final.
pub open spec fn job_accounting_status(m: JobMetrics) -> Option<AccountingStatus> {
    match m.usage {
        Some(u) => match u.status {
            Some(JobUsageStatus::Pending) => Some(AccountingStatus::Pending),
            Some(JobUsageStatus::Complete) => Some(AccountingStatus::Final),
            None => None,
        },
        None => None,
    }
}

pub open spec fn job_created(m: JobMetrics) -> Option<String> {
    match m.timestamps {
        Some(t) => t.created,
        None => None,
    }
}

pub open spec fn job_running(m: JobMetrics) -> Option<String> {
    match m.timestamps {
        Some(t) => t.running,
        None => None,
    }
}

pub open spec fn job_finished(m: JobMetrics) -> Option<String> {
    match m.timestamps {
        Some(t) => t.finished,
        None => None,
    }
}

/// Maps the metrics the service reports for a job into a task usage record.
pub fn task_usage_from_job_metrics(task_id: &str, job_metrics: &JobMetrics) -> (r: TaskUsage)
    ensures
        r.task_id@ == task_id@,
        r.created == job_created(*job_metrics),
        r.running == job_running(*job_metrics),
        r.finished == job_finished(*job_metrics),
        r.accounting_status == job_accounting_status(*job_metrics),
        metrics_view(r.metrics@) == job_usage_metrics(*job_metrics),
{
    let mut metrics: Vec<UsageMetric> = Vec::new();
    let charge = match &job_metrics.usage {
        Some(u) => u.qpu_charge_time_seconds,
        None => None,
    };
    if let Some(value) = charge {
        metrics.push(UsageMetric {
            name: "ibm.job.qpu_charge_time".to_string(),
            value_bits: value,
            unit: "seconds".to_string(),
            semantics: "IBM Quantum Compute Service resource usage used to calculate capacity consumption.".to_string(),
        });
    }
    if let Some(value) = job_metrics.circuits_execution_time_ns {
        metrics.push(UsageMetric {
            name: "ibm.job.circuits_execution_time".to_string(),
            value_bits: value,
            unit: "nanoseconds".to_string(),
            semantics: "IBM Quantum Compute Service time the job spent executing circuits on the QPU.".to_string(),
        });
    }
    assert(metrics_view(metrics@) =~= job_usage_metrics(*job_metrics));
    let accounting_status = match &job_metrics.usage {
        Some(u) => match u.status {
            Some(JobUsageStatus::Pending) => Some(AccountingStatus::Pending),
            Some(JobUsageStatus::Complete) => Some(AccountingStatus::Final),
            None => None,
        },
        None => None,
    };
    let (created, running, finished) = match &job_metrics.timestamps {
        Some(t) => (clone_opt(&t.created), clone_opt(&t.running), clone_opt(&t.finished)),
        None => (None, None, None),
    };
    TaskUsage {
        task_id: task_id.to_string(),
        created,
        running,
        finished,
        accounting_status,
        metrics,
    }
}

pub open spec fn usage_consumed_semantics() -> Seq<char> {
    "IBM Quantum Compute Service usage consumed in the current service-instance usage period."@
}

pub open spec fn usage_limit_semantics() -> Seq<char> {
    "IBM Quantum Compute Service usage limit during the current service-instance usage period."@
}

pub open spec fn usage_allocation_semantics() -> Seq<char> {
    "IBM Quantum Compute Service usage allocation for the configured service instance during the current usage period."@
}

/// The usage metrics of a service instance: consumed usage always, then the
/// limit and the allocation where reported; values are carried unchanged.
pub open spec fn instance_usage_metrics(u: InstanceUsage) -> Seq<UsageMetricView> {
    let consumed = seq![UsageMetricView {
        name: "ibm.instance.usage_consumed"@,
        value_bits: u.usage_consumed_seconds,
        unit: "seconds"@,
        semantics: usage_consumed_semantics(),
    }];
    let limit = match u.usage_limit_seconds {
        Some(v) => seq![UsageMetricView {
            name: "ibm.instance.usage_limit"@,
            value_bits: v,
            unit: "seconds"@,
            semantics: usage_limit_semantics(),
        }],
        None => Seq::empty(),
    };
    let allocation = match u.usage_allocation_seconds {
        Some(v) => seq![UsageMetricView {
            name: "ibm.instance.usage_allocation"@,
            value_bits: v,
            unit: "seconds"@,
            semantics: usage_allocation_semantics(),
        }],
        None => Seq::empty(),
    };
    consumed + limit + allocation
}

/// The namespaced provider facts of a service instance, in ascending key
/// order: the plan always, then when usage becomes available again and
/// whether the usage limit is reached, where reported.
pub open spec fn instance_provider_metadata(u: InstanceUsage) -> Seq<(Seq<char>, Seq<char>)> {
    let plan = seq![("ibm.plan_id"@, u.plan_id@)];
    let available = match u.time_available_at {
        Some(t) => seq![("ibm.time_available_at"@, t@)],
        None => Seq::empty(),
    };
    let reached = match u.usage_limit_reached {
        Some(b) => seq![("ibm.usage_limit_reached"@, bool_text(b))],
        None => Seq::empty(),
    };
    plan + available + reached
}

pub open spec fn instance_period_start(u: InstanceUsage) -> Option<String> {
    match u.usage_period {
        Some(p) => p.start_time,
        None => None,
    }
}

pub open spec fn instance_period_end(u: InstanceUsage) -> Option<String> {
    match u.usage_period {
        Some(p) => p.end_time,
        None => None,
    }
}

/// Maps the usage the service reports for its service instance into an
/// account usage record.
pub fn account_usage_from_instance_usage(instance_usage: &InstanceUsage) -> (r: AccountUsage)
    ensures
        r.schema_version == ACCOUNT_USAGE_SCHEMA_VERSION,
        r.provider_type@ == "ibm-quantum-compute-service"@,
        r.account_id@ == instance_usage.instance_id@,
        r.period_start == instance_period_start(*instance_usage),
        r.period_end == instance_period_end(*instance_usage),
        metrics_view(r.usage@) == instance_usage_metrics(*instance_usage),
        pairs_view(r.provider_metadata@) == instance_provider_metadata(*instance_usage),
{
    let mut usage: Vec<UsageMetric> = Vec::new();
    usage.push(UsageMetric {
        name: "ibm.instance.usage_consumed".to_string(),
        value_bits: instance_usage.usage_consumed_seconds,
        unit: "seconds".to_string(),
        semantics: "IBM Quantum Compute Service usage consumed in the current service-instance usage period.".to_string(),
    });
    if let Some(value) = instance_usage.usage_limit_seconds {
        usage.push(UsageMetric {
            name: "ibm.instance.usage_limit".to_string(),
            value_bits: value,
            unit: "seconds".to_string(),
            semantics: "IBM Quantum Compute Service usage limit during the current service-instance usage period.".to_string(),
        });
    }
    if let Some(value) = instance_usage.usage_allocation_seconds {
        usage.push(UsageMetric {
            name: "ibm.instance.usage_allocation".to_string(),
            value_bits: value,
            unit: "seconds".to_string(),
            semantics: "IBM Quantum Compute Service usage allocation for the configured service instance during the current usage period.".to_string(),
        });
    }
    assert(metrics_view(usage@) =~= instance_usage_metrics(*instance_usage));

    let (period_start, period_end) = match &instance_usage.usage_period {
        Some(period) => (clone_opt(&period.start_time), clone_opt(&period.end_time)),
        None => (None, None),
    };

    let mut provider_metadata: Vec<(String, String)> = Vec::new();
    provider_metadata.push(("ibm.plan_id".to_string(), instance_usage.plan_id.clone()));
    if let Some(value) = &instance_usage.time_available_at {
        provider_metadata.push(("ibm.time_available_at".to_string(), value.clone()));
    }
    if let Some(value) = instance_usage.usage_limit_reached {
        let text = if value { "true".to_string() } else { "false".to_string() };
        provider_metadata.push(("ibm.usage_limit_reached".to_string(), text));
    }
    assert(pairs_view(provider_metadata@) =~= instance_provider_metadata(*instance_usage));

    AccountUsage {
        schema_version: ACCOUNT_USAGE_SCHEMA_VERSION,
        provider_type: "ibm-quantum-compute-service".to_string(),
        account_id: instance_usage.instance_id.clone(),
        period_start,
        period_end,
        usage,
        provider_metadata,
    }
}

/// Strict lexicographic order of character sequences, the order in which
/// a sorted map of strings lists its keys.
pub open spec fn text_lt(a: Seq<char>, b: Seq<char>) -> bool
    decreases a.len(),
{
    if a.len() == 0 {
        b.len() > 0
    } else if b.len() == 0 {
        false
    } else if a[0] == b[0] {
        text_lt(a.drop_first(), b.drop_first())
    } else {
        (a[0] as u32) < (b[0] as u32)
    }
}

/// Every metric of a task's usage names what it means, and no metric name
/// occurs twice.
pub proof fn task_usage_metrics_well_formed(m: JobMetrics)
    ensures
        forall|i: int| 0 <= i < job_usage_metrics(m).len() ==> #[trigger] job_usage_metrics(m)[i].semantics.len() > 0,
        forall|i: int, j: int| 0 <= i < j < job_usage_metrics(m).len() ==> job_usage_metrics(m)[i].name != job_usage_metrics(m)[j].name,
        job_usage_metrics(m).len() <= 2,
{
    reveal_strlit("ibm.job.qpu_charge_time");
    reveal_strlit("ibm.job.circuits_execution_time");
    reveal_strlit("IBM Quantum Compute Service resource usage used to calculate capacity consumption.");
    reveal_strlit("IBM Quantum Compute Service time the job spent executing circuits on the QPU.");
    assert("ibm.job.qpu_charge_time"@.len() != "ibm.job.circuits_execution_time"@.len());
}

/// Every metric of an account's usage names what it means, no metric name
/// occurs twice, and consumed usage always comes first.
pub proof fn account_usage_metrics_well_formed(u: InstanceUsage)
    ensures
        forall|i: int| 0 <= i < instance_usage_metrics(u).len() ==> #[trigger] instance_usage_metrics(u)[i].semantics.len() > 0,
        forall|i: int, j: int| 0 <= i < j < instance_usage_metrics(u).len() ==> instance_usage_metrics(u)[i].name != instance_usage_metrics(u)[j].name,
        instance_usage_metrics(u).len() >= 1,
        instance_usage_metrics(u)[0].name == "ibm.instance.usage_consumed"@,
        instance_usage_metrics(u)[0].value_bits == u.usage_consumed_seconds,
{
    reveal_strlit("ibm.instance.usage_consumed");
    reveal_strlit("ibm.instance.usage_limit");
    reveal_strlit("ibm.instance.usage_allocation");
    reveal_strlit("IBM Quantum Compute Service usage consumed in the current service-instance usage period.");
    reveal_strlit("IBM Quantum Compute Service usage limit during the current service-instance usage period.");
    reveal_strlit("IBM Quantum Compute Service usage allocation for the configured service instance during the current usage period.");
    assert("ibm.instance.usage_consumed"@.len() == 27);
    assert("ibm.instance.usage_limit"@.len() == 24);
    assert("ibm.instance.usage_allocation"@.len() == 29);
}

/// The provider facts of an account's usage are listed in strictly
/// ascending key order, as a sorted map lists them, so no key occurs twice.
pub proof fn account_metadata_keys_ascending(u: InstanceUsage)
    ensures
        forall|i: int, j: int| 0 <= i < j < instance_provider_metadata(u).len() ==>
            text_lt(instance_provider_metadata(u)[i].0, instance_provider_metadata(u)[j].0),
        forall|i: int, j: int| 0 <= i < j < instance_provider_metadata(u).len() ==>
            instance_provider_metadata(u)[i].0 != instance_provider_metadata(u)[j].0,
{
    reveal_strlit("ibm.plan_id");
    reveal_strlit("ibm.time_available_at");
    reveal_strlit("ibm.usage_limit_reached");
    let a = "ibm.plan_id"@;
    let b = "ibm.time_available_at"@;
    let c = "ibm.usage_limit_reached"@;
    reveal_with_fuel(text_lt, 6);
    assert(text_lt(a, b));
    assert(text_lt(b, c));
    assert(text_lt(a, c));
    assert(a.len() != b.len() && b.len() != c.len() && a.len() != c.len());
}

/// Each quantity an instance reports is carried unchanged under its own
/// name: the consumed usage under `ibm.instance.usage_consumed`, a usage
/// limit under `ibm.instance.usage_limit` and an allocation under
/// `ibm.instance.usage_allocation`, each in seconds. A quantity that is not
/// reported has no metric, and every metric holds the value of the field it
/// is named after.
pub proof fn instance_metrics_carry_their_own_values(u: InstanceUsage)
    ensures
        ({
            let ms = instance_usage_metrics(u);
            &&& exists|i: int| 0 <= i < ms.len() && #[trigger] ms[i].name == "ibm.instance.usage_consumed"@
            &&& (u.usage_limit_seconds is Some <==> exists|i: int| 0 <= i < ms.len() && #[trigger] ms[i].name == "ibm.instance.usage_limit"@)
            &&& (u.usage_allocation_seconds is Some <==> exists|i: int| 0 <= i < ms.len() && #[trigger] ms[i].name == "ibm.instance.usage_allocation"@)
            &&& forall|i: int| 0 <= i < ms.len() && #[trigger] ms[i].name == "ibm.instance.usage_consumed"@
                ==> ms[i].value_bits == u.usage_consumed_seconds && ms[i].unit == "seconds"@
            &&& forall|i: int| 0 <= i < ms.len() && #[trigger] ms[i].name == "ibm.instance.usage_limit"@
                ==> u.usage_limit_seconds == Some(ms[i].value_bits) && ms[i].unit == "seconds"@
            &&& forall|i: int| 0 <= i < ms.len() && #[trigger] ms[i].name == "ibm.instance.usage_allocation"@
                ==> u.usage_allocation_seconds == Some(ms[i].value_bits) && ms[i].unit == "seconds"@
        }),
{
    reveal_strlit("ibm.instance.usage_consumed");
    reveal_strlit("ibm.instance.usage_limit");
    reveal_strlit("ibm.instance.usage_allocation");
    assert("ibm.instance.usage_consumed"@.len() == 27);
    assert("ibm.instance.usage_limit"@.len() == 24);
    assert("ibm.instance.usage_allocation"@.len() == 29);
    let ms = instance_usage_metrics(u);
    assert(ms[0].name == "ibm.instance.usage_consumed"@);
    if u.usage_limit_seconds is Some {
        assert(ms[1].name == "ibm.instance.usage_limit"@);
    }
    if u.usage_allocation_seconds is Some {
        let k = if u.usage_limit_seconds is Some { 2int } else { 1int };
        assert(ms[k].name == "ibm.instance.usage_allocation"@);
    }
}

/// Each quantity a job's metrics report is carried unchanged under its own
/// name: the QPU charge time under `ibm.job.qpu_charge_time` in seconds and
/// the circuits execution time under `ibm.job.circuits_execution_time` in
/// nanoseconds. A quantity that is not reported has no metric, and every
/// metric holds the value of the field it is named after.
pub proof fn job_metrics_carry_their_own_values(m: JobMetrics)
    ensures
        ({
            let ms = job_usage_metrics(m);
            &&& (job_charge_time(m) is Some <==> exists|i: int| 0 <= i < ms.len() && #[trigger] ms[i].name == "ibm.job.qpu_charge_time"@)
            &&& (m.circuits_execution_time_ns is Some <==> exists|i: int| 0 <= i < ms.len() && #[trigger] ms[i].name == "ibm.job.circuits_execution_time"@)
            &&& forall|i: int| 0 <= i < ms.len() && #[trigger] ms[i].name == "ibm.job.qpu_charge_time"@
                ==> job_charge_time(m) == Some(ms[i].value_bits) && ms[i].unit == "seconds"@
            &&& forall|i: int| 0 <= i < ms.len() && #[trigger] ms[i].name == "ibm.job.circuits_execution_time"@
                ==> m.circuits_execution_time_ns == Some(ms[i].value_bits) && ms[i].unit == "nanoseconds"@
        }),
{
    reveal_strlit("ibm.job.qpu_charge_time");
    reveal_strlit("ibm.job.circuits_execution_time");
    assert("ibm.job.qpu_charge_time"@.len() != "ibm.job.circuits_execution_time"@.len());
    let ms = job_usage_metrics(m);
    if job_charge_time(m) is Some {
        assert(ms[0].name == "ibm.job.qpu_charge_time"@);
    }
    if m.circuits_execution_time_ns is Some {
        let k = if job_charge_time(m) is Some { 1int } else { 0int };
        assert(ms[k].name == "ibm.job.circuits_execution_time"@);
    }
}

/// The provider facts of an instance carry each reported value under its
/// own key: the plan under `ibm.plan_id`, when usage becomes available
/// again under `ibm.time_available_at`, and whether the usage limit is
/// reached under `ibm.usage_limit_reached` as `true` or `false`. A fact that
/// is not reported has no entry.
pub proof fn instance_facts_carry_their_own_values(u: InstanceUsage)
    ensures
        ({
            let fs = instance_provider_metadata(u);
            &&& exists|i: int| 0 <= i < fs.len() && #[trigger] fs[i].0 == "ibm.plan_id"@
            &&& (u.time_available_at is Some <==> exists|i: int| 0 <= i < fs.len() && #[trigger] fs[i].0 == "ibm.time_available_at"@)
            &&& (u.usage_limit_reached is Some <==> exists|i: int| 0 <= i < fs.len() && #[trigger] fs[i].0 == "ibm.usage_limit_reached"@)
            &&& forall|i: int| 0 <= i < fs.len() && #[trigger] fs[i].0 == "ibm.plan_id"@ ==> fs[i].1 == u.plan_id@
            &&& forall|i: int| 0 <= i < fs.len() && #[trigger] fs[i].0 == "ibm.time_available_at"@
                ==> (u.time_available_at matches Some(t) && fs[i].1 == t@)
            &&& forall|i: int| 0 <= i < fs.len() && #[trigger] fs[i].0 == "ibm.usage_limit_reached"@
                ==> (u.usage_limit_reached matches Some(b) && fs[i].1 == (if b { "true"@ } else { "false"@ }))
        }),
{
    reveal_strlit("ibm.plan_id");
    reveal_strlit("ibm.time_available_at");
    reveal_strlit("ibm.usage_limit_reached");
    assert("ibm.plan_id"@.len() == 11);
    assert("ibm.time_available_at"@.len() == 21);
    assert("ibm.usage_limit_reached"@.len() == 23);
    let fs = instance_provider_metadata(u);
    assert(fs[0].0 == "ibm.plan_id"@);
    if u.time_available_at is Some {
        assert(fs[1].0 == "ibm.time_available_at"@);
    }
    if u.usage_limit_reached is Some {
        let k = if u.time_available_at is Some { 2int } else { 1int };
        assert(fs[k].0 == "ibm.usage_limit_reached"@);
    }
}

/// A task's usage takes each timestamp from the field of the same name in
/// the job's metrics, and none where the metrics report no timestamps; its
/// accounting is pending while the job's usage is pending, final once it is
/// complete, and unknown where no status is reported.
pub proof fn job_fields_carry_their_own_values(m: JobMetrics)
    ensures
        forall|t: JobMetricsTimestamps| m.timestamps == Some(t) ==> job_created(m) == t.created
            && job_running(m) == t.running && job_finished(m) == t.finished,
        m.timestamps is None ==> job_created(m) is None && job_running(m) is None && job_finished(m) is None,
        job_accounting_status(m) == Some(AccountingStatus::Pending) <==> (m.usage matches Some(u) && u.status == Some(JobUsageStatus::Pending)),
        job_accounting_status(m) == Some(AccountingStatus::Final) <==> (m.usage matches Some(u) && u.status == Some(JobUsageStatus::Complete)),
        forall|u: JobMetricsUsage| m.usage == Some(u) ==> job_charge_time(m) == u.qpu_charge_time_seconds,
{
}

/// An account's usage period starts and ends at the times of the same name
/// the instance reports, and has neither where no period is reported.
pub proof fn instance_period_carries_its_own_values(u: InstanceUsage)
    ensures
        forall|p: UsagePeriod| u.usage_period == Some(p) ==> instance_period_start(u) == p.start_time
            && instance_period_end(u) == p.end_time,
        u.usage_period is None ==> instance_period_start(u) is None && instance_period_end(u) is None,
{
}

} // verus!
