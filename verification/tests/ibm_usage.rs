use qrmi::ibm::usage::{
    account_usage_from_instance_usage, task_usage_from_job_metrics, InstanceUsage, JobMetrics,
    JobMetricsTimestamps, JobMetricsUsage, JobUsageStatus, UsagePeriod,
};
use qrmi::models::{AccountingStatus, ACCOUNT_USAGE_SCHEMA_VERSION};
use serde_json::Value;

/// Reads a job metrics response the way the service client does.
fn job_metrics_from_json(text: &str) -> JobMetrics {
    let v: Value = serde_json::from_str(text).expect("job metrics response should deserialize");
    let opt_str = |v: &Value, k: &str| v.get(k).and_then(Value::as_str).map(str::to_string);
    let timestamps = v.get("timestamps").map(|t| JobMetricsTimestamps {
        created: opt_str(t, "created"),
        running: opt_str(t, "running"),
        finished: opt_str(t, "finished"),
    });
    let usage = v.get("usage").map(|u| JobMetricsUsage {
        qpu_charge_time_seconds: u
            .get("qpu_charge_time_seconds")
            .and_then(Value::as_f64)
            .map(f64::to_bits),
        status: u.get("status").and_then(Value::as_str).map(|s| match s {
            "pending" => JobUsageStatus::Pending,
            "complete" => JobUsageStatus::Complete,
            other => panic!("unknown status {other}"),
        }),
    });
    JobMetrics {
        timestamps,
        usage,
        circuits_execution_time_ns: v
            .get("circuits_execution_time_ns")
            .and_then(Value::as_f64)
            .map(f64::to_bits),
    }
}

fn value(bits: u64) -> f64 {
    f64::from_bits(bits)
}

#[test]
fn current_job_metrics_map_to_task_usage_without_changing_units() {
    let job_metrics = job_metrics_from_json(
        r#"{
            "timestamps": {
                "created": "2026-09-12T10:00:00Z",
                "running": "2026-09-12T10:00:05Z",
                "finished": "2026-09-12T10:00:15Z"
            },
            "usage": {
                "qpu_charge_time_seconds": 20,
                "status": "complete"
            },
            "circuits_execution_time_ns": 20000000,
            "qiskit_version": "2.3.0"
        }"#,
    );

    let usage = task_usage_from_job_metrics("job-123", &job_metrics);

    assert_eq!(usage.task_id, "job-123");
    assert_eq!(usage.created.as_deref(), Some("2026-09-12T10:00:00Z"));
    assert_eq!(usage.running.as_deref(), Some("2026-09-12T10:00:05Z"));
    assert_eq!(usage.finished.as_deref(), Some("2026-09-12T10:00:15Z"));
    assert_eq!(usage.accounting_status, Some(AccountingStatus::Final));
    assert_eq!(usage.metrics.len(), 2);

    assert_eq!(usage.metrics[0].name, "ibm.job.qpu_charge_time");
    assert_eq!(value(usage.metrics[0].value_bits), 20.0);
    assert_eq!(usage.metrics[0].unit, "seconds");
    assert!(!usage.metrics[0].semantics.is_empty());

    assert_eq!(usage.metrics[1].name, "ibm.job.circuits_execution_time");
    assert_eq!(value(usage.metrics[1].value_bits), 20_000_000.0);
    assert_eq!(usage.metrics[1].unit, "nanoseconds");
    assert!(!usage.metrics[1].semantics.is_empty());
}

#[test]
fn explicit_zero_job_metric_is_preserved() {
    let job_metrics = job_metrics_from_json(
        r#"{
            "usage": {
                "qpu_charge_time_seconds": 2,
                "status": "complete"
            },
            "circuits_execution_time_ns": 0
        }"#,
    );

    let usage = task_usage_from_job_metrics("job-zero", &job_metrics);

    assert_eq!(usage.accounting_status, Some(AccountingStatus::Final));
    assert_eq!(usage.metrics.len(), 2);
    assert_eq!(usage.metrics[0].name, "ibm.job.qpu_charge_time");
    assert_eq!(value(usage.metrics[0].value_bits), 2.0);
    assert_eq!(usage.metrics[1].name, "ibm.job.circuits_execution_time");
    assert_eq!(value(usage.metrics[1].value_bits), 0.0);
}

#[test]
fn pending_job_metrics_are_pending() {
    let job_metrics = job_metrics_from_json(
        r#"{
            "usage": {
                "qpu_charge_time_seconds": 3.5,
                "status": "pending"
            }
        }"#,
    );

    let usage = task_usage_from_job_metrics("job-123", &job_metrics);

    assert_eq!(usage.accounting_status, Some(AccountingStatus::Pending));
}

#[test]
fn missing_job_metrics_stay_missing() {
    let job_metrics = job_metrics_from_json(
        r#"{
            "timestamps": {
                "created": "2026-09-12T10:00:00Z"
            }
        }"#,
    );

    let usage = task_usage_from_job_metrics("job-123", &job_metrics);

    assert_eq!(usage.created.as_deref(), Some("2026-09-12T10:00:00Z"));
    assert!(usage.running.is_none());
    assert!(usage.finished.is_none());
    assert!(usage.accounting_status.is_none());
    assert!(usage.metrics.is_empty());
}

#[test]
fn charge_time_keeps_its_exact_bits() {
    let odd = 0.1f64 + 0.2f64;
    let job_metrics = JobMetrics {
        timestamps: None,
        usage: Some(JobMetricsUsage { qpu_charge_time_seconds: Some(odd.to_bits()), status: None }),
        circuits_execution_time_ns: None,
    };
    let usage = task_usage_from_job_metrics("t", &job_metrics);
    assert_eq!(usage.metrics.len(), 1);
    assert_eq!(usage.metrics[0].value_bits, odd.to_bits());
    assert!(usage.accounting_status.is_none());
    assert!(usage.created.is_none());
}

/// Builds an instance usage record as the service client's constructor does:
/// required fields set, optional fields absent.
fn instance_usage(instance_id: &str, plan_id: &str, consumed: f64) -> InstanceUsage {
    InstanceUsage {
        instance_id: instance_id.to_string(),
        plan_id: plan_id.to_string(),
        usage_consumed_seconds: consumed.to_bits(),
        usage_limit_seconds: None,
        usage_allocation_seconds: None,
        usage_period: None,
        usage_limit_reached: None,
        time_available_at: None,
    }
}

fn metadata_get<'a>(pairs: &'a [(String, String)], key: &str) -> Option<&'a str> {
    pairs.iter().find(|(k, _)| k == key).map(|(_, v)| v.as_str())
}

#[test]
fn ibm_instance_usage_maps_to_account_usage() {
    let mut provider_usage = instance_usage("instance-123", "plan-1", 12.0);
    provider_usage.usage_period = Some(UsagePeriod {
        start_time: Some("2026-09-01T00:00:00Z".to_string()),
        end_time: Some("2026-09-29T00:00:00Z".to_string()),
    });
    provider_usage.usage_limit_seconds = Some(60.0f64.to_bits());
    provider_usage.usage_allocation_seconds = Some(120.0f64.to_bits());
    provider_usage.usage_limit_reached = Some(true);
    provider_usage.time_available_at = Some("2026-09-14T12:00:00Z".to_string());

    let record = account_usage_from_instance_usage(&provider_usage);

    assert_eq!(record.schema_version, ACCOUNT_USAGE_SCHEMA_VERSION);
    assert_eq!(record.provider_type, "ibm-quantum-compute-service");
    assert_eq!(record.account_id, "instance-123");
    assert_eq!(record.period_start.as_deref(), Some("2026-09-01T00:00:00Z"));
    assert_eq!(record.period_end.as_deref(), Some("2026-09-29T00:00:00Z"));
    assert_eq!(record.usage.len(), 3);
    assert_eq!(metadata_get(&record.provider_metadata, "ibm.plan_id"), Some("plan-1"));
    assert_eq!(
        metadata_get(&record.provider_metadata, "ibm.usage_limit_reached"),
        Some("true")
    );
    assert_eq!(
        metadata_get(&record.provider_metadata, "ibm.time_available_at"),
        Some("2026-09-14T12:00:00Z")
    );

    let consumed = record
        .usage
        .iter()
        .find(|metric| metric.name == "ibm.instance.usage_consumed")
        .expect("consumed usage metric should exist");
    assert_eq!(value(consumed.value_bits), 12.0);
    assert_eq!(consumed.unit, "seconds");
    assert!(!consumed.semantics.is_empty());
}

#[test]
fn missing_optional_ibm_instance_usage_stays_absent() {
    let provider_usage = instance_usage("instance-123", "plan-1", 0.0);

    let record = account_usage_from_instance_usage(&provider_usage);

    assert!(record.period_start.is_none());
    assert!(record.period_end.is_none());
    assert_eq!(record.usage.len(), 1);
    assert!(record
        .usage
        .iter()
        .all(|metric| metric.name != "ibm.instance.usage_limit"));
    assert!(record
        .usage
        .iter()
        .all(|metric| metric.name != "ibm.instance.usage_allocation"));
    assert!(metadata_get(&record.provider_metadata, "ibm.usage_limit_reached").is_none());
    assert!(metadata_get(&record.provider_metadata, "ibm.time_available_at").is_none());
}

#[test]
fn account_metadata_is_in_key_order_and_false_is_written() {
    let mut provider_usage = instance_usage("i", "p", 1.5);
    provider_usage.usage_limit_reached = Some(false);
    provider_usage.time_available_at = Some("later".to_string());
    provider_usage.usage_allocation_seconds = Some(7.0f64.to_bits());
    let record = account_usage_from_instance_usage(&provider_usage);
    let keys: Vec<&str> = record.provider_metadata.iter().map(|(k, _)| k.as_str()).collect();
    assert_eq!(keys, vec!["ibm.plan_id", "ibm.time_available_at", "ibm.usage_limit_reached"]);
    let mut sorted = keys.clone();
    sorted.sort();
    assert_eq!(keys, sorted);
    assert_eq!(metadata_get(&record.provider_metadata, "ibm.usage_limit_reached"), Some("false"));
    let names: Vec<&str> = record.usage.iter().map(|m| m.name.as_str()).collect();
    assert_eq!(names, vec!["ibm.instance.usage_consumed", "ibm.instance.usage_allocation"]);
    assert_eq!(value(record.usage[1].value_bits), 7.0);
}
