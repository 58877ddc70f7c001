//! Data models shared by every resource: usage records, task states,
//! payloads and the results a resource returns.

use vstd::prelude::*;
use vstd::string::*;
use crate::text::{debug_text, debug_quoted, decimal_text, decimal_i32, bool_text};

verus! {

broadcast use vstd::string::group_string_axioms;

/// Schema version for serialized [`AccountUsage`] records.
pub const ACCOUNT_USAGE_SCHEMA_VERSION: u16 = 1;

/// One authoritative provider-reported accounting or usage quantity.
///
/// `name` may be provider-namespaced; `semantics` records what the provider
/// says the quantity means. The numeric value is kept exactly as the
/// provider client represented it, as the bit pattern of its IEEE 754
/// double, so that no conversion can alter it.
#[derive(Debug, Clone, PartialEq, Eq)]
pub struct UsageMetric {
    /// Stable or provider-namespaced metric name.
    pub name: String,
    /// Bit pattern of the numeric value reported by the provider client.
    pub value_bits: u64,
    /// Provider unit, or `count` for count metrics.
    pub unit: String,
    /// Provider-defined meaning of this quantity.
    pub semantics: String,
}

/// A usage metric as plain values.
pub struct UsageMetricView {
    pub name: Seq<char>,
    pub value_bits: u64,
    pub unit: Seq<char>,
    pub semantics: Seq<char>,
}

impl View for UsageMetric {
    type V = UsageMetricView;

    open spec fn view(&self) -> UsageMetricView {
        UsageMetricView {
            name: self.name@,
            value_bits: self.value_bits,
            unit: self.unit@,
            semantics: self.semantics@,
        }
    }
}

/// The views of a sequence of metrics.
pub open spec fn metrics_view(ms: Seq<UsageMetric>) -> Seq<UsageMetricView> {
    ms.map_values(|m: UsageMetric| m@)
}

/// Completeness of provider-reported task accounting data.
#[derive(Debug, Clone, Copy, PartialEq, Eq, Structural)]
pub enum AccountingStatus {
    /// Provider says accounting data is still being finalized.
    Pending,
    /// Provider says accounting data is final.
    Final,
}

/// Provider-reported usage information for one task.
#[derive(Debug, Clone, PartialEq, Eq)]
pub struct TaskUsage {
    /// Provider task identifier.
    pub task_id: String,
    /// Timestamp at which the task was created, if reported.
    pub created: Option<String>,
    /// Timestamp at which the task started running, if reported.
    pub running: Option<String>,
    /// Timestamp at which the task finished, if reported.
    pub finished: Option<String>,
    /// Provider-reported accounting completeness, if reported.
    pub accounting_status: Option<AccountingStatus>,
    /// Authoritative provider-reported usage quantities.
    pub metrics: Vec<UsageMetric>,
}

/// Provider usage for the provider-side accounting scope of a provider.
#[derive(Debug, Clone, PartialEq, Eq)]
pub struct AccountUsage {
    /// Logical schema version for serialized records.
    pub schema_version: u16,
    /// Provider or resource type that produced this record.
    pub provider_type: String,
    /// Opaque provider-side accounting-scope identifier.
    pub account_id: String,
    /// Provider-reported usage-period start, if available.
    pub period_start: Option<String>,
    /// Provider-reported usage-period end, if available.
    pub period_end: Option<String>,
    /// Authoritative provider-reported numeric accounting quantities.
    pub usage: Vec<UsageMetric>,
    /// Namespaced provider facts, as (key, value) pairs in ascending key
    /// order with no key twice.
    pub provider_metadata: Vec<(String, String)>,
}

/// The views of a sequence of (key, value) string pairs.
pub open spec fn pairs_view(ps: Seq<(String, String)>) -> Seq<(Seq<char>, Seq<char>)> {
    ps.map_values(|p: (String, String)| (p.0@, p.1@))
}

/// Status of a task as QRMI reports it.
#[derive(Debug, Clone, Copy, PartialEq, Eq, Structural)]
pub enum TaskStatus {
    Queued,
    Running,
    Completed,
    Failed,
    Cancelled,
}

/// The types of resource this library names.
#[derive(Debug, Clone, Copy, PartialEq, Eq, Structural)]
pub enum ResourceType {
    /// IBM Qiskit Runtime Service (deprecated name of the compute service).
    QiskitRuntimeService,
    /// IBM Quantum System.
    IBMQuantumSystem,
    /// IBM Quantum Compute Service.
    IBMQuantumComputeService,
}

/// The name under which a resource type is configured.
pub open spec fn resource_type_name(t: ResourceType) -> Seq<char> {
    match t {
        ResourceType::QiskitRuntimeService => "qiskit-runtime-service"@,
        ResourceType::IBMQuantumSystem => "ibm-quantum-system"@,
        ResourceType::IBMQuantumComputeService => "ibm-quantum-compute-service"@,
    }
}

impl ResourceType {
    /// The name under which this resource type is configured.
    pub fn as_str(&self) -> (r: &'static str)
        ensures
            r@ == resource_type_name(*self),
    {
        match self {
            ResourceType::QiskitRuntimeService => "qiskit-runtime-service",
            ResourceType::IBMQuantumSystem => "ibm-quantum-system",
            ResourceType::IBMQuantumComputeService => "ibm-quantum-compute-service",
        }
    }
}

/// Payload handed to a resource to start a task.
#[derive(Debug, Clone, PartialEq, Eq)]
pub enum Payload {
    /// Qiskit primitive input.
    QiskitPrimitive {
        /// Primitive input.
        input: String,
        /// Program to run, such as "estimator" or "sampler".
        program_id: String,
    },
    /// Payload for Pasqal Cloud.
    PasqalCloud {
        /// Pulser sequence.
        sequence: String,
        /// Number of job runs.
        job_runs: i32,
    },
    /// Payload for Alice & Bob Felis.
    AliceBobFelis {
        /// Human-readable QIR input.
        human_qir: String,
        /// Input parameters in JSON format.
        input_params: String,
    },
    /// Payload for IQM Server.
    IQMServer {
        /// IQM JSON request body.
        iqmjson: String,
        /// Job type (circuit, run, sweep).
        job_type: String,
        /// Optional user-defined tag associated with the job.
        tag: Option<String>,
        /// Whether to submit the job to the timeslot queue.
        use_timeslot: Option<bool>,
    },
}

/// An optional text as `{:?}` writes it.
pub open spec fn optional_text_debug(o: Option<String>) -> Seq<char> {
    match o {
        Some(t) => "Some("@ + debug_quoted(t@) + ")"@,
        None => "None"@,
    }
}

/// An optional flag as `{:?}` writes it.
pub open spec fn optional_flag_debug(o: Option<bool>) -> Seq<char> {
    match o {
        Some(b) => "Some("@ + bool_text(b) + ")"@,
        None => "None"@,
    }
}

/// A payload as `{:?}` writes it: the variant's name, then its fields in
/// braces, each as `name: value` with the value itself as `{:?}` writes it.
pub open spec fn payload_description(p: Payload) -> Seq<char> {
    match p {
        Payload::QiskitPrimitive { input, program_id } =>
            "QiskitPrimitive { input: "@ + debug_quoted(input@) + ", program_id: "@
                + debug_quoted(program_id@) + " }"@,
        Payload::PasqalCloud { sequence, job_runs } =>
            "PasqalCloud { sequence: "@ + debug_quoted(sequence@) + ", job_runs: "@
                + decimal_i32(job_runs) + " }"@,
        Payload::AliceBobFelis { human_qir, input_params } =>
            "AliceBobFelis { human_qir: "@ + debug_quoted(human_qir@) + ", input_params: "@
                + debug_quoted(input_params@) + " }"@,
        Payload::IQMServer { iqmjson, job_type, tag, use_timeslot } =>
            "IQMServer { iqmjson: "@ + debug_quoted(iqmjson@) + ", job_type: "@
                + debug_quoted(job_type@) + ", tag: "@ + optional_text_debug(tag) + ", use_timeslot: "@
                + optional_flag_debug(use_timeslot) + " }"@,
    }
}

/// Appends an optional text as `{:?}` writes it.
fn append_optional_text(out: &mut String, o: &Option<String>)
    ensures
        final(out)@ == old(out)@ + optional_text_debug(*o),
{
    match o {
        Some(t) => {
            out.append("Some(");
            out.append(debug_text(t.as_str()).as_str());
            out.append(")");
        },
        None => out.append("None"),
    }
    assert(out@ =~= old(out)@ + optional_text_debug(*o));
}

/// Appends an optional flag as `{:?}` writes it.
fn append_optional_flag(out: &mut String, o: Option<bool>)
    ensures
        final(out)@ == old(out)@ + optional_flag_debug(o),
{
    match o {
        Some(b) => {
            out.append("Some(");
            out.append(if b { "true" } else { "false" });
            out.append(")");
        },
        None => out.append("None"),
    }
    assert(out@ =~= old(out)@ + optional_flag_debug(o));
}

impl Payload {
    /// The payload as `{:?}` writes it; a resource that cannot run a
    /// payload reports it in this form.
    pub fn description(&self) -> (r: String)
        ensures
            r@ == payload_description(*self),
    {
        let mut r = String::new();
        match self {
            Payload::QiskitPrimitive { input, program_id } => {
                r.append("QiskitPrimitive { input: ");
                r.append(debug_text(input.as_str()).as_str());
                r.append(", program_id: ");
                r.append(debug_text(program_id.as_str()).as_str());
                r.append(" }");
            },
            Payload::PasqalCloud { sequence, job_runs } => {
                r.append("PasqalCloud { sequence: ");
                r.append(debug_text(sequence.as_str()).as_str());
                r.append(", job_runs: ");
                r.append(decimal_text(*job_runs).as_str());
                r.append(" }");
            },
            Payload::AliceBobFelis { human_qir, input_params } => {
                r.append("AliceBobFelis { human_qir: ");
                r.append(debug_text(human_qir.as_str()).as_str());
                r.append(", input_params: ");
                r.append(debug_text(input_params.as_str()).as_str());
                r.append(" }");
            },
            Payload::IQMServer { iqmjson, job_type, tag, use_timeslot } => {
                r.append("IQMServer { iqmjson: ");
                r.append(debug_text(iqmjson.as_str()).as_str());
                r.append(", job_type: ");
                r.append(debug_text(job_type.as_str()).as_str());
                r.append(", tag: ");
                append_optional_text(&mut r, tag);
                r.append(", use_timeslot: ");
                append_optional_flag(&mut r, *use_timeslot);
                r.append(" }");
            },
        }
        assert(r@ =~= payload_description(*self));
        r
    }
}

/// Builds the IQM Server payload a C host describes: the flag `1` asks for
/// the timeslot queue and every other value for the default queue.
pub fn iqm_server_payload(iqmjson: String, job_type: String, tag: Option<String>, use_timeslot: i32) -> (p: Payload)
    ensures
        p == (Payload::IQMServer {
            iqmjson: iqmjson,
            job_type: job_type,
            tag: tag,
            use_timeslot: Some(use_timeslot == 1),
        }),
{
    let flag = match use_timeslot {
        1 => Some(true),
        _ => Some(false),
    };
    Payload::IQMServer { iqmjson, job_type, tag, use_timeslot: flag }
}

/// A payload as a C host describes it. Each text field holds the string a
/// pointer leads to, or nothing where that string is not valid UTF-8; the
/// IQM tag is also absent where the host passes no tag.
#[derive(Debug, Clone, PartialEq, Eq)]
pub enum CPayload {
    QiskitPrimitive { input: Option<String>, program_id: Option<String> },
    PasqalCloud { sequence: Option<String>, job_runs: i32 },
    AliceBobFelis { human_qir: Option<String>, input_params: Option<String> },
    IQMServer { iqmjson: Option<String>, job_type: Option<String>, tag: Option<String>, use_timeslot: i32 },
}

/// The payload a C host's description stands for: none where a required
/// text is not valid UTF-8.
pub open spec fn payload_of_c(p: CPayload) -> Option<Payload> {
    match p {
        CPayload::QiskitPrimitive { input: Some(input), program_id: Some(program_id) } =>
            Some(Payload::QiskitPrimitive { input, program_id }),
        CPayload::PasqalCloud { sequence: Some(sequence), job_runs } =>
            Some(Payload::PasqalCloud { sequence, job_runs }),
        CPayload::AliceBobFelis { human_qir: Some(human_qir), input_params: Some(input_params) } =>
            Some(Payload::AliceBobFelis { human_qir, input_params }),
        CPayload::IQMServer { iqmjson: Some(iqmjson), job_type: Some(job_type), tag, use_timeslot } =>
            Some(Payload::IQMServer { iqmjson, job_type, tag, use_timeslot: Some(use_timeslot == 1) }),
        _ => None,
    }
}

/// Converting a C payload keeps the variant and puts each value in the
/// field of the same name: every text, number and tag as given, and the
/// timeslot flag set exactly when the host passes `1`. The conversion gives
/// nothing exactly when a required text is not valid UTF-8.
pub proof fn c_payload_keeps_each_field(c: CPayload)
    ensures
        c matches CPayload::QiskitPrimitive { input: Some(ci), program_id: Some(cp) } ==> (payload_of_c(c) matches Some(
            Payload::QiskitPrimitive { input, program_id },
        ) && input == ci && program_id == cp),
        c matches CPayload::PasqalCloud { sequence: Some(cs), job_runs: cn } ==> (payload_of_c(c) matches Some(
            Payload::PasqalCloud { sequence, job_runs },
        ) && sequence == cs && job_runs == cn),
        c matches CPayload::AliceBobFelis { human_qir: Some(ch), input_params: Some(cp) } ==> (payload_of_c(c) matches Some(
            Payload::AliceBobFelis { human_qir, input_params },
        ) && human_qir == ch && input_params == cp),
        c matches CPayload::IQMServer { iqmjson: Some(cj), job_type: Some(ct), tag: ctag, use_timeslot: cu } ==> (
            payload_of_c(c) matches Some(Payload::IQMServer { iqmjson, job_type, tag, use_timeslot }) && iqmjson == cj
                && job_type == ct && tag == ctag && (use_timeslot == Some(cu == 1))),
        payload_of_c(c) is None <==> (
            (c matches CPayload::QiskitPrimitive { input, program_id } && (input is None || program_id is None))
            || (c matches CPayload::PasqalCloud { sequence, .. } && sequence is None)
            || (c matches CPayload::AliceBobFelis { human_qir, input_params } && (human_qir is None || input_params is None))
            || (c matches CPayload::IQMServer { iqmjson, job_type, .. } && (iqmjson is None || job_type is None))),
{
}

/// Converts a C host's description of a payload into the payload.
pub fn payload_from_c(p: CPayload) -> (r: Option<Payload>)
    ensures
        r == payload_of_c(p),
{
    match p {
        CPayload::QiskitPrimitive { input: Some(input), program_id: Some(program_id) } =>
            Some(Payload::QiskitPrimitive { input, program_id }),
        CPayload::PasqalCloud { sequence: Some(sequence), job_runs } =>
            Some(Payload::PasqalCloud { sequence, job_runs }),
        CPayload::AliceBobFelis { human_qir: Some(human_qir), input_params: Some(input_params) } =>
            Some(Payload::AliceBobFelis { human_qir, input_params }),
        CPayload::IQMServer { iqmjson: Some(iqmjson), job_type: Some(job_type), tag, use_timeslot } =>
            Some(iqm_server_payload(iqmjson, job_type, tag, use_timeslot)),
        _ => None,
    }
}

/// Vendor-specific serialized description of a device.
#[derive(Debug, Clone, PartialEq, Eq)]
pub struct Target {
    pub value: String,
}

/// Serialized result of a task.
#[derive(Debug, Clone, PartialEq, Eq)]
pub struct TaskResult {
    pub value: String,
}

} // verus!
