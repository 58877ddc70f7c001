//! The IBM Quantum Compute Service resource: its settings, read from the
//! environment, and the decisions it takes around each call to the service.
//! The calls themselves are made by the caller, which hands back what the
//! service answered.

use vstd::prelude::*;
use vstd::string::*;
use crate::error::{QrmiError, QrmiErrorKind, error_kind};
use crate::jobs::LogLevel;
use crate::models::{Payload, ResourceType, TaskStatus, payload_description};
use crate::string_map::StringMap;
use crate::text::{str_eq, to_lowercase, lowercase, parse_i32, parsed_i32, debug_text, debug_quoted, clone_opt, all_ascii, ascii_lower};

verus! {

broadcast use vstd::string::group_string_axioms;

/// The environment variables that configure a compute service resource;
/// each is read under the resource name, an underscore and its suffix.
#[derive(Debug, Clone, Copy, PartialEq, Eq, Structural)]
pub enum ServiceEnvVar {
    Endpoint,
    IamEndpoint,
    IamApiKey,
    ServiceCrn,
    SessionMode,
    SessionMaxTtl,
    TimeoutSeconds,
    JobTimeoutSeconds,
    SessionId,
    JobAcquisitionToken,
}

/// The suffix under which a variable is read.
pub open spec fn env_var_suffix(v: ServiceEnvVar) -> Seq<char> {
    match v {
        ServiceEnvVar::Endpoint => "QRMI_IBM_QCS_ENDPOINT"@,
        ServiceEnvVar::IamEndpoint => "QRMI_IBM_QCS_IAM_ENDPOINT"@,
        ServiceEnvVar::IamApiKey => "QRMI_IBM_QCS_IAM_APIKEY"@,
        ServiceEnvVar::ServiceCrn => "QRMI_IBM_QCS_SERVICE_CRN"@,
        ServiceEnvVar::SessionMode => "QRMI_IBM_QCS_SESSION_MODE"@,
        ServiceEnvVar::SessionMaxTtl => "QRMI_IBM_QCS_SESSION_MAX_TTL"@,
        ServiceEnvVar::TimeoutSeconds => "QRMI_IBM_QCS_TIMEOUT_SECONDS"@,
        ServiceEnvVar::JobTimeoutSeconds => "QRMI_JOB_TIMEOUT_SECONDS"@,
        ServiceEnvVar::SessionId => "QRMI_IBM_QCS_SESSION_ID"@,
        ServiceEnvVar::JobAcquisitionToken => "QRMI_JOB_ACQUISITION_TOKEN"@,
    }
}

/// The full name of a variable for one resource.
pub open spec fn env_var_name(backend_name: Seq<char>, v: ServiceEnvVar) -> Seq<char> {
    backend_name + "_"@ + env_var_suffix(v)
}

impl ServiceEnvVar {
    /// The suffix under which the variable is read.
    pub fn suffix(&self) -> (s: &'static str)
        ensures
            s@ == env_var_suffix(*self),
    {
        match self {
            ServiceEnvVar::Endpoint => "QRMI_IBM_QCS_ENDPOINT",
            ServiceEnvVar::IamEndpoint => "QRMI_IBM_QCS_IAM_ENDPOINT",
            ServiceEnvVar::IamApiKey => "QRMI_IBM_QCS_IAM_APIKEY",
            ServiceEnvVar::ServiceCrn => "QRMI_IBM_QCS_SERVICE_CRN",
            ServiceEnvVar::SessionMode => "QRMI_IBM_QCS_SESSION_MODE",
            ServiceEnvVar::SessionMaxTtl => "QRMI_IBM_QCS_SESSION_MAX_TTL",
            ServiceEnvVar::TimeoutSeconds => "QRMI_IBM_QCS_TIMEOUT_SECONDS",
            ServiceEnvVar::JobTimeoutSeconds => "QRMI_JOB_TIMEOUT_SECONDS",
            ServiceEnvVar::SessionId => "QRMI_IBM_QCS_SESSION_ID",
            ServiceEnvVar::JobAcquisitionToken => "QRMI_JOB_ACQUISITION_TOKEN",
        }
    }

    /// The full name of the variable for the resource `backend_name`.
    pub fn name_for(&self, backend_name: &str) -> (s: String)
        ensures
            s@ == env_var_name(backend_name@, *self),
    {
        let mut s = backend_name.to_string();
        s.append("_");
        s.append(self.suffix());
        s
    }
}

/// The values of the configuring variables of one resource, each absent
/// where the variable is not set.
#[derive(Debug, Clone)]
pub struct ServiceEnvironment {
    pub endpoint: Option<String>,
    pub iam_endpoint: Option<String>,
    pub iam_apikey: Option<String>,
    pub service_crn: Option<String>,
    pub session_mode: Option<String>,
    pub session_max_ttl: Option<String>,
    pub timeout_seconds: Option<String>,
    pub job_timeout_seconds: Option<String>,
    pub session_id: Option<String>,
    pub job_acquisition_token: Option<String>,
}

/// The value stored under a key of a map of strings.
pub open spec fn map_value(m: Map<Seq<char>, Seq<char>>, k: Seq<char>) -> Option<Seq<char>> {
    if m.contains_key(k) {
        Some(m[k])
    } else {
        None
    }
}

/// The view of an optional string.
pub open spec fn opt_view(o: Option<String>) -> Option<Seq<char>> {
    match o {
        Some(s) => Some(s@),
        None => None,
    }
}

impl ServiceEnvironment {
    /// What the environment holds for the resource `backend_name`, each
    /// variable looked up under its full name.
    pub open spec fn read_from(self, backend_name: Seq<char>, env: Map<Seq<char>, Seq<char>>) -> bool {
        &&& opt_view(self.endpoint) == map_value(env, env_var_name(backend_name, ServiceEnvVar::Endpoint))
        &&& opt_view(self.iam_endpoint) == map_value(env, env_var_name(backend_name, ServiceEnvVar::IamEndpoint))
        &&& opt_view(self.iam_apikey) == map_value(env, env_var_name(backend_name, ServiceEnvVar::IamApiKey))
        &&& opt_view(self.service_crn) == map_value(env, env_var_name(backend_name, ServiceEnvVar::ServiceCrn))
        &&& opt_view(self.session_mode) == map_value(env, env_var_name(backend_name, ServiceEnvVar::SessionMode))
        &&& opt_view(self.session_max_ttl) == map_value(env, env_var_name(backend_name, ServiceEnvVar::SessionMaxTtl))
        &&& opt_view(self.timeout_seconds) == map_value(env, env_var_name(backend_name, ServiceEnvVar::TimeoutSeconds))
        &&& opt_view(self.job_timeout_seconds) == map_value(env, env_var_name(backend_name, ServiceEnvVar::JobTimeoutSeconds))
        &&& opt_view(self.session_id) == map_value(env, env_var_name(backend_name, ServiceEnvVar::SessionId))
        &&& opt_view(self.job_acquisition_token) == map_value(env, env_var_name(backend_name, ServiceEnvVar::JobAcquisitionToken))
    }

    /// Looks up every configuring variable of the resource `backend_name`
    /// in `env`.
    pub fn lookup(backend_name: &str, env: &StringMap) -> (r: ServiceEnvironment)
        ensures
            r.read_from(backend_name@, env@),
    {
        ServiceEnvironment {
            endpoint: env.get(ServiceEnvVar::Endpoint.name_for(backend_name).as_str()),
            iam_endpoint: env.get(ServiceEnvVar::IamEndpoint.name_for(backend_name).as_str()),
            iam_apikey: env.get(ServiceEnvVar::IamApiKey.name_for(backend_name).as_str()),
            service_crn: env.get(ServiceEnvVar::ServiceCrn.name_for(backend_name).as_str()),
            session_mode: env.get(ServiceEnvVar::SessionMode.name_for(backend_name).as_str()),
            session_max_ttl: env.get(ServiceEnvVar::SessionMaxTtl.name_for(backend_name).as_str()),
            timeout_seconds: env.get(ServiceEnvVar::TimeoutSeconds.name_for(backend_name).as_str()),
            job_timeout_seconds: env.get(ServiceEnvVar::JobTimeoutSeconds.name_for(backend_name).as_str()),
            session_id: env.get(ServiceEnvVar::SessionId.name_for(backend_name).as_str()),
            job_acquisition_token: env.get(ServiceEnvVar::JobAcquisitionToken.name_for(backend_name).as_str()),
        }
    }
}

/// The first required variable that is not set, in the order endpoint, IAM
/// endpoint, IAM API key, service CRN.
pub open spec fn first_missing_required(env: ServiceEnvironment) -> Option<ServiceEnvVar> {
    if env.endpoint is None {
        Some(ServiceEnvVar::Endpoint)
    } else if env.iam_endpoint is None {
        Some(ServiceEnvVar::IamEndpoint)
    } else if env.iam_apikey is None {
        Some(ServiceEnvVar::IamApiKey)
    } else if env.service_crn is None {
        Some(ServiceEnvVar::ServiceCrn)
    } else {
        None
    }
}

/// The session mode configured: the variable's value, `dedicated` by default.
pub open spec fn configured_session_mode(env: ServiceEnvironment) -> Seq<char> {
    match env.session_mode {
        Some(m) => m@,
        None => "dedicated"@,
    }
}

/// The session time to live configured: the variable's value where it is
/// an `i32`, 28800 seconds otherwise.
pub open spec fn configured_session_max_ttl(env: ServiceEnvironment) -> i32 {
    match env.session_max_ttl {
        Some(t) => match parsed_i32(t@) {
            Some(v) => v,
            None => 28800,
        },
        None => 28800,
    }
}

/// The job timeout configured: the service-specific variable where set,
/// the generic job timeout otherwise; absent where the value chosen is not
/// an `i32`.
pub open spec fn configured_timeout_secs(env: ServiceEnvironment) -> Option<i32> {
    let chosen = match env.timeout_seconds {
        Some(t) => Some(t),
        None => env.job_timeout_seconds,
    };
    match chosen {
        Some(t) => parsed_i32(t@),
        None => None,
    }
}

/// The session configured: the service-specific session identifier where
/// set, the job acquisition token otherwise.
pub open spec fn configured_session_id(env: ServiceEnvironment) -> Option<String> {
    match env.session_id {
        Some(s) => Some(s),
        None => env.job_acquisition_token,
    }
}

/// How the configuring variables are read: a required variable is reported
/// missing only when it is unset and every required variable before it is
/// set; the session mode is the variable's value, `dedicated` when unset;
/// the session lifetime is the variable's value where it parses, 28800
/// otherwise; the session is the service-specific session where set,
/// whatever the acquisition token holds, and the acquisition token only
/// where it is not.
pub proof fn service_configuration_reads(env: ServiceEnvironment, token: Option<String>)
    ensures
        first_missing_required(env) is None <==> (env.endpoint is Some && env.iam_endpoint is Some
            && env.iam_apikey is Some && env.service_crn is Some),
        first_missing_required(env) == Some(ServiceEnvVar::Endpoint) <==> env.endpoint is None,
        first_missing_required(env) == Some(ServiceEnvVar::IamEndpoint) <==> (env.endpoint is Some && env.iam_endpoint is None),
        first_missing_required(env) == Some(ServiceEnvVar::IamApiKey) <==> (env.endpoint is Some && env.iam_endpoint is Some
            && env.iam_apikey is None),
        first_missing_required(env) == Some(ServiceEnvVar::ServiceCrn) <==> (env.endpoint is Some && env.iam_endpoint is Some
            && env.iam_apikey is Some && env.service_crn is None),
        env.session_mode matches Some(m) ==> configured_session_mode(env) == m@,
        env.session_mode is None ==> configured_session_mode(env) == "dedicated"@,
        forall|t: String, v: i32| env.session_max_ttl == Some(t) && parsed_i32(t@) == Some(v)
            ==> configured_session_max_ttl(env) == v,
        !(env.session_max_ttl matches Some(t) && parsed_i32(t@) is Some) ==> configured_session_max_ttl(env) == 28800,
        env.session_id is Some ==> configured_session_id(env) == env.session_id
            && configured_session_id(ServiceEnvironment { job_acquisition_token: token, ..env }) == env.session_id,
        env.session_id is None ==> configured_session_id(env) == env.job_acquisition_token,
{
}

/// A job's status is reported as the task status of the same name, both
/// kinds of cancellation as cancelled: the task is completed, failed,
/// queued or running exactly when the job is, and cancelled exactly when
/// the job was cancelled or ran too long.
pub proof fn task_status_follows_job_status(s: JobResponseStatus)
    ensures
        task_status_of(s) == TaskStatus::Completed <==> s == JobResponseStatus::Completed,
        task_status_of(s) == TaskStatus::Failed <==> s == JobResponseStatus::Failed,
        task_status_of(s) == TaskStatus::Queued <==> s == JobResponseStatus::Queued,
        task_status_of(s) == TaskStatus::Running <==> s == JobResponseStatus::Running,
        task_status_of(s) == TaskStatus::Cancelled <==> (s == JobResponseStatus::Cancelled
            || s == JobResponseStatus::CancelledRanTooLong),
{
}

/// A session is kept exactly while its remaining active lifetime is more
/// than a hundredth of its maximum lifetime: for a maximum `m` that is not
/// negative, exactly when `m < 100 * a` for remaining lifetime `a`. Keeping
/// is monotone in the remaining lifetime, and a figure the service does not
/// report counts as 1.
pub proof fn session_reuse_threshold(a: i32, b: i32, m: i32, max_ttl: Option<i32>)
    ensures
        m >= 0 ==> (reusable_session(Some(a), Some(m)) <==> (m as int) < 100 * (a as int)),
        m < 0 ==> (reusable_session(Some(a), Some(m)) <==> (m as int) <= 100 * (a as int) - 100),
        reusable_session(Some(a), max_ttl) && a <= b ==> reusable_session(Some(b), max_ttl),
        reusable_session(None, max_ttl) == reusable_session(Some(1), max_ttl),
        reusable_session(Some(a), None) == reusable_session(Some(a), Some(1)),
{
    let mi = m as int;
    let ai = a as int;
    if m >= 0 {
        assert((mi / 100 < ai) <==> (mi < 100 * ai)) by (nonlinear_arith)
            requires mi >= 0;
    } else {
        assert((-((-mi) / 100) < ai) <==> (mi <= 100 * ai - 100)) by (nonlinear_arith)
            requires mi < 0;
    }
}

/// Execution mode of a session.
#[derive(Debug, Clone, Copy, PartialEq, Eq, Structural)]
pub enum SessionMode {
    Batch,
    Dedicated,
}

/// Errors particular to the compute service.
#[derive(Debug, Clone, PartialEq, Eq)]
pub enum IbmError {
    /// The configured session mode is neither `batch` nor `dedicated`;
    /// holds the mode in lower case.
    InvalidSessionMode(String),
    /// The program to run is not one the service knows; holds its name as
    /// `Debug` writes it.
    UnknownProgramId(String),
}

/// The library error a compute service error is reported as: a session
/// mode is a configuration value, a program name an input value.
pub open spec fn ibm_error_report(e: IbmError) -> QrmiError {
    match e {
        IbmError::InvalidSessionMode(m) => QrmiError::InvalidConfig(m),
        IbmError::UnknownProgramId(m) => QrmiError::InvalidInput(m),
    }
}

impl IbmError {
    /// The library error this error is reported as.
    pub fn into_qrmi_error(self) -> (r: QrmiError)
        ensures
            r == ibm_error_report(self),
    {
        match self {
            IbmError::InvalidSessionMode(m) => QrmiError::InvalidConfig(m),
            IbmError::UnknownProgramId(m) => QrmiError::InvalidInput(m),
        }
    }
}

/// Status of a job as the service reports it.
#[derive(Debug, Clone, Copy, PartialEq, Eq, Structural)]
pub enum JobResponseStatus {
    Queued,
    Running,
    Completed,
    Cancelled,
    CancelledRanTooLong,
    Failed,
}

/// The name under which `Debug` writes a job status.
pub open spec fn job_response_status_name(s: JobResponseStatus) -> Seq<char> {
    match s {
        JobResponseStatus::Queued => "Queued"@,
        JobResponseStatus::Running => "Running"@,
        JobResponseStatus::Completed => "Completed"@,
        JobResponseStatus::Cancelled => "Cancelled"@,
        JobResponseStatus::CancelledRanTooLong => "CancelledRanTooLong"@,
        JobResponseStatus::Failed => "Failed"@,
    }
}

impl JobResponseStatus {
    /// The name under which `Debug` writes this status.
    pub fn name(&self) -> (s: &'static str)
        ensures
            s@ == job_response_status_name(*self),
    {
        match self {
            JobResponseStatus::Queued => "Queued",
            JobResponseStatus::Running => "Running",
            JobResponseStatus::Completed => "Completed",
            JobResponseStatus::Cancelled => "Cancelled",
            JobResponseStatus::CancelledRanTooLong => "CancelledRanTooLong",
            JobResponseStatus::Failed => "Failed",
        }
    }
}

/// The task status a job status is reported as; both kinds of cancellation
/// are reported as cancelled.
pub open spec fn task_status_of(s: JobResponseStatus) -> TaskStatus {
    match s {
        JobResponseStatus::Queued => TaskStatus::Queued,
        JobResponseStatus::Running => TaskStatus::Running,
        JobResponseStatus::Completed => TaskStatus::Completed,
        JobResponseStatus::Cancelled => TaskStatus::Cancelled,
        JobResponseStatus::CancelledRanTooLong => TaskStatus::Cancelled,
        JobResponseStatus::Failed => TaskStatus::Failed,
    }
}

/// Maps the status of a job to the status of the task.
pub fn task_status_of_job(s: JobResponseStatus) -> (r: TaskStatus)
    ensures
        r == task_status_of(s),
{
    match s {
        JobResponseStatus::Queued => TaskStatus::Queued,
        JobResponseStatus::Running => TaskStatus::Running,
        JobResponseStatus::Completed => TaskStatus::Completed,
        JobResponseStatus::Cancelled | JobResponseStatus::CancelledRanTooLong => TaskStatus::Cancelled,
        JobResponseStatus::Failed => TaskStatus::Failed,
    }
}

/// Whether stopping a task must cancel its job: only a job that is still
/// running or queued is cancelled.
pub fn should_cancel_job(s: JobResponseStatus) -> (r: bool)
    ensures
        r == (s == JobResponseStatus::Running || s == JobResponseStatus::Queued),
{
    match s {
        JobResponseStatus::Running | JobResponseStatus::Queued => true,
        _ => false,
    }
}

/// The reason given when results are asked for a job that is not completed.
pub open spec fn not_completed_reason(s: JobResponseStatus) -> Seq<char> {
    "task is not completed (current status: "@ + job_response_status_name(s) + ")"@
}

/// Results can be fetched only for a completed job; for any other job the
/// task is reported as not ready, with its identifier and current status.
pub fn check_result_ready(task_id: &str, s: JobResponseStatus) -> (r: Result<(), QrmiError>)
    ensures
        s == JobResponseStatus::Completed ==> r is Ok,
        s != JobResponseStatus::Completed ==> (r matches Err(QrmiError::TaskNotReady { task_id: t, reason })
            && t@ == task_id@ && reason@ == not_completed_reason(s)),
{
    if s == JobResponseStatus::Completed {
        Ok(())
    } else {
        let mut reason = "task is not completed (current status: ".to_string();
        reason.append(s.name());
        reason.append(")");
        Err(QrmiError::TaskNotReady { task_id: task_id.to_string(), reason })
    }
}

/// Whether a backend whose status reads `lower` in lower case accepts work.
pub open spec fn accessible_status(lower: Seq<char>) -> bool {
    lower == "active"@ || lower == "online"@
}

/// Decides accessibility from a backend status already in lower case.
pub fn lowercase_status_is_accessible(lower: &str) -> (r: bool)
    ensures
        r == accessible_status(lower@),
{
    str_eq(lower, "active") || str_eq(lower, "online")
}

/// A backend is accessible when its reported status, in lower case, is
/// `active` or `online`; a missing status counts as `unknown`.
pub fn status_is_accessible(status: Option<&str>) -> (r: bool)
    ensures
        status matches Some(s) ==> r == accessible_status(lowercase(s@)),
        status is None ==> r == accessible_status(lowercase("unknown"@)),
{
    let s = match status {
        Some(s) => s,
        None => "unknown",
    };
    let lower = to_lowercase(s);
    lowercase_status_is_accessible(lower.as_str())
}

/// Whether an existing session can be reused for another acquisition: while
/// more than a hundredth of its maximum lifetime remains active. A missing
/// figure counts as 1; the hundredth is taken with integer division that
/// rounds toward zero.
pub open spec fn reusable_session(active_ttl: Option<i32>, max_ttl: Option<i32>) -> bool {
    let active = match active_ttl {
        Some(a) => a as int,
        None => 1,
    };
    let max = match max_ttl {
        Some(m) => m as int,
        None => 1,
    };
    let hundredth = if max >= 0 { max / 100 } else { -((-max) / 100) };
    hundredth < active
}

/// Decides whether the session the service reported can be kept.
pub fn should_reuse_session(active_ttl: Option<i32>, max_ttl: Option<i32>) -> (r: bool)
    ensures
        r == reusable_session(active_ttl, max_ttl),
{
    let active: i64 = match active_ttl {
        Some(a) => a as i64,
        None => 1,
    };
    let max: i64 = match max_ttl {
        Some(m) => m as i64,
        None => 1,
    };
    let hundredth: i64 = if max >= 0 { max / 100 } else { -((-max) / 100) };
    hundredth < active
}

/// The session mode a lower-case name selects.
pub fn session_mode_from_lowercase(lower: &str) -> (r: Result<SessionMode, IbmError>)
    ensures
        lower@ == "batch"@ ==> r == Ok::<SessionMode, IbmError>(SessionMode::Batch),
        lower@ == "dedicated"@ ==> r == Ok::<SessionMode, IbmError>(SessionMode::Dedicated),
        lower@ != "batch"@ && lower@ != "dedicated"@ ==> (r matches Err(IbmError::InvalidSessionMode(m)) && m@ == lower@),
{
    proof {
        reveal_strlit("batch");
        reveal_strlit("dedicated");
        assert("batch"@.len() != "dedicated"@.len());
    }
    if str_eq(lower, "batch") {
        Ok(SessionMode::Batch)
    } else if str_eq(lower, "dedicated") {
        Ok(SessionMode::Dedicated)
    } else {
        Err(IbmError::InvalidSessionMode(lower.to_string()))
    }
}

/// The session mode a configured name selects, compared in lower case.
pub fn session_mode_from_str(mode: &str) -> (r: Result<SessionMode, IbmError>)
    ensures
        lowercase(mode@) == "batch"@ ==> r == Ok::<SessionMode, IbmError>(SessionMode::Batch),
        lowercase(mode@) == "dedicated"@ ==> r == Ok::<SessionMode, IbmError>(SessionMode::Dedicated),
        lowercase(mode@) != "batch"@ && lowercase(mode@) != "dedicated"@ ==> (r matches Err(IbmError::InvalidSessionMode(m))
            && m@ == lowercase(mode@)),
        all_ascii(mode@) ==> lowercase(mode@) == mode@.map_values(|c: char| ascii_lower(c)),
{
    let lower = to_lowercase(mode);
    session_mode_from_lowercase(lower.as_str())
}

/// What to do with a session that is released: cancel it while it still
/// has pending jobs, close it otherwise.
#[derive(Debug, Clone, Copy, PartialEq, Eq, Structural)]
pub enum ReleaseAction {
    Cancel,
    Close,
}

/// Decides how to release a session from the pending jobs the service
/// listed for it, if it listed any.
pub fn release_action(pending_job_count: Option<usize>) -> (r: ReleaseAction)
    ensures
        r == (if pending_job_count matches Some(n) && n > 0 { ReleaseAction::Cancel } else { ReleaseAction::Close }),
{
    match pending_job_count {
        Some(n) => if n > 0 { ReleaseAction::Cancel } else { ReleaseAction::Close },
        None => ReleaseAction::Close,
    }
}

/// The request that opens a new session.
#[derive(Debug, Clone, PartialEq, Eq)]
pub struct CreateSessionRequest {
    pub max_ttl: Option<i32>,
    pub mode: SessionMode,
    pub backend: Option<String>,
    pub backend_name: Option<String>,
}

/// The primitive a job runs.
#[derive(Debug, Clone, Copy, PartialEq, Eq, Structural)]
pub enum PrimitiveKind {
    Sampler,
    Estimator,
    NoiseLearner,
}

/// The primitive a program name selects, if any.
pub open spec fn primitive_of(program_id: Seq<char>) -> Option<PrimitiveKind> {
    if program_id == "sampler"@ {
        Some(PrimitiveKind::Sampler)
    } else if program_id == "estimator"@ {
        Some(PrimitiveKind::Estimator)
    } else if program_id == "noiselearner"@ {
        Some(PrimitiveKind::NoiseLearner)
    } else {
        None
    }
}

/// Each known program name selects its own primitive: `sampler` the
/// sampler, `estimator` the estimator and `noiselearner` the noise learner;
/// no two program names select the same primitive, and a name selects one
/// only if it is one of these three.
pub proof fn program_names_select_their_primitives(a: Seq<char>, b: Seq<char>)
    ensures
        primitive_of("sampler"@) == Some(PrimitiveKind::Sampler),
        primitive_of("estimator"@) == Some(PrimitiveKind::Estimator),
        primitive_of("noiselearner"@) == Some(PrimitiveKind::NoiseLearner),
        primitive_of(a) is Some && primitive_of(a) == primitive_of(b) ==> a == b,
        primitive_of(a) is Some ==> (a == "sampler"@ || a == "estimator"@ || a == "noiselearner"@),
{
    reveal_strlit("sampler");
    reveal_strlit("estimator");
    reveal_strlit("noiselearner");
    assert("sampler"@.len() == 7);
    assert("estimator"@.len() == 9);
    assert("noiselearner"@.len() == 12);
}

/// The service-specific job timeout wins: where it is set, the configured
/// timeout is what its value parses to, whatever the generic job timeout
/// holds; the generic one is read only where the service-specific one is
/// absent, and with neither set there is no timeout.
pub proof fn service_timeout_takes_precedence(env: ServiceEnvironment, generic: Option<String>)
    ensures
        env.timeout_seconds matches Some(t) ==> configured_timeout_secs(env) == parsed_i32(t@),
        env.timeout_seconds is Some ==> configured_timeout_secs(ServiceEnvironment { job_timeout_seconds: generic, ..env })
            == configured_timeout_secs(env),
        env.timeout_seconds is None ==> (env.job_timeout_seconds matches Some(j) ==> configured_timeout_secs(env) == parsed_i32(j@)),
        env.timeout_seconds is None && env.job_timeout_seconds is None ==> configured_timeout_secs(env) is None,
{
}

/// Selects the primitive a program name stands for.
pub fn primitive_for_program(program_id: &str) -> (r: Option<PrimitiveKind>)
    ensures
        r == primitive_of(program_id@),
{
    if str_eq(program_id, "sampler") {
        Some(PrimitiveKind::Sampler)
    } else if str_eq(program_id, "estimator") {
        Some(PrimitiveKind::Estimator)
    } else if str_eq(program_id, "noiselearner") {
        Some(PrimitiveKind::NoiseLearner)
    } else {
        None
    }
}

/// The job a task start submits: the primitive and its raw input, which
/// the caller parses as that primitive's parameters, and the settings of the
/// resource.
#[derive(Debug, Clone, PartialEq, Eq)]
pub struct JobRequest {
    pub program_id: String,
    pub primitive: PrimitiveKind,
    pub input: String,
    pub backend: String,
    pub log_level: LogLevel,
    pub cost: Option<i32>,
    pub session_id: Option<String>,
    pub calibration_id: Option<String>,
    pub private: bool,
}

/// Why a task cannot be started.
#[derive(Debug, Clone, PartialEq, Eq)]
pub enum TaskStartRefusal {
    /// The payload is not a Qiskit primitive; it is handed back.
    UnsupportedPayload(Payload),
    /// The program is not one the service runs.
    Unknown(IbmError),
}

impl TaskStartRefusal {
    /// The library error this refusal is reported as: a payload the service
    /// cannot run is an unsupported payload, described as `{:?}` writes it;
    /// an unknown program is reported as its own error is.
    pub fn into_qrmi_error(self) -> (r: QrmiError)
        ensures
            self matches TaskStartRefusal::UnsupportedPayload(p) ==> (r matches QrmiError::UnsupportedPayload(m)
                && m@ == payload_description(p)),
            self matches TaskStartRefusal::UnsupportedPayload(_) ==> error_kind(r) == QrmiErrorKind::UnsupportedPayload,
            self matches TaskStartRefusal::Unknown(e) ==> r == ibm_error_report(e),
    {
        match self {
            TaskStartRefusal::UnsupportedPayload(p) => QrmiError::UnsupportedPayload(p.description()),
            TaskStartRefusal::Unknown(e) => e.into_qrmi_error(),
        }
    }
}

/// The library-side state of an IBM Quantum Compute Service resource.
#[derive(Debug, Clone)]
pub struct IBMQuantumComputeService {
    /// Service endpoint URL.
    pub endpoint: String,
    /// Cloud resource name of the service instance.
    pub service_crn: String,
    pub backend_name: String,
    pub session_id: Option<String>,
    pub calibration_id: Option<String>,
    pub timeout_secs: Option<i32>,
    pub session_mode: String,
    pub session_max_ttl: i32,
    pub api_key: String,
    pub iam_endpoint: String,
    pub token_expiration: u64,
    pub token_lifetime: u64,
}

/// The resource with its session replaced.
pub open spec fn with_session(s: IBMQuantumComputeService, session_id: Option<String>) -> IBMQuantumComputeService {
    IBMQuantumComputeService { session_id: session_id, ..s }
}

/// The metadata of a resource: its backend name, and its session while it
/// holds one.
pub open spec fn service_metadata(s: IBMQuantumComputeService) -> Map<Seq<char>, Seq<char>> {
    match s.session_id {
        Some(id) => map!["backend_name"@ => s.backend_name@, "session_id"@ => id@],
        None => map!["backend_name"@ => s.backend_name@],
    }
}

/// Acquiring a session makes the metadata report it, with the backend name
/// unchanged; releasing it removes it from the metadata again.
pub proof fn session_shows_in_metadata(s: IBMQuantumComputeService, id: String)
    ensures
        service_metadata(with_session(s, Some(id)))["session_id"@] == id@,
        service_metadata(with_session(s, Some(id)))["backend_name"@] == s.backend_name@,
        service_metadata(with_session(with_session(s, Some(id)), None)) == map!["backend_name"@ => s.backend_name@],
        !service_metadata(with_session(with_session(s, Some(id)), None)).contains_key("session_id"@),
{
    reveal_strlit("backend_name");
    reveal_strlit("session_id");
    assert("backend_name"@.len() != "session_id"@.len());
}

impl IBMQuantumComputeService {
    /// Builds a resource for `backend_name` from its configuring variables.
    /// Fails with the name of the first required variable that is not set.
    pub fn new(backend_name: &str, env: &ServiceEnvironment) -> (r: Result<IBMQuantumComputeService, QrmiError>)
        ensures
            first_missing_required(*env) matches Some(v) ==> (r matches Err(QrmiError::EnvVarNotSet(k))
                && k@ == env_var_name(backend_name@, v)),
            first_missing_required(*env) is None ==> (r matches Ok(s) && {
                &&& Some(s.endpoint) == env.endpoint
                &&& Some(s.iam_endpoint) == env.iam_endpoint
                &&& Some(s.api_key) == env.iam_apikey
                &&& Some(s.service_crn) == env.service_crn
                &&& s.backend_name@ == backend_name@
                &&& s.session_mode@ == configured_session_mode(*env)
                &&& s.session_max_ttl == configured_session_max_ttl(*env)
                &&& s.timeout_secs == configured_timeout_secs(*env)
                &&& s.session_id == configured_session_id(*env)
                &&& s.calibration_id is None
                &&& s.token_expiration == 0
                &&& s.token_lifetime == 0
            }),
    {
        let endpoint = match &env.endpoint {
            Some(v) => v.clone(),
            None => return Err(QrmiError::EnvVarNotSet(ServiceEnvVar::Endpoint.name_for(backend_name))),
        };
        let iam_endpoint = match &env.iam_endpoint {
            Some(v) => v.clone(),
            None => return Err(QrmiError::EnvVarNotSet(ServiceEnvVar::IamEndpoint.name_for(backend_name))),
        };
        let api_key = match &env.iam_apikey {
            Some(v) => v.clone(),
            None => return Err(QrmiError::EnvVarNotSet(ServiceEnvVar::IamApiKey.name_for(backend_name))),
        };
        let service_crn = match &env.service_crn {
            Some(v) => v.clone(),
            None => return Err(QrmiError::EnvVarNotSet(ServiceEnvVar::ServiceCrn.name_for(backend_name))),
        };
        let session_mode = match &env.session_mode {
            Some(m) => m.clone(),
            None => "dedicated".to_string(),
        };
        let session_max_ttl: i32 = match &env.session_max_ttl {
            Some(t) => match parse_i32(t.as_str()) {
                Some(v) => v,
                None => 28800,
            },
            None => 28800,
        };
        let chosen = match &env.timeout_seconds {
            Some(t) => Some(t),
            None => match &env.job_timeout_seconds {
                Some(t) => Some(t),
                None => None,
            },
        };
        let timeout_secs: Option<i32> = match chosen {
            Some(t) => parse_i32(t.as_str()),
            None => None,
        };
        let session_id = match &env.session_id {
            Some(s) => Some(s.clone()),
            None => clone_opt(&env.job_acquisition_token),
        };
        Ok(IBMQuantumComputeService {
            endpoint,
            service_crn,
            backend_name: backend_name.to_string(),
            session_id,
            calibration_id: None,
            timeout_secs,
            session_mode,
            session_max_ttl,
            api_key,
            iam_endpoint,
            token_expiration: 0,
            token_lifetime: 0,
        })
    }

    /// The resource identifier: the backend name.
    pub fn resource_id(&self) -> (r: String)
        ensures
            r@ == self.backend_name@,
    {
        self.backend_name.clone()
    }

    /// The resource type: the IBM Quantum Compute Service.
    pub fn resource_type(&self) -> (r: ResourceType)
        ensures
            r == ResourceType::IBMQuantumComputeService,
    {
        ResourceType::IBMQuantumComputeService
    }

    /// The request that opens a session for this backend, with the
    /// configured lifetime and mode; fails where the mode is unknown.
    pub fn create_session_request(&self) -> (r: Result<CreateSessionRequest, IbmError>)
        ensures
            lowercase(self.session_mode@) == "batch"@ ==> (r matches Ok(q) && q.mode == SessionMode::Batch),
            lowercase(self.session_mode@) == "dedicated"@ ==> (r matches Ok(q) && q.mode == SessionMode::Dedicated),
            r matches Ok(q) ==> q.max_ttl == Some(self.session_max_ttl) && q.backend == Some(self.backend_name)
                && q.backend_name == Some(self.backend_name),
            lowercase(self.session_mode@) != "batch"@ && lowercase(self.session_mode@) != "dedicated"@
                ==> (r matches Err(IbmError::InvalidSessionMode(m)) && m@ == lowercase(self.session_mode@)),
            all_ascii(self.session_mode@) ==> lowercase(self.session_mode@) == self.session_mode@.map_values(
                |c: char| ascii_lower(c),
            ),
    {
        let mode = session_mode_from_str(self.session_mode.as_str())?;
        Ok(CreateSessionRequest {
            max_ttl: Some(self.session_max_ttl),
            mode,
            backend: Some(self.backend_name.clone()),
            backend_name: Some(self.backend_name.clone()),
        })
    }

    /// Records the session the service opened; it becomes the session of
    /// every later job.
    pub fn on_session_created(&mut self, id: String)
        ensures
            *final(self) == with_session(*old(self), Some(id)),
    {
        self.session_id = Some(id);
    }

    /// Records that the session was released.
    pub fn on_released(&mut self)
        ensures
            *final(self) == with_session(*old(self), None),
    {
        self.session_id = None;
    }

    /// The job that starts a task for `payload`: only a Qiskit primitive
    /// whose program is a sampler, an estimator or a noise learner is run,
    /// with debug logging, the configured cost, session and calibration, and
    /// as a job that is not private.
    pub fn plan_task_start(&self, payload: Payload) -> (r: Result<JobRequest, TaskStartRefusal>)
        ensures
            !(payload is QiskitPrimitive) ==> r == Err::<JobRequest, TaskStartRefusal>(TaskStartRefusal::UnsupportedPayload(payload)),
            payload matches Payload::QiskitPrimitive { input, program_id } ==> {
                &&& primitive_of(program_id@) is None ==> (r matches Err(TaskStartRefusal::Unknown(IbmError::UnknownProgramId(m)))
                    && m@ == debug_quoted(program_id@))
                &&& primitive_of(program_id@) matches Some(k) ==> (r matches Ok(j) && j == (JobRequest {
                    program_id: program_id,
                    primitive: k,
                    input: input,
                    backend: self.backend_name,
                    log_level: LogLevel::Debug,
                    cost: self.timeout_secs,
                    session_id: self.session_id,
                    calibration_id: self.calibration_id,
                    private: false,
                }))
            },
    {
        match payload {
            Payload::QiskitPrimitive { input, program_id } => {
                match primitive_for_program(program_id.as_str()) {
                    Some(primitive) => Ok(JobRequest {
                        program_id,
                        primitive,
                        input,
                        backend: self.backend_name.clone(),
                        log_level: LogLevel::Debug,
                        cost: self.timeout_secs,
                        session_id: clone_opt(&self.session_id),
                        calibration_id: clone_opt(&self.calibration_id),
                        private: false,
                    }),
                    None => Err(TaskStartRefusal::Unknown(IbmError::UnknownProgramId(debug_text(program_id.as_str())))),
                }
            },
            other => Err(TaskStartRefusal::UnsupportedPayload(other)),
        }
    }

    /// The metadata of the resource: the backend name, and the session
    /// identifier while a session is held.
    pub fn metadata(&self) -> (r: StringMap)
        ensures
            r@ == service_metadata(*self),
    {
        let mut m = StringMap::new();
        m.insert("backend_name".to_string(), self.backend_name.clone());
        if let Some(session) = &self.session_id {
            m.insert("session_id".to_string(), session.clone());
        }
        proof {
            reveal_strlit("backend_name");
            reveal_strlit("session_id");
            assert("backend_name"@.len() != "session_id"@.len());
        }
        m
    }
}

/// Where the acquisition of a session stands.
#[derive(Debug, Clone, PartialEq, Eq)]
pub enum AcquireState {
    /// Nothing has been asked of the service yet.
    Start,
    /// The service was asked about the session held, named here.
    FetchingSession(String),
    /// The session held, named here, cannot be kept and is being released.
    Releasing(String),
    /// A new session is being created.
    Creating,
    /// The acquisition has ended.
    Done,
}

/// What the caller hands back to an acquisition: the signal to begin, or
/// what the service answered to the last call.
#[derive(Debug, Clone, PartialEq, Eq)]
pub enum AcquireEvent {
    Begin,
    /// The service reported the session held, with its remaining active
    /// lifetime and its maximum lifetime where it gave them.
    SessionFetched { active_ttl: Option<i32>, max_ttl: Option<i32> },
    /// The session held was released.
    Released,
    /// The service opened a session with this identifier.
    SessionCreated(String),
    /// The last call failed with this error.
    CallFailed(QrmiError),
}

/// The next thing an acquisition asks of its caller.
#[derive(Debug, PartialEq, Eq)]
pub enum AcquireAction {
    /// Ask the service about this session.
    FetchSession(String),
    /// Release this session, as a release of the resource does.
    ReleaseSession(String),
    /// Open a session with this request.
    CreateSession(CreateSessionRequest),
    /// Return this outcome.
    Finish(Result<String, QrmiError>),
}

/// The step that asks for a new session: the creation call with the
/// request for the configured mode, or the end of the acquisition with a
/// configuration error where the mode is neither batch nor dedicated.
pub open spec fn creation_step(s: IBMQuantumComputeService, r: Option<(AcquireState, AcquireAction)>) -> bool {
    let lower = lowercase(s.session_mode@);
    if lower == "batch"@ || lower == "dedicated"@ {
        r == Some((AcquireState::Creating, AcquireAction::CreateSession(CreateSessionRequest {
            max_ttl: Some(s.session_max_ttl),
            mode: if lower == "batch"@ { SessionMode::Batch } else { SessionMode::Dedicated },
            backend: Some(s.backend_name),
            backend_name: Some(s.backend_name),
        })))
    } else {
        r matches Some((AcquireState::Done, AcquireAction::Finish(Err(QrmiError::InvalidConfig(m))))) && m@ == lower
    }
}

/// One step of acquiring a session, from resource `s` in `state` on
/// `event` to resource `s2` and the next state and action `r`:
/// - on the start, a session held is looked up, and without one a session
///   is created;
/// - a session whose remaining lifetime is more than a hundredth of its
///   maximum is kept and returned; any other is released first;
/// - once released, the resource holds no session and a session is created;
/// - a created session is recorded and returned;
/// - a failed call ends the acquisition with its error and changes nothing;
/// - an event the state does not wait for is ignored (`r` is `None`).
pub open spec fn acquire_transition(
    s: IBMQuantumComputeService,
    state: AcquireState,
    event: AcquireEvent,
    s2: IBMQuantumComputeService,
    r: Option<(AcquireState, AcquireAction)>,
) -> bool {
    match state {
        AcquireState::Start => match event {
            AcquireEvent::Begin => s2 == s && match s.session_id {
                Some(id) => r == Some((AcquireState::FetchingSession(id), AcquireAction::FetchSession(id))),
                None => creation_step(s, r),
            },
            _ => s2 == s && r is None,
        },
        AcquireState::FetchingSession(id) => match event {
            AcquireEvent::SessionFetched { active_ttl, max_ttl } => s2 == s && if reusable_session(active_ttl, max_ttl) {
                r == Some((AcquireState::Done, AcquireAction::Finish(Ok(id))))
            } else {
                r == Some((AcquireState::Releasing(id), AcquireAction::ReleaseSession(id)))
            },
            AcquireEvent::CallFailed(e) => s2 == s && r == Some((AcquireState::Done, AcquireAction::Finish(Err(e)))),
            _ => s2 == s && r is None,
        },
        AcquireState::Releasing(_) => match event {
            AcquireEvent::Released => s2 == with_session(s, None) && creation_step(s, r),
            AcquireEvent::CallFailed(e) => s2 == s && r == Some((AcquireState::Done, AcquireAction::Finish(Err(e)))),
            _ => s2 == s && r is None,
        },
        AcquireState::Creating => match event {
            AcquireEvent::SessionCreated(id) => s2 == with_session(s, Some(id))
                && r == Some((AcquireState::Done, AcquireAction::Finish(Ok(id)))),
            AcquireEvent::CallFailed(e) => s2 == s && r == Some((AcquireState::Done, AcquireAction::Finish(Err(e)))),
            _ => s2 == s && r is None,
        },
        AcquireState::Done => s2 == s && r is None,
    }
}

/// What an acquisition in `state` knows of the session the resource holds:
/// while it looks up or releases a session, that session is held; while it
/// creates one, none is.
pub open spec fn acquire_consistent(s: IBMQuantumComputeService, state: AcquireState) -> bool {
    match state {
        AcquireState::FetchingSession(id) => s.session_id == Some(id),
        AcquireState::Releasing(id) => s.session_id == Some(id),
        AcquireState::Creating => s.session_id is None,
        _ => true,
    }
}

/// A session that the service reports with more than a hundredth of its
/// maximum lifetime still active is returned as it is: nothing is released
/// or created, and the resource is left unchanged.
pub proof fn acquire_keeps_live_session(
    s: IBMQuantumComputeService,
    id: String,
    active_ttl: Option<i32>,
    max_ttl: Option<i32>,
    s2: IBMQuantumComputeService,
    r: Option<(AcquireState, AcquireAction)>,
)
    requires
        reusable_session(active_ttl, max_ttl),
        acquire_transition(s, AcquireState::FetchingSession(id), AcquireEvent::SessionFetched { active_ttl, max_ttl }, s2, r),
    ensures
        s2 == s,
        r == Some((AcquireState::Done, AcquireAction::Finish(Ok::<String, QrmiError>(id)))),
{
}

/// A session is released only after the service reported that the session
/// held cannot be kept, and it is that session that is released; a new
/// session is asked for only at the start with no session held, or right
/// after the held session was released, and never while one is held.
pub proof fn acquire_releases_before_creating(
    s: IBMQuantumComputeService,
    state: AcquireState,
    event: AcquireEvent,
    s2: IBMQuantumComputeService,
    r: Option<(AcquireState, AcquireAction)>,
)
    requires
        acquire_transition(s, state, event, s2, r),
    ensures
        r matches Some((_, AcquireAction::ReleaseSession(id))) ==> state == AcquireState::FetchingSession(id)
            && (event matches AcquireEvent::SessionFetched { active_ttl, max_ttl } && !reusable_session(active_ttl, max_ttl)),
        r matches Some((_, AcquireAction::CreateSession(_))) ==> s2.session_id is None
            && ((state is Start && event is Begin && s.session_id is None) || (state is Releasing && event is Released)),
{
}

/// A call that fails while the acquisition waits on it ends the acquisition
/// with that very error and leaves the resource as it was: a failed release
/// in particular keeps the session held, and no session is created.
pub proof fn acquire_returns_failed_calls(
    s: IBMQuantumComputeService,
    state: AcquireState,
    e: QrmiError,
    s2: IBMQuantumComputeService,
    r: Option<(AcquireState, AcquireAction)>,
)
    requires
        !(state is Start),
        !(state is Done),
        acquire_transition(s, state, AcquireEvent::CallFailed(e), s2, r),
    ensures
        s2 == s,
        r == Some((AcquireState::Done, AcquireAction::Finish(Err::<String, QrmiError>(e)))),
{
}

/// Every step keeps what the acquisition knows of the session held, and an
/// acquisition that succeeds leaves the resource holding exactly the session
/// it returns.
pub proof fn acquire_holds_returned_session(
    s: IBMQuantumComputeService,
    state: AcquireState,
    event: AcquireEvent,
    s2: IBMQuantumComputeService,
    r: Option<(AcquireState, AcquireAction)>,
)
    requires
        acquire_consistent(s, state),
        acquire_transition(s, state, event, s2, r),
    ensures
        r matches Some((next, _)) ==> acquire_consistent(s2, next),
        r matches Some((_, AcquireAction::Finish(Ok(id)))) ==> s2.session_id == Some(id),
{
}

impl IBMQuantumComputeService {
    /// Asks for a new session.
    fn creation_step(&self) -> (r: (AcquireState, AcquireAction))
        ensures
            creation_step(*self, Some(r)),
    {
        match self.create_session_request() {
            Ok(q) => (AcquireState::Creating, AcquireAction::CreateSession(q)),
            Err(e) => (AcquireState::Done, AcquireAction::Finish(Err(e.into_qrmi_error()))),
        }
    }

    /// Takes one step of acquiring a session: the caller starts in
    /// [`AcquireState::Start`] with [`AcquireEvent::Begin`], performs each
    /// action it is given and hands back what the service answered, until
    /// the action is to finish.
    pub fn acquire_step(&mut self, state: AcquireState, event: AcquireEvent) -> (r: Option<(AcquireState, AcquireAction)>)
        ensures
            acquire_transition(*old(self), state, event, *final(self), r),
    {
        match state {
            AcquireState::Start => match event {
                AcquireEvent::Begin => match &self.session_id {
                    Some(id) => Some((AcquireState::FetchingSession(id.clone()), AcquireAction::FetchSession(id.clone()))),
                    None => Some(self.creation_step()),
                },
                _ => None,
            },
            AcquireState::FetchingSession(id) => match event {
                AcquireEvent::SessionFetched { active_ttl, max_ttl } => if should_reuse_session(active_ttl, max_ttl) {
                    Some((AcquireState::Done, AcquireAction::Finish(Ok(id))))
                } else {
                    Some((AcquireState::Releasing(id.clone()), AcquireAction::ReleaseSession(id)))
                },
                AcquireEvent::CallFailed(e) => Some((AcquireState::Done, AcquireAction::Finish(Err(e)))),
                _ => None,
            },
            AcquireState::Releasing(_) => match event {
                AcquireEvent::Released => {
                    self.on_released();
                    Some(self.creation_step())
                },
                AcquireEvent::CallFailed(e) => Some((AcquireState::Done, AcquireAction::Finish(Err(e)))),
                _ => None,
            },
            AcquireState::Creating => match event {
                AcquireEvent::SessionCreated(id) => {
                    self.on_session_created(id.clone());
                    Some((AcquireState::Done, AcquireAction::Finish(Ok(id))))
                },
                AcquireEvent::CallFailed(e) => Some((AcquireState::Done, AcquireAction::Finish(Err(e)))),
                _ => None,
            },
            AcquireState::Done => None,
        }
    }
}

/// The target description: the backend configuration and properties under
/// their names, each `null` where it could not be fetched.
pub open spec fn target_text(configuration: Option<Seq<char>>, properties: Option<Seq<char>>) -> Seq<char> {
    let c = match configuration {
        Some(c) => c,
        None => "null"@,
    };
    let p = match properties {
        Some(p) => p,
        None => "null"@,
    };
    "{\"configuration\":"@ + c + ",\"properties\":"@ + p + "}"@
}

/// Frames the serialized backend configuration and properties into one
/// JSON object, in the key order and compact form in which a JSON value
/// with sorted keys is written.
pub fn target_json(configuration: Option<&str>, properties: Option<&str>) -> (r: String)
    ensures
        r@ == target_text(
            match configuration { Some(c) => Some(c@), None => None },
            match properties { Some(p) => Some(p@), None => None },
        ),
{
    let c = match configuration {
        Some(c) => c,
        None => "null",
    };
    let p = match properties {
        Some(p) => p,
        None => "null",
    };
    let mut r = "{\"configuration\":".to_string();
    r.append(c);
    r.append(",\"properties\":");
    r.append(p);
    r.append("}");
    r
}

/// The target description frames each part on its own: it opens with
/// `{"configuration":`, then holds the configuration text (or `null`), then
/// `,"properties":`, then the properties text (or `null`), and closes with
/// `}`. What stands in each slot depends on that part alone.
pub proof fn target_frames_each_part(configuration: Option<Seq<char>>, properties: Option<Seq<char>>)
    ensures
        ({
            let t = target_text(configuration, properties);
            let c = match configuration { Some(c) => c, None => "null"@ };
            let p = match properties { Some(p) => p, None => "null"@ };
            &&& t.len() == 32 + c.len() + p.len()
            &&& t.subrange(0, 17) == "{\"configuration\":"@
            &&& t.subrange(17, 17 + c.len() as int) == c
            &&& t.subrange(17 + c.len() as int, 31 + c.len() as int) == ",\"properties\":"@
            &&& t.subrange(31 + c.len() as int, 31 + c.len() + p.len() as int) == p
            &&& t[t.len() - 1] == '}'
        }),
        configuration matches Some(c) ==> target_text(configuration, properties).subrange(17, 17 + c.len() as int) == c,
        properties matches Some(p) ==> ({
            let t = target_text(configuration, properties);
            t.subrange(t.len() - 1 - p.len() as int, t.len() - 1) == p
        }),
{
    reveal_strlit("{\"configuration\":");
    reveal_strlit(",\"properties\":");
    reveal_strlit("}");
    reveal_strlit("null");
    let t = target_text(configuration, properties);
    let c = match configuration { Some(c) => c, None => "null"@ };
    let p = match properties { Some(p) => p, None => "null"@ };
    let a = "{\"configuration\":"@;
    let b = ",\"properties\":"@;
    assert(a.len() == 17);
    assert(b.len() == 14);
    assert(t == a + c + b + p + "}"@);
    assert(t.subrange(0, 17) =~= a);
    assert(t.subrange(17, 17 + c.len() as int) =~= c);
    assert(t.subrange(17 + c.len() as int, 31 + c.len() as int) =~= b);
    assert(t.subrange(31 + c.len() as int, 31 + c.len() + p.len() as int) =~= p);
}

} // verus!
