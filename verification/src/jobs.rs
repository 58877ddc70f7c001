//! Job models of the Quantum System API and the names under which their
//! enumerations travel on the wire.

use vstd::prelude::*;
use crate::text::str_eq;

verus! {

/// ID of the primitive to be executed.
#[derive(Debug, Clone, Copy, PartialEq, Eq, Structural)]
pub enum ProgramId {
    Estimator,
    Sampler,
}

/// Returned when a string names no primitive.
#[derive(Debug, Clone, Copy, PartialEq, Eq, Structural)]
pub struct ProgramIdParseError;

/// The lower-case name of a primitive.
pub open spec fn program_id_name(p: ProgramId) -> Seq<char> {
    match p {
        ProgramId::Estimator => "estimator"@,
        ProgramId::Sampler => "sampler"@,
    }
}

/// The primitive a string names, if any.
pub open spec fn program_id_from_name(s: Seq<char>) -> Result<ProgramId, ProgramIdParseError> {
    if s == "estimator"@ {
        Ok(ProgramId::Estimator)
    } else if s == "sampler"@ {
        Ok(ProgramId::Sampler)
    } else {
        Err(ProgramIdParseError)
    }
}

impl ProgramId {
    /// Parses the lower-case name of a primitive.
    pub fn from_str(s: &str) -> (r: Result<ProgramId, ProgramIdParseError>)
        ensures
            r == program_id_from_name(s@),
    {
        if str_eq(s, "estimator") {
            Ok(ProgramId::Estimator)
        } else if str_eq(s, "sampler") {
            Ok(ProgramId::Sampler)
        } else {
            Err(ProgramIdParseError)
        }
    }

    /// The lower-case name under which the primitive is displayed and serialized.
    pub fn as_str(&self) -> (s: &'static str)
        ensures
            s@ == program_id_name(*self),
    {
        match self {
            ProgramId::Estimator => "estimator",
            ProgramId::Sampler => "sampler",
        }
    }
}

/// Parsing the name of a primitive gives that primitive back, and only that
/// name parses to it.
pub proof fn program_id_name_round_trip(p: ProgramId, s: Seq<char>)
    ensures
        program_id_from_name(program_id_name(p)) == Ok::<ProgramId, ProgramIdParseError>(p),
        program_id_from_name(s) == Ok::<ProgramId, ProgramIdParseError>(p) ==> s == program_id_name(p),
{
    reveal_strlit("estimator");
    reveal_strlit("sampler");
    assert("estimator"@ != "sampler"@) by {
        assert("estimator"@.len() != "sampler"@.len());
    }
}

/// Job logging level.
#[derive(Debug, Clone, Copy, PartialEq, Eq, Structural)]
pub enum LogLevel {
    Critical,
    Error,
    Warning,
    Info,
    Debug,
}

/// Returned when a string names no logging level.
#[derive(Debug, Clone, Copy, PartialEq, Eq, Structural)]
pub struct LogLevelParseError;

/// The lower-case name of a logging level.
pub open spec fn log_level_name(l: LogLevel) -> Seq<char> {
    match l {
        LogLevel::Critical => "critical"@,
        LogLevel::Error => "error"@,
        LogLevel::Warning => "warning"@,
        LogLevel::Info => "info"@,
        LogLevel::Debug => "debug"@,
    }
}

/// The logging level a string names, if any.
pub open spec fn log_level_from_name(s: Seq<char>) -> Result<LogLevel, LogLevelParseError> {
    if s == "critical"@ {
        Ok(LogLevel::Critical)
    } else if s == "error"@ {
        Ok(LogLevel::Error)
    } else if s == "warning"@ {
        Ok(LogLevel::Warning)
    } else if s == "info"@ {
        Ok(LogLevel::Info)
    } else if s == "debug"@ {
        Ok(LogLevel::Debug)
    } else {
        Err(LogLevelParseError)
    }
}

impl LogLevel {
    /// Parses the lower-case name of a logging level.
    pub fn from_str(s: &str) -> (r: Result<LogLevel, LogLevelParseError>)
        ensures
            r == log_level_from_name(s@),
    {
        if str_eq(s, "critical") {
            Ok(LogLevel::Critical)
        } else if str_eq(s, "error") {
            Ok(LogLevel::Error)
        } else if str_eq(s, "warning") {
            Ok(LogLevel::Warning)
        } else if str_eq(s, "info") {
            Ok(LogLevel::Info)
        } else if str_eq(s, "debug") {
            Ok(LogLevel::Debug)
        } else {
            Err(LogLevelParseError)
        }
    }

    /// The lower-case name under which the level is displayed and serialized.
    pub fn as_str(&self) -> (s: &'static str)
        ensures
            s@ == log_level_name(*self),
    {
        match self {
            LogLevel::Critical => "critical",
            LogLevel::Error => "error",
            LogLevel::Warning => "warning",
            LogLevel::Info => "info",
            LogLevel::Debug => "debug",
        }
    }
}

/// Parsing the name of a logging level gives that level back, and only that
/// name parses to it.
pub proof fn log_level_name_round_trip(l: LogLevel, s: Seq<char>)
    ensures
        log_level_from_name(log_level_name(l)) == Ok::<LogLevel, LogLevelParseError>(l),
        log_level_from_name(s) == Ok::<LogLevel, LogLevelParseError>(l) ==> s == log_level_name(l),
{
    reveal_strlit("critical");
    reveal_strlit("error");
    reveal_strlit("warning");
    reveal_strlit("info");
    reveal_strlit("debug");
    assert("error"@ != "debug"@) by {
        assert("error"@[0] != "debug"@[0]);
    }
    assert("critical"@.len() == 8 && "error"@.len() == 5 && "warning"@.len() == 7
        && "info"@.len() == 4 && "debug"@.len() == 5);
}

/// Job status.
#[derive(Debug, Clone, Copy, PartialEq, Eq, Structural)]
pub enum JobStatus {
    Running,
    Completed,
    Failed,
    Cancelled,
}

/// The name of a job status on the wire.
pub open spec fn job_status_name(j: JobStatus) -> Seq<char> {
    match j {
        JobStatus::Running => "Running"@,
        JobStatus::Completed => "Completed"@,
        JobStatus::Failed => "Failed"@,
        JobStatus::Cancelled => "Cancelled"@,
    }
}

/// The job status a wire name stands for, if any.
pub open spec fn job_status_from_name(s: Seq<char>) -> Option<JobStatus> {
    if s == "Running"@ {
        Some(JobStatus::Running)
    } else if s == "Completed"@ {
        Some(JobStatus::Completed)
    } else if s == "Failed"@ {
        Some(JobStatus::Failed)
    } else if s == "Cancelled"@ {
        Some(JobStatus::Cancelled)
    } else {
        None
    }
}

impl JobStatus {
    /// Reads a job status from its wire name; `None` for an unknown variant.
    pub fn from_wire_name(s: &str) -> (r: Option<JobStatus>)
        ensures
            r == job_status_from_name(s@),
    {
        if str_eq(s, "Running") {
            Some(JobStatus::Running)
        } else if str_eq(s, "Completed") {
            Some(JobStatus::Completed)
        } else if str_eq(s, "Failed") {
            Some(JobStatus::Failed)
        } else if str_eq(s, "Cancelled") {
            Some(JobStatus::Cancelled)
        } else {
            None
        }
    }

    /// The wire name of the status.
    pub fn wire_name(&self) -> (s: &'static str)
        ensures
            s@ == job_status_name(*self),
    {
        match self {
            JobStatus::Running => "Running",
            JobStatus::Completed => "Completed",
            JobStatus::Failed => "Failed",
            JobStatus::Cancelled => "Cancelled",
        }
    }
}

/// Reading the wire name of a job status gives that status back, and only
/// that name reads as it.
pub proof fn job_status_name_round_trip(j: JobStatus, s: Seq<char>)
    ensures
        job_status_from_name(job_status_name(j)) == Some(j),
        job_status_from_name(s) == Some(j) ==> s == job_status_name(j),
{
    reveal_strlit("Running");
    reveal_strlit("Completed");
    reveal_strlit("Failed");
    reveal_strlit("Cancelled");
    assert("Completed"@ != "Cancelled"@) by {
        assert("Completed"@[1] != "Cancelled"@[1]);
    }
    assert("Running"@.len() == 7 && "Completed"@.len() == 9 && "Failed"@.len() == 6
        && "Cancelled"@.len() == 9);
}

/// Storage type.
#[derive(Debug, Clone, Copy, PartialEq, Eq, Structural)]
#[allow(non_camel_case_types)]
pub enum StorageType {
    IBMCloud_COS,
    S3_Compatible,
}

/// The lower-case name of a storage type on the wire.
pub open spec fn storage_type_name(t: StorageType) -> Seq<char> {
    match t {
        StorageType::IBMCloud_COS => "ibmcloud_cos"@,
        StorageType::S3_Compatible => "s3_compatible"@,
    }
}

/// The storage type a wire name stands for, if any.
pub open spec fn storage_type_from_name(s: Seq<char>) -> Option<StorageType> {
    if s == "ibmcloud_cos"@ {
        Some(StorageType::IBMCloud_COS)
    } else if s == "s3_compatible"@ {
        Some(StorageType::S3_Compatible)
    } else {
        None
    }
}

impl StorageType {
    /// Reads a storage type from its wire name; `None` for an unknown variant.
    pub fn from_wire_name(s: &str) -> (r: Option<StorageType>)
        ensures
            r == storage_type_from_name(s@),
    {
        if str_eq(s, "ibmcloud_cos") {
            Some(StorageType::IBMCloud_COS)
        } else if str_eq(s, "s3_compatible") {
            Some(StorageType::S3_Compatible)
        } else {
            None
        }
    }

    /// The wire name of the storage type.
    pub fn wire_name(&self) -> (s: &'static str)
        ensures
            s@ == storage_type_name(*self),
    {
        match self {
            StorageType::IBMCloud_COS => "ibmcloud_cos",
            StorageType::S3_Compatible => "s3_compatible",
        }
    }
}

/// Reading the wire name of a storage type gives that type back, and only
/// that name reads as it.
pub proof fn storage_type_name_round_trip(t: StorageType, s: Seq<char>)
    ensures
        storage_type_from_name(storage_type_name(t)) == Some(t),
        storage_type_from_name(s) == Some(t) ==> s == storage_type_name(t),
{
    reveal_strlit("ibmcloud_cos");
    reveal_strlit("s3_compatible");
    assert("ibmcloud_cos"@.len() == 12 && "s3_compatible"@.len() == 13);
}

/// Quantum usage.
#[derive(Debug, Clone, PartialEq, Eq)]
pub struct Usage {
    /// Execution time on quantum device in nanoseconds.
    pub quantum_nanoseconds: Option<i64>,
}

/// Job lifecycle timestamps.
#[derive(Debug, Clone, PartialEq, Eq)]
pub struct Timestamps {
    /// Time when the job was created.
    pub created: String,
    /// Time when the job reached a terminal status.
    pub finished: Option<String>,
}

/// Job execution metrics.
#[derive(Debug, Clone, PartialEq, Eq)]
pub struct Metrics {
    /// Total circuits execution time on QPU in nanoseconds.
    pub circuits_execution_time_ns: Option<i64>,
    /// Job lifecycle timestamps.
    pub timestamps: Timestamps,
}

/// Storage option. Currently, only S3 storage is supported by this client.
#[derive(Debug, Clone, PartialEq, Eq)]
pub struct StorageOption {
    pub storage_type: StorageType,
    pub presigned_url: String,
}

/// Storage specification used in [`Job`].
#[derive(Debug, Clone)]
pub struct Storage {
    pub input: Option<StorageOption>,
    pub logs: Option<StorageOption>,
    pub results: Option<StorageOption>,
}

/// Job. Refer to the Quantum System API specification for details.
#[derive(Debug, Clone)]
pub struct Job {
    pub backend: String,
    pub created_time: String,
    pub end_time: Option<String>,
    pub id: String,
    pub log_level: Option<LogLevel>,
    pub metrics: Option<Metrics>,
    pub program_id: ProgramId,
    pub reason_code: Option<i64>,
    pub reason_message: Option<String>,
    pub reason_solution: Option<String>,
    pub status: JobStatus,
    pub storage: Storage,
    pub timeout_secs: Option<i64>,
    pub usage: Option<Usage>,
}

/// A list of [`Job`].
#[derive(Debug, Clone)]
pub struct Jobs {
    pub jobs: Vec<Job>,
}

} // verus!
