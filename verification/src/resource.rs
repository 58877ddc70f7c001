//! What a quantum resource or a resource provider answers for an operation
//! it does not implement itself.

use vstd::prelude::*;
use vstd::string::*;
use crate::error::QrmiError;

verus! {

broadcast use vstd::string::group_string_axioms;

/// Operations of a quantum resource or provider that report themselves as
/// unsupported unless the resource implements them.
#[derive(Debug, Clone, Copy, PartialEq, Eq, Structural)]
pub enum Operation {
    TaskStart,
    TaskStop,
    TaskStatus,
    TaskUsage,
    TaskResult,
    TaskLogs,
    Target,
    AccountUsage,
}

/// The qualified name under which an unsupported operation is reported.
pub open spec fn operation_name(op: Operation) -> Seq<char> {
    match op {
        Operation::TaskStart => "qrmi::QuantumResource::task_start"@,
        Operation::TaskStop => "qrmi::QuantumResource::task_stop"@,
        Operation::TaskStatus => "qrmi::QuantumResource::task_status"@,
        Operation::TaskUsage => "qrmi::QuantumResource::task_usage"@,
        Operation::TaskResult => "qrmi::QuantumResource::task_result"@,
        Operation::TaskLogs => "qrmi::QuantumResource::task_logs"@,
        Operation::Target => "qrmi::QuantumResource::target"@,
        Operation::AccountUsage => "qrmi::ResourceProvider::account_usage"@,
    }
}

/// The error an operation that is not implemented returns.
pub fn unsupported_operation(op: Operation) -> (e: QrmiError)
    ensures
        e matches QrmiError::UnsupportedFunction(m) && m@ == operation_name(op),
{
    let name = match op {
        Operation::TaskStart => "qrmi::QuantumResource::task_start",
        Operation::TaskStop => "qrmi::QuantumResource::task_stop",
        Operation::TaskStatus => "qrmi::QuantumResource::task_status",
        Operation::TaskUsage => "qrmi::QuantumResource::task_usage",
        Operation::TaskResult => "qrmi::QuantumResource::task_result",
        Operation::TaskLogs => "qrmi::QuantumResource::task_logs",
        Operation::Target => "qrmi::QuantumResource::target",
        Operation::AccountUsage => "qrmi::ResourceProvider::account_usage",
    };
    QrmiError::UnsupportedFunction(name.to_string())
}

/// A lower-case hexadecimal digit.
pub open spec fn is_lower_hex(c: char) -> bool {
    ('0' <= c <= '9') || ('a' <= c <= 'f')
}

/// The hyphenated lower-case text of a random (version 4, RFC 4122 variant)
/// UUID: 36 characters, hyphens at positions 8, 13, 18 and 23, hexadecimal
/// digits elsewhere, the version digit `4` at position 14 and one of `8`,
/// `9`, `a`, `b` at position 19.
pub open spec fn is_v4_uuid_text(s: Seq<char>) -> bool {
    &&& s.len() == 36
    &&& forall|i: int| 0 <= i < 36 ==> (if i == 8 || i == 13 || i == 18 || i == 23 {
        s[i] == '-'
    } else {
        is_lower_hex(#[trigger] s[i])
    })
    &&& s[14] == '4'
    &&& (s[19] == '8' || s[19] == '9' || s[19] == 'a' || s[19] == 'b')
}

/// Calls `uuid::Uuid::new_v4` and writes the result with `to_string`. The
/// value is random; the contract claims only what holds of every outcome:
/// `new_v4` fixes the version and variant bits, and `Display` writes the
/// hyphenated lower-case form.
#[verifier::external_body]
fn new_v4_uuid_text() -> (r: String)
    ensures
        is_v4_uuid_text(r@),
{
    uuid::Uuid::new_v4().to_string()
}

/// The acquisition token a resource that does not lock anything hands out:
/// a fresh random UUID, so that callers written for locking resources keep
/// working.
pub fn default_acquisition_token() -> (r: String)
    ensures
        is_v4_uuid_text(r@),
{
    new_v4_uuid_text()
}

} // verus!
