//! Decisions of the storage layer that do not need the database.

pub mod audit;
pub mod facilitator;
pub mod policy;

use vstd::prelude::*;

use crate::error::{kind_error, ErrorKind, ErrorView, LibError};
use crate::text::str_eq;

verus! {

/// The SQLSTATE code of a unique-constraint violation.
pub open spec fn is_unique_violation_code(code: Option<Seq<char>>) -> bool {
    code == Some("23505"@)
}

/// Whether a database error code reports a unique-constraint violation.
pub fn is_unique_violation(code: Option<&str>) -> (r: bool)
    ensures
        r == is_unique_violation_code(code.deep_view()),
{
    match code {
        Some(c) => str_eq(c, "23505"),
        None => false,
    }
}

/// The error of a failed storage operation: a storage error whose detail
/// names the operation and the failure.
pub open spec fn spec_storage_failure(public: Seq<char>, operation: Seq<char>, err: Seq<char>) -> ErrorView {
    kind_error(ErrorKind::Database, public, operation + " failed: "@ + err)
}

/// The error of a failed storage operation.
pub fn storage_failure(public: &str, operation: &str, err: &str) -> (e: LibError)
    ensures
        e@ == spec_storage_failure(public@, operation@, err@),
{
    let detail = String::from_str(operation).concat(" failed: ").concat(err);
    LibError::database(public, detail.as_str())
}

/// The error of a failed write that may have broken a uniqueness rule: a
/// conflict when the database reports a unique violation, a storage error
/// otherwise.
pub open spec fn spec_write_failure(
    code: Option<Seq<char>>,
    conflict_public: Seq<char>,
    public: Seq<char>,
    operation: Seq<char>,
    err: Seq<char>,
) -> ErrorView {
    if is_unique_violation_code(code) {
        kind_error(ErrorKind::Conflict, conflict_public, operation + " unique violation: "@ + err)
    } else {
        spec_storage_failure(public, operation, err)
    }
}

/// The error of a failed write that may have broken a uniqueness rule.
pub fn write_failure(
    code: Option<&str>,
    conflict_public: &str,
    public: &str,
    operation: &str,
    err: &str,
) -> (e: LibError)
    ensures
        e@ == spec_write_failure(code.deep_view(), conflict_public@, public@, operation@, err@),
{
    if is_unique_violation(code) {
        let detail = String::from_str(operation).concat(" unique violation: ").concat(err);
        LibError::conflict(conflict_public, detail.as_str())
    } else {
        storage_failure(public, operation, err)
    }
}

/// Whether a delete removed anything.
pub fn was_deleted(rows_affected: u64) -> (r: bool)
    ensures
        r == (rows_affected > 0),
{
    rows_affected > 0
}

} // verus!
