//! Types of other crates that the library carries through unchanged.

use vstd::prelude::*;

verus! {

/// A UUID as the `uuid` crate defines it; carried, never inspected.
#[verifier::external_type_specification]
#[verifier::external_body]
pub struct ExUuid(uuid::Uuid);

/// A timestamp without time zone as the `chrono` crate defines it; carried, never inspected.
#[verifier::external_type_specification]
#[verifier::external_body]
pub struct ExNaiveDateTime(chrono::NaiveDateTime);

/// `Clone` of `uuid::Uuid`, which derives `Clone` and `Copy`: the clone is the same value.
pub assume_specification[ <uuid::Uuid as Clone>::clone ](u: &uuid::Uuid) -> (r: uuid::Uuid)
    ensures
        r == *u,
;

/// `Clone` of `chrono::NaiveDateTime`, which derives `Clone` and `Copy`: the clone is the
/// same value.
pub assume_specification[ <chrono::NaiveDateTime as Clone>::clone ](
    t: &chrono::NaiveDateTime,
) -> (r: chrono::NaiveDateTime)
    ensures
        r == *t,
;

} // verus!
