//! The decisions behind storing facilitator profiles.

use std::collections::HashMap;

use chrono::NaiveDateTime;
use uuid::Uuid;
use vstd::prelude::*;

use crate::error::{database_error, ErrorView, LibError};
use crate::models::facilitator::{
    CreateFacilitatorProfileDb, FacilitatorProfileDb, ProfileView, UpdateFacilitatorProfileDb,
};

verus! {

/// A stored profile as it comes from the database.
pub struct FacilitatorProfileRow {
    pub id: Uuid,
    pub name: String,
    pub verify_url: String,
    pub settle_url: String,
    pub supported_url: String,
    /// The stored headers, or why the column is not a map of texts.
    pub default_headers: Result<HashMap<String, String>, String>,
    pub timeout_ms: i32,
    pub supported_cache_ttl_secs: i32,
    pub enabled: bool,
    pub created_at: NaiveDateTime,
    pub updated_at: NaiveDateTime,
}

/// What decoding a stored profile row gives.
pub open spec fn spec_profile_row_to_model(row: FacilitatorProfileRow) -> Result<ProfileView, ErrorView> {
    match row.default_headers {
        Err(detail) => Err(
            database_error(
                "Failed to decode facilitator profile headers"@,
                "row_to_model default_headers decode failed: "@ + detail@,
            ),
        ),
        Ok(headers) => Ok(
            ProfileView {
                id: row.id,
                name: row.name@,
                verify_url: row.verify_url@,
                settle_url: row.settle_url@,
                supported_url: row.supported_url@,
                default_headers: headers,
                timeout_ms: row.timeout_ms,
                supported_cache_ttl_secs: row.supported_cache_ttl_secs,
                enabled: row.enabled,
                created_at: row.created_at,
                updated_at: row.updated_at,
            },
        ),
    }
}

/// Decodes a stored profile row.
pub fn row_to_model(row: FacilitatorProfileRow) -> (r: Result<FacilitatorProfileDb, LibError>)
    ensures
        match (r, spec_profile_row_to_model(row)) {
            (Ok(a), Ok(b)) => a@ == b,
            (Err(a), Err(b)) => a@ == b,
            _ => false,
        },
{
    let default_headers = match row.default_headers {
        Ok(h) => h,
        Err(detail) => {
            let d = String::from_str("row_to_model default_headers decode failed: ").concat(
                detail.as_str(),
            );
            return Err(
                LibError::database("Failed to decode facilitator profile headers", d.as_str()),
            );
        },
    };
    Ok(FacilitatorProfileDb {
        id: row.id,
        name: row.name,
        verify_url: row.verify_url,
        settle_url: row.settle_url,
        supported_url: row.supported_url,
        default_headers,
        timeout_ms: row.timeout_ms,
        supported_cache_ttl_secs: row.supported_cache_ttl_secs,
        enabled: row.enabled,
        created_at: row.created_at,
        updated_at: row.updated_at,
    })
}

/// The stored fields of a profile after a change: each field the change
/// gives replaces the stored one.
pub open spec fn spec_merge_profile(existing: ProfileView, patch: UpdateFacilitatorProfileDb) -> (
    Seq<char>,
    Seq<char>,
    Seq<char>,
    Seq<char>,
    HashMap<String, String>,
    i32,
    i32,
    bool,
) {
    (
        match patch.name {
            Some(v) => v@,
            None => existing.name,
        },
        match patch.verify_url {
            Some(v) => v@,
            None => existing.verify_url,
        },
        match patch.settle_url {
            Some(v) => v@,
            None => existing.settle_url,
        },
        match patch.supported_url {
            Some(v) => v@,
            None => existing.supported_url,
        },
        match patch.default_headers {
            Some(v) => v,
            None => existing.default_headers,
        },
        match patch.timeout_ms {
            Some(v) => v,
            None => existing.timeout_ms,
        },
        match patch.supported_cache_ttl_secs {
            Some(v) => v,
            None => existing.supported_cache_ttl_secs,
        },
        match patch.enabled {
            Some(v) => v,
            None => existing.enabled,
        },
    )
}

/// The stored fields of a profile as one tuple.
pub open spec fn profile_fields(p: CreateFacilitatorProfileDb) -> (
    Seq<char>,
    Seq<char>,
    Seq<char>,
    Seq<char>,
    HashMap<String, String>,
    i32,
    i32,
    bool,
) {
    (
        p.name@,
        p.verify_url@,
        p.settle_url@,
        p.supported_url@,
        p.default_headers,
        p.timeout_ms,
        p.supported_cache_ttl_secs,
        p.enabled,
    )
}

/// Applies a change to a stored profile, giving the fields to store.
pub fn merge_profile_patch(existing: FacilitatorProfileDb, patch: UpdateFacilitatorProfileDb) -> (r:
    CreateFacilitatorProfileDb)
    ensures
        profile_fields(r) == spec_merge_profile(existing@, patch),
        r.name@ == (if patch.name is Some { patch.name->Some_0@ } else { existing.name@ }),
        r.verify_url@ == (if patch.verify_url is Some { patch.verify_url->Some_0@ } else { existing.verify_url@ }),
        r.settle_url@ == (if patch.settle_url is Some { patch.settle_url->Some_0@ } else { existing.settle_url@ }),
        r.supported_url@ == (if patch.supported_url is Some {
            patch.supported_url->Some_0@
        } else {
            existing.supported_url@
        }),
        r.default_headers == (if patch.default_headers is Some {
            patch.default_headers->Some_0
        } else {
            existing.default_headers
        }),
        r.timeout_ms == (if patch.timeout_ms is Some { patch.timeout_ms->Some_0 } else { existing.timeout_ms }),
        r.supported_cache_ttl_secs == (if patch.supported_cache_ttl_secs is Some {
            patch.supported_cache_ttl_secs->Some_0
        } else {
            existing.supported_cache_ttl_secs
        }),
        r.enabled == (if patch.enabled is Some { patch.enabled->Some_0 } else { existing.enabled }),
{
    CreateFacilitatorProfileDb {
        name: match patch.name {
            Some(v) => v,
            None => existing.name,
        },
        verify_url: match patch.verify_url {
            Some(v) => v,
            None => existing.verify_url,
        },
        settle_url: match patch.settle_url {
            Some(v) => v,
            None => existing.settle_url,
        },
        supported_url: match patch.supported_url {
            Some(v) => v,
            None => existing.supported_url,
        },
        default_headers: match patch.default_headers {
            Some(v) => v,
            None => existing.default_headers,
        },
        timeout_ms: match patch.timeout_ms {
            Some(v) => v,
            None => existing.timeout_ms,
        },
        supported_cache_ttl_secs: match patch.supported_cache_ttl_secs {
            Some(v) => v,
            None => existing.supported_cache_ttl_secs,
        },
        enabled: match patch.enabled {
            Some(v) => v,
            None => existing.enabled,
        },
    }
}

/// A change stores each field it gives with the given value and each field
/// it does not give with the stored value.
pub proof fn lemma_profile_patch_sets_given_fields(existing: ProfileView, patch: UpdateFacilitatorProfileDb)
    ensures
        patch.name matches Some(v) ==> spec_merge_profile(existing, patch).0 == v@,
        patch.name is None ==> spec_merge_profile(existing, patch).0 == existing.name,
        patch.verify_url matches Some(v) ==> spec_merge_profile(existing, patch).1 == v@,
        patch.verify_url is None ==> spec_merge_profile(existing, patch).1 == existing.verify_url,
        patch.settle_url matches Some(v) ==> spec_merge_profile(existing, patch).2 == v@,
        patch.settle_url is None ==> spec_merge_profile(existing, patch).2 == existing.settle_url,
        patch.supported_url matches Some(v) ==> spec_merge_profile(existing, patch).3 == v@,
        patch.supported_url is None ==> spec_merge_profile(existing, patch).3 == existing.supported_url,
        patch.default_headers matches Some(v) ==> spec_merge_profile(existing, patch).4 == v,
        patch.default_headers is None ==> spec_merge_profile(existing, patch).4 == existing.default_headers,
        patch.timeout_ms matches Some(v) ==> spec_merge_profile(existing, patch).5 == v,
        patch.timeout_ms is None ==> spec_merge_profile(existing, patch).5 == existing.timeout_ms,
        patch.supported_cache_ttl_secs matches Some(v) ==> spec_merge_profile(existing, patch).6 == v,
        patch.supported_cache_ttl_secs is None ==> spec_merge_profile(existing, patch).6
            == existing.supported_cache_ttl_secs,
        patch.enabled matches Some(v) ==> spec_merge_profile(existing, patch).7 == v,
        patch.enabled is None ==> spec_merge_profile(existing, patch).7 == existing.enabled,
{
}

/// A change that gives no field stores the profile's fields unchanged.
pub proof fn lemma_empty_profile_patch_keeps(existing: ProfileView, patch: UpdateFacilitatorProfileDb)
    requires
        patch.name is None,
        patch.verify_url is None,
        patch.settle_url is None,
        patch.supported_url is None,
        patch.default_headers is None,
        patch.timeout_ms is None,
        patch.supported_cache_ttl_secs is None,
        patch.enabled is None,
    ensures
        spec_merge_profile(existing, patch) == (
            existing.name,
            existing.verify_url,
            existing.settle_url,
            existing.supported_url,
            existing.default_headers,
            existing.timeout_ms,
            existing.supported_cache_ttl_secs,
            existing.enabled,
        ),
{
}

} // verus!
