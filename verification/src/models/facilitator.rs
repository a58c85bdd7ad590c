//! Facilitator profiles: the endpoints that verify and settle payments.

use std::collections::HashMap;

use chrono::NaiveDateTime;
use uuid::Uuid;
use vstd::prelude::*;

use crate::error::{invalid_error, result_is, text_result_is, ErrorView, LibError};
use crate::text::{starts_with, trim, trim_seq};

verus! {

/// A facilitator profile as contracts see it; the API and stored forms share it.
pub struct ProfileView {
    pub id: Uuid,
    pub name: Seq<char>,
    pub verify_url: Seq<char>,
    pub settle_url: Seq<char>,
    pub supported_url: Seq<char>,
    pub default_headers: HashMap<String, String>,
    pub timeout_ms: i32,
    pub supported_cache_ttl_secs: i32,
    pub enabled: bool,
    pub created_at: NaiveDateTime,
    pub updated_at: NaiveDateTime,
}

/// A facilitator profile as the API shows it.
#[derive(Debug, Clone)]
pub struct FacilitatorProfileApi {
    pub id: Uuid,
    pub name: String,
    pub verify_url: String,
    pub settle_url: String,
    pub supported_url: String,
    pub default_headers: HashMap<String, String>,
    pub timeout_ms: i32,
    pub supported_cache_ttl_secs: i32,
    pub enabled: bool,
    pub created_at: NaiveDateTime,
    pub updated_at: NaiveDateTime,
}

/// A facilitator profile as it is stored.
#[derive(Debug, Clone)]
pub struct FacilitatorProfileDb {
    pub id: Uuid,
    pub name: String,
    pub verify_url: String,
    pub settle_url: String,
    pub supported_url: String,
    pub default_headers: HashMap<String, String>,
    pub timeout_ms: i32,
    pub supported_cache_ttl_secs: i32,
    pub enabled: bool,
    pub created_at: NaiveDateTime,
    pub updated_at: NaiveDateTime,
}

impl View for FacilitatorProfileApi {
    type V = ProfileView;

    open spec fn view(&self) -> ProfileView {
        ProfileView {
            id: self.id,
            name: self.name@,
            verify_url: self.verify_url@,
            settle_url: self.settle_url@,
            supported_url: self.supported_url@,
            default_headers: self.default_headers,
            timeout_ms: self.timeout_ms,
            supported_cache_ttl_secs: self.supported_cache_ttl_secs,
            enabled: self.enabled,
            created_at: self.created_at,
            updated_at: self.updated_at,
        }
    }
}

impl View for FacilitatorProfileDb {
    type V = ProfileView;

    open spec fn view(&self) -> ProfileView {
        ProfileView {
            id: self.id,
            name: self.name@,
            verify_url: self.verify_url@,
            settle_url: self.settle_url@,
            supported_url: self.supported_url@,
            default_headers: self.default_headers,
            timeout_ms: self.timeout_ms,
            supported_cache_ttl_secs: self.supported_cache_ttl_secs,
            enabled: self.enabled,
            created_at: self.created_at,
            updated_at: self.updated_at,
        }
    }
}

impl FacilitatorProfileApi {
    /// The API form of a stored profile; every field is kept.
    pub fn from_db(value: FacilitatorProfileDb) -> (r: Self)
        ensures
            r@ == value@,
    {
        FacilitatorProfileApi {
            id: value.id,
            name: value.name,
            verify_url: value.verify_url,
            settle_url: value.settle_url,
            supported_url: value.supported_url,
            default_headers: value.default_headers,
            timeout_ms: value.timeout_ms,
            supported_cache_ttl_secs: value.supported_cache_ttl_secs,
            enabled: value.enabled,
            created_at: value.created_at,
            updated_at: value.updated_at,
        }
    }
}

/// A request to create a facilitator profile, as the API receives it.
#[derive(Debug, Clone)]
pub struct CreateFacilitatorProfileRequest {
    pub name: String,
    pub verify_url: String,
    pub settle_url: String,
    pub supported_url: String,
    pub default_headers: HashMap<String, String>,
    pub timeout_ms: i32,
    pub supported_cache_ttl_secs: i32,
    pub enabled: bool,
}

/// A request to change a facilitator profile; absent fields stay as they are.
#[derive(Debug, Clone)]
pub struct UpdateFacilitatorProfileRequest {
    pub name: Option<String>,
    pub verify_url: Option<String>,
    pub settle_url: Option<String>,
    pub supported_url: Option<String>,
    pub default_headers: Option<HashMap<String, String>>,
    pub timeout_ms: Option<i32>,
    pub supported_cache_ttl_secs: Option<i32>,
    pub enabled: Option<bool>,
}

/// A validated facilitator profile, ready to be stored.
#[derive(Debug, Clone)]
pub struct CreateFacilitatorProfileDb {
    pub name: String,
    pub verify_url: String,
    pub settle_url: String,
    pub supported_url: String,
    pub default_headers: HashMap<String, String>,
    pub timeout_ms: i32,
    pub supported_cache_ttl_secs: i32,
    pub enabled: bool,
}

/// A validated change to a stored facilitator profile.
#[derive(Debug, Clone)]
pub struct UpdateFacilitatorProfileDb {
    pub name: Option<String>,
    pub verify_url: Option<String>,
    pub settle_url: Option<String>,
    pub supported_url: Option<String>,
    pub default_headers: Option<HashMap<String, String>>,
    pub timeout_ms: Option<i32>,
    pub supported_cache_ttl_secs: Option<i32>,
    pub enabled: Option<bool>,
}

impl Default for UpdateFacilitatorProfileDb {
    fn default() -> (r: Self)
        ensures
            r.name is None,
            r.verify_url is None,
            r.settle_url is None,
            r.supported_url is None,
            r.default_headers is None,
            r.timeout_ms is None,
            r.supported_cache_ttl_secs is None,
            r.enabled is None,
    {
        UpdateFacilitatorProfileDb {
            name: None,
            verify_url: None,
            settle_url: None,
            supported_url: None,
            default_headers: None,
            timeout_ms: None,
            supported_cache_ttl_secs: None,
            enabled: None,
        }
    }
}

/// The request timeout of a profile unless a request says otherwise.
pub fn default_timeout_ms() -> (r: i32)
    ensures
        r == 5000,
{
    5_000
}

/// How long the supported-kinds answer is cached unless a request says otherwise.
pub fn default_supported_cache_ttl() -> (r: i32)
    ensures
        r == 600,
{
    600
}

/// Whether a profile is enabled unless a request says otherwise.
pub fn default_true() -> (r: bool)
    ensures
        r,
{
    true
}

/// What normalizing a profile name gives: the trimmed name, which must not be empty.
pub open spec fn spec_normalize_name(name: Seq<char>) -> Result<Seq<char>, ErrorView> {
    let value = trim_seq(name);
    if value.len() == 0 {
        Err(invalid_error("Facilitator profile name is required"@, "profile name cannot be empty"@))
    } else {
        Ok(value)
    }
}

/// What normalizing an endpoint URL gives: the trimmed URL, which must start
/// with `http://` or `https://`; `field` names it in the error detail.
pub open spec fn spec_normalize_url(url: Seq<char>, field: Seq<char>) -> Result<Seq<char>, ErrorView> {
    let value = trim_seq(url);
    if value.len() == 0 {
        Err(invalid_error("Facilitator endpoint URL is required"@, field + " cannot be empty"@))
    } else if !"http://"@.is_prefix_of(value) && !"https://"@.is_prefix_of(value) {
        Err(
            invalid_error(
                "Facilitator endpoint URL must be absolute"@,
                field + " must start with http:// or https://"@,
            ),
        )
    } else {
        Ok(value)
    }
}

/// What validating a timeout gives: the timeout, which must be positive.
pub open spec fn spec_normalize_timeout_ms(timeout_ms: i32) -> Result<i32, ErrorView> {
    if timeout_ms <= 0 {
        Err(invalid_error("timeoutMs must be greater than zero"@, "timeoutMs cannot be <= 0"@))
    } else {
        Ok(timeout_ms)
    }
}

/// What validating a cache lifetime gives: the lifetime, which must not be negative.
pub open spec fn spec_normalize_supported_cache_ttl(value: i32) -> Result<i32, ErrorView> {
    if value < 0 {
        Err(
            invalid_error(
                "supportedCacheTtlSecs cannot be negative"@,
                "supportedCacheTtlSecs cannot be < 0"@,
            ),
        )
    } else {
        Ok(value)
    }
}

/// Trims a profile name and refuses an empty one.
pub fn normalize_name(name: &str) -> (r: Result<String, LibError>)
    ensures
        text_result_is(r, spec_normalize_name(name@)),
{
    let value = trim(name);
    if value.unicode_len() == 0 {
        return Err(
            LibError::invalid("Facilitator profile name is required", "profile name cannot be empty"),
        );
    }
    Ok(String::from_str(value))
}

/// Trims an endpoint URL and requires it to be absolute (`http://` or `https://`).
pub fn normalize_url(url: &str, field: &str) -> (r: Result<String, LibError>)
    ensures
        text_result_is(r, spec_normalize_url(url@, field@)),
{
    let value = trim(url);
    if value.unicode_len() == 0 {
        let detail = String::from_str(field).concat(" cannot be empty");
        return Err(LibError::invalid("Facilitator endpoint URL is required", detail.as_str()));
    }
    if !starts_with(value, "http://") && !starts_with(value, "https://") {
        let detail = String::from_str(field).concat(" must start with http:// or https://");
        return Err(LibError::invalid("Facilitator endpoint URL must be absolute", detail.as_str()));
    }
    Ok(String::from_str(value))
}

/// Requires a positive timeout.
pub fn normalize_timeout_ms(timeout_ms: i32) -> (r: Result<i32, LibError>)
    ensures
        result_is(r, spec_normalize_timeout_ms(timeout_ms)),
{
    if timeout_ms <= 0 {
        return Err(
            LibError::invalid("timeoutMs must be greater than zero", "timeoutMs cannot be <= 0"),
        );
    }
    Ok(timeout_ms)
}

/// Requires a cache lifetime that is not negative.
pub fn normalize_supported_cache_ttl(value: i32) -> (r: Result<i32, LibError>)
    ensures
        result_is(r, spec_normalize_supported_cache_ttl(value)),
{
    if value < 0 {
        return Err(
            LibError::invalid(
                "supportedCacheTtlSecs cannot be negative",
                "supportedCacheTtlSecs cannot be < 0",
            ),
        );
    }
    Ok(value)
}

} // verus!

verus! {

/// The first error that validating a create request meets, if any.
pub open spec fn create_profile_error(value: CreateFacilitatorProfileRequest) -> Option<ErrorView> {
    if spec_normalize_name(value.name@) is Err {
        Some(spec_normalize_name(value.name@)->Err_0)
    } else if spec_normalize_url(value.verify_url@, "verifyUrl"@) is Err {
        Some(spec_normalize_url(value.verify_url@, "verifyUrl"@)->Err_0)
    } else if spec_normalize_url(value.settle_url@, "settleUrl"@) is Err {
        Some(spec_normalize_url(value.settle_url@, "settleUrl"@)->Err_0)
    } else if spec_normalize_url(value.supported_url@, "supportedUrl"@) is Err {
        Some(spec_normalize_url(value.supported_url@, "supportedUrl"@)->Err_0)
    } else if spec_normalize_timeout_ms(value.timeout_ms) is Err {
        Some(spec_normalize_timeout_ms(value.timeout_ms)->Err_0)
    } else if spec_normalize_supported_cache_ttl(value.supported_cache_ttl_secs) is Err {
        Some(spec_normalize_supported_cache_ttl(value.supported_cache_ttl_secs)->Err_0)
    } else {
        None
    }
}

/// The error of an optional text field, if it is present and invalid.
pub open spec fn optional_text_error(
    given: Option<String>,
    check: spec_fn(Seq<char>) -> Result<Seq<char>, ErrorView>,
) -> Option<ErrorView> {
    match given {
        Some(v) => match check(v@) {
            Err(e) => Some(e),
            Ok(_) => None,
        },
        None => None,
    }
}

/// The first error that validating a change meets, if any.
pub open spec fn update_profile_error(value: UpdateFacilitatorProfileRequest) -> Option<ErrorView> {
    let name = optional_text_error(value.name, |s: Seq<char>| spec_normalize_name(s));
    let verify = optional_text_error(
        value.verify_url,
        |s: Seq<char>| spec_normalize_url(s, "verifyUrl"@),
    );
    let settle = optional_text_error(
        value.settle_url,
        |s: Seq<char>| spec_normalize_url(s, "settleUrl"@),
    );
    let supported = optional_text_error(
        value.supported_url,
        |s: Seq<char>| spec_normalize_url(s, "supportedUrl"@),
    );
    let timeout = match value.timeout_ms {
        Some(t) => match spec_normalize_timeout_ms(t) {
            Err(e) => Some(e),
            Ok(_) => None,
        },
        None => None,
    };
    let ttl = match value.supported_cache_ttl_secs {
        Some(t) => match spec_normalize_supported_cache_ttl(t) {
            Err(e) => Some(e),
            Ok(_) => None,
        },
        None => None,
    };
    if name is Some {
        name
    } else if verify is Some {
        verify
    } else if settle is Some {
        settle
    } else if supported is Some {
        supported
    } else if timeout is Some {
        timeout
    } else {
        ttl
    }
}

/// Whether an optional validated text field is what validating the optional
/// given field yields.
pub open spec fn optional_text_is(
    out: Option<String>,
    given: Option<String>,
    check: spec_fn(Seq<char>) -> Result<Seq<char>, ErrorView>,
) -> bool {
    match (out, given) {
        (Some(o), Some(g)) => check(g@) is Ok && o@ == check(g@)->Ok_0,
        (None, None) => true,
        _ => false,
    }
}

impl CreateFacilitatorProfileDb {
    /// Validates a create request: the name and the three URLs are trimmed
    /// and checked, the timeout must be positive and the cache lifetime not
    /// negative; the headers and the enabled flag are kept.
    pub fn from_request(value: CreateFacilitatorProfileRequest) -> (r: Result<Self, LibError>)
        ensures
            match r {
                Ok(db) => {
                    &&& create_profile_error(value) is None
                    &&& db.name@ == spec_normalize_name(value.name@)->Ok_0
                    &&& db.verify_url@ == spec_normalize_url(value.verify_url@, "verifyUrl"@)->Ok_0
                    &&& db.settle_url@ == spec_normalize_url(value.settle_url@, "settleUrl"@)->Ok_0
                    &&& db.supported_url@ == spec_normalize_url(
                        value.supported_url@,
                        "supportedUrl"@,
                    )->Ok_0
                    &&& db.default_headers == value.default_headers
                    &&& db.timeout_ms == value.timeout_ms
                    &&& db.supported_cache_ttl_secs == value.supported_cache_ttl_secs
                    &&& db.enabled == value.enabled
                },
                Err(e) => create_profile_error(value) == Some(e@),
            },
    {
        let name = match normalize_name(value.name.as_str()) {
            Ok(v) => v,
            Err(e) => return Err(e),
        };
        let verify_url = match normalize_url(value.verify_url.as_str(), "verifyUrl") {
            Ok(v) => v,
            Err(e) => return Err(e),
        };
        let settle_url = match normalize_url(value.settle_url.as_str(), "settleUrl") {
            Ok(v) => v,
            Err(e) => return Err(e),
        };
        let supported_url = match normalize_url(value.supported_url.as_str(), "supportedUrl") {
            Ok(v) => v,
            Err(e) => return Err(e),
        };
        let timeout_ms = match normalize_timeout_ms(value.timeout_ms) {
            Ok(v) => v,
            Err(e) => return Err(e),
        };
        let supported_cache_ttl_secs = match normalize_supported_cache_ttl(
            value.supported_cache_ttl_secs,
        ) {
            Ok(v) => v,
            Err(e) => return Err(e),
        };
        Ok(CreateFacilitatorProfileDb {
            name,
            verify_url,
            settle_url,
            supported_url,
            default_headers: value.default_headers,
            timeout_ms,
            supported_cache_ttl_secs,
            enabled: value.enabled,
        })
    }
}

/// Validates an optional URL field.
fn normalize_optional_url(value: Option<String>, field: &str) -> (r: Result<
    Option<String>,
    LibError,
>)
    ensures
        match r {
            Ok(out) => optional_text_error(value, |s: Seq<char>| spec_normalize_url(s, field@))
                is None && optional_text_is(
                out,
                value,
                |s: Seq<char>| spec_normalize_url(s, field@),
            ),
            Err(e) => optional_text_error(value, |s: Seq<char>| spec_normalize_url(s, field@))
                == Some(e@),
        },
{
    match value {
        Some(v) => match normalize_url(v.as_str(), field) {
            Ok(n) => Ok(Some(n)),
            Err(e) => Err(e),
        },
        None => Ok(None),
    }
}

impl UpdateFacilitatorProfileDb {
    /// Validates a change: each present field is checked as on creation, in
    /// the order name, URLs, timeout, cache lifetime; absent fields stay absent.
    pub fn from_request(value: UpdateFacilitatorProfileRequest) -> (r: Result<Self, LibError>)
        ensures
            match r {
                Ok(db) => {
                    &&& update_profile_error(value) is None
                    &&& optional_text_is(db.name, value.name, |s: Seq<char>| spec_normalize_name(s))
                    &&& optional_text_is(
                        db.verify_url,
                        value.verify_url,
                        |s: Seq<char>| spec_normalize_url(s, "verifyUrl"@),
                    )
                    &&& optional_text_is(
                        db.settle_url,
                        value.settle_url,
                        |s: Seq<char>| spec_normalize_url(s, "settleUrl"@),
                    )
                    &&& optional_text_is(
                        db.supported_url,
                        value.supported_url,
                        |s: Seq<char>| spec_normalize_url(s, "supportedUrl"@),
                    )
                    &&& db.default_headers == value.default_headers
                    &&& db.timeout_ms == value.timeout_ms
                    &&& db.supported_cache_ttl_secs == value.supported_cache_ttl_secs
                    &&& db.enabled == value.enabled
                },
                Err(e) => update_profile_error(value) == Some(e@),
            },
    {
        let name = match value.name {
            Some(v) => match normalize_name(v.as_str()) {
                Ok(n) => Some(n),
                Err(e) => return Err(e),
            },
            None => None,
        };
        let verify_url = match normalize_optional_url(value.verify_url, "verifyUrl") {
            Ok(v) => v,
            Err(e) => return Err(e),
        };
        let settle_url = match normalize_optional_url(value.settle_url, "settleUrl") {
            Ok(v) => v,
            Err(e) => return Err(e),
        };
        let supported_url = match normalize_optional_url(value.supported_url, "supportedUrl") {
            Ok(v) => v,
            Err(e) => return Err(e),
        };
        let timeout_ms = match value.timeout_ms {
            Some(t) => match normalize_timeout_ms(t) {
                Ok(n) => Some(n),
                Err(e) => return Err(e),
            },
            None => None,
        };
        let supported_cache_ttl_secs = match value.supported_cache_ttl_secs {
            Some(t) => match normalize_supported_cache_ttl(t) {
                Ok(n) => Some(n),
                Err(e) => return Err(e),
            },
            None => None,
        };
        Ok(UpdateFacilitatorProfileDb {
            name,
            verify_url,
            settle_url,
            supported_url,
            default_headers: value.default_headers,
            timeout_ms,
            supported_cache_ttl_secs,
            enabled: value.enabled,
        })
    }
}

} // verus!
