//! Route policies: which requests need which proofs, and the payment options
//! a route accepts.

use chrono::NaiveDateTime;
use uuid::Uuid;
use vstd::prelude::*;

use crate::error::{invalid_error, ErrorView, LibError};
use crate::text::{ascii_upper_seq, to_ascii_uppercase, trim, trim_seq};

verus! {

/// A way a request can prove that it may pass.
#[derive(Debug, Clone, Copy, PartialEq, Eq, Structural)]
pub enum AuthChannel {
    X402,
    ApiKey,
}

/// How the proofs of a policy's channels combine.
#[derive(Debug, Clone, Copy, PartialEq, Eq, Structural)]
pub enum AuthMode {
    /// One passing channel is enough.
    AnyOf,
    /// Every channel must pass.
    AllOf,
}

/// A payment option as contracts see it; the API and stored forms share it.
pub struct RequirementView {
    pub scheme: Seq<char>,
    pub network: Seq<char>,
    pub amount: Seq<char>,
    pub pay_to: Seq<char>,
    pub max_timeout_seconds: u64,
    pub asset: Seq<char>,
    pub extra: Option<Seq<char>>,
}

/// A payment option of a route, as the API shows it.
#[derive(Debug, Clone)]
pub struct X402RequirementApi {
    pub scheme: String,
    pub network: String,
    pub amount: String,
    pub pay_to: String,
    pub max_timeout_seconds: u64,
    pub asset: String,
    /// Scheme-specific data, as JSON text.
    pub extra: Option<String>,
}

/// A payment option of a route, as it is stored.
#[derive(Debug, Clone)]
pub struct X402RequirementDb {
    pub scheme: String,
    pub network: String,
    pub amount: String,
    pub pay_to: String,
    pub max_timeout_seconds: u64,
    pub asset: String,
    /// Scheme-specific data, as JSON text.
    pub extra: Option<String>,
}

impl View for X402RequirementApi {
    type V = RequirementView;

    open spec fn view(&self) -> RequirementView {
        RequirementView {
            scheme: self.scheme@,
            network: self.network@,
            amount: self.amount@,
            pay_to: self.pay_to@,
            max_timeout_seconds: self.max_timeout_seconds,
            asset: self.asset@,
            extra: self.extra.deep_view(),
        }
    }
}

impl View for X402RequirementDb {
    type V = RequirementView;

    open spec fn view(&self) -> RequirementView {
        RequirementView {
            scheme: self.scheme@,
            network: self.network@,
            amount: self.amount@,
            pay_to: self.pay_to@,
            max_timeout_seconds: self.max_timeout_seconds,
            asset: self.asset@,
            extra: self.extra.deep_view(),
        }
    }
}

impl X402RequirementDb {
    /// The stored form of an API payment option; every field is kept.
    pub fn from_api(value: X402RequirementApi) -> (r: Self)
        ensures
            r@ == value@,
    {
        X402RequirementDb {
            scheme: value.scheme,
            network: value.network,
            amount: value.amount,
            pay_to: value.pay_to,
            max_timeout_seconds: value.max_timeout_seconds,
            asset: value.asset,
            extra: value.extra,
        }
    }
}

impl X402RequirementApi {
    /// The API form of a stored payment option; every field is kept.
    pub fn from_db(value: X402RequirementDb) -> (r: Self)
        ensures
            r@ == value@,
    {
        X402RequirementApi {
            scheme: value.scheme,
            network: value.network,
            amount: value.amount,
            pay_to: value.pay_to,
            max_timeout_seconds: value.max_timeout_seconds,
            asset: value.asset,
            extra: value.extra,
        }
    }
}

/// The views of a list of API payment options.
pub open spec fn api_requirements_view(v: Seq<X402RequirementApi>) -> Seq<RequirementView> {
    v.map_values(|r: X402RequirementApi| r@)
}

/// The views of a list of stored payment options.
pub open spec fn db_requirements_view(v: Seq<X402RequirementDb>) -> Seq<RequirementView> {
    v.map_values(|r: X402RequirementDb| r@)
}

/// Every API payment option in its stored form, in order.
pub fn requirements_to_db(items: Vec<X402RequirementApi>) -> (r: Vec<X402RequirementDb>)
    ensures
        db_requirements_view(r@) == api_requirements_view(items@),
{
    let ghost src = items@;
    let mut out: Vec<X402RequirementDb> = Vec::new();
    for item in it: items
        invariant
            it.seq() == src,
            out@.len() == it.index(),
            forall|j: int| 0 <= j < out@.len() ==> #[trigger] out@[j]@ == src[j]@,
    {
        out.push(X402RequirementDb::from_api(item));
    }
    assert(db_requirements_view(out@) =~= api_requirements_view(src));
    out
}

/// Every stored payment option in its API form, in order.
pub fn requirements_to_api(items: Vec<X402RequirementDb>) -> (r: Vec<X402RequirementApi>)
    ensures
        api_requirements_view(r@) == db_requirements_view(items@),
{
    let ghost src = items@;
    let mut out: Vec<X402RequirementApi> = Vec::new();
    for item in it: items
        invariant
            it.seq() == src,
            out@.len() == it.index(),
            forall|j: int| 0 <= j < out@.len() ==> #[trigger] out@[j]@ == src[j]@,
    {
        out.push(X402RequirementApi::from_db(item));
    }
    assert(api_requirements_view(out@) =~= db_requirements_view(src));
    out
}

} // verus!

verus! {

/// `s` with every element after its first occurrence removed; the order of
/// first occurrences is kept.
pub open spec fn dedup_seq<T>(s: Seq<T>) -> Seq<T>
    decreases s.len(),
{
    if s.len() == 0 {
        Seq::empty()
    } else {
        let d = dedup_seq(s.drop_last());
        if d.contains(s.last()) {
            d
        } else {
            d.push(s.last())
        }
    }
}

/// What normalizing an HTTP method gives: the trimmed method in ASCII upper
/// case, or an error when nothing is left.
pub open spec fn spec_normalize_http_method(method: Seq<char>) -> Result<Seq<char>, ErrorView> {
    let normalized = ascii_upper_seq(trim_seq(method));
    if normalized.len() == 0 {
        Err(invalid_error("HTTP method is required"@, "route policy method cannot be empty"@))
    } else {
        Ok(normalized)
    }
}

/// What normalizing a path pattern gives: the trimmed pattern, which must
/// start with `/`.
pub open spec fn spec_normalize_path_pattern(pattern: Seq<char>) -> Result<Seq<char>, ErrorView> {
    let normalized = trim_seq(pattern);
    if normalized.len() > 0 && normalized[0] == '/' {
        Ok(normalized)
    } else {
        Err(
            invalid_error(
                "Path pattern must start with '/'"@,
                "invalid route policy path pattern: "@ + normalized,
            ),
        )
    }
}

/// The error for a policy without channels.
pub open spec fn no_channels_error() -> ErrorView {
    invalid_error("At least one auth channel is required"@, "route policy channels cannot be empty"@)
}

/// Normalizes an HTTP method: trims it and maps it to ASCII upper case.
pub fn normalize_http_method(method: &str) -> (r: Result<String, LibError>)
    ensures
        crate::error::text_result_is(r, spec_normalize_http_method(method@)),
{
    let normalized = to_ascii_uppercase(trim(method));
    if normalized.as_str().unicode_len() == 0 {
        return Err(
            LibError::invalid("HTTP method is required", "route policy method cannot be empty"),
        );
    }
    Ok(normalized)
}

/// Normalizes a path pattern: trims it and requires a leading `/`.
pub fn normalize_path_pattern(path_pattern: &str) -> (r: Result<String, LibError>)
    ensures
        crate::error::text_result_is(r, spec_normalize_path_pattern(path_pattern@)),
{
    let normalized = trim(path_pattern);
    if normalized.unicode_len() == 0 || normalized.get_char(0) != '/' {
        let detail = String::from_str("invalid route policy path pattern: ").concat(normalized);
        return Err(LibError::invalid("Path pattern must start with '/'", detail.as_str()));
    }
    Ok(String::from_str(normalized))
}

/// A non-empty sequence keeps an element when its duplicates are removed.
pub proof fn lemma_dedup_nonempty<T>(s: Seq<T>)
    requires
        s.len() > 0,
    ensures
        dedup_seq(s).len() > 0,
{
    let d = dedup_seq(s.drop_last());
    if !d.contains(s.last()) {
        assert(d.push(s.last()).len() > 0);
    }
}

/// Whether `x` occurs in `v`.
fn channel_in(v: &Vec<AuthChannel>, x: AuthChannel) -> (r: bool)
    ensures
        r == v@.contains(x),
{
    let mut j: usize = 0;
    while j < v.len()
        invariant
            j <= v@.len(),
            forall|k: int| 0 <= k < j ==> v@[k] != x,
        decreases v@.len() - j,
    {
        if v[j] == x {
            return true;
        }
        j = j + 1;
    }
    false
}

/// Removes repeated channels, keeping the first occurrence of each, and
/// refuses an empty list.
pub fn normalize_channels(channels: Vec<AuthChannel>) -> (r: Result<Vec<AuthChannel>, LibError>)
    ensures
        match r {
            Ok(out) => channels@.len() > 0 && out@ == dedup_seq(channels@),
            Err(e) => channels@.len() == 0 && e@ == no_channels_error(),
        },
{
    let ghost src = channels@;
    let mut out: Vec<AuthChannel> = Vec::with_capacity(channels.len());
    for channel in it: channels
        invariant
            it.seq() == src,
            out@ == dedup_seq(src.take(it.index() as int)),
    {
        let ghost i = it.index() as int;
        assert(src.take(i + 1).drop_last() =~= src.take(i));
        if !channel_in(&out, channel) {
            out.push(channel);
        }
    }
    assert(src.take(src.len() as int) =~= src);
    if out.len() == 0 {
        proof {
            if src.len() > 0 {
                lemma_dedup_nonempty(src);
            }
        }
        return Err(
            LibError::invalid(
                "At least one auth channel is required",
                "route policy channels cannot be empty",
            ),
        );
    }
    Ok(out)
}

} // verus!

verus! {

/// Removing duplicates keeps exactly the elements that occur.
pub proof fn lemma_dedup_same_elements<T>(s: Seq<T>, x: T)
    ensures
        dedup_seq(s).contains(x) <==> s.contains(x),
    decreases s.len(),
{
    if s.len() > 0 {
        let p = s.drop_last();
        lemma_dedup_same_elements(p, x);
        let d = dedup_seq(p);
        if d.contains(s.last()) {
            if s.contains(x) {
                let k = choose|k: int| 0 <= k < s.len() && s[k] == x;
                if k < p.len() {
                    assert(p[k] == x);
                }
            }
        } else {
            let e = d.push(s.last());
            if d.contains(x) {
                let k = choose|k: int| 0 <= k < d.len() && d[k] == x;
                assert(e[k] == x);
            }
            if x == s.last() {
                assert(e[d.len() as int] == x);
            }
            if e.contains(x) {
                let k = choose|k: int| 0 <= k < e.len() && e[k] == x;
                if k < d.len() {
                    assert(d[k] == x);
                    let m = choose|m: int| 0 <= m < p.len() && p[m] == x;
                    assert(s[m] == x);
                } else {
                    assert(s[s.len() - 1] == x);
                }
            }
            if s.contains(x) {
                let k = choose|k: int| 0 <= k < s.len() && s[k] == x;
                if k < p.len() {
                    assert(p[k] == x);
                }
            }
        }
    }
}

/// After removing duplicates no element occurs twice.
pub proof fn lemma_dedup_distinct<T>(s: Seq<T>)
    ensures
        forall|i: int, j: int|
            0 <= i < j < dedup_seq(s).len() ==> dedup_seq(s)[i] != dedup_seq(s)[j],
    decreases s.len(),
{
    if s.len() > 0 {
        let p = s.drop_last();
        lemma_dedup_distinct(p);
        let d = dedup_seq(p);
        if !d.contains(s.last()) {
            let e = d.push(s.last());
            assert forall|i: int, j: int| 0 <= i < j < e.len() implies e[i] != e[j] by {
                if j == d.len() {
                    assert(d[i] == e[i]);
                }
            }
        }
    }
}

/// Whether, in `s`, every occurrence of `y` comes after some occurrence of `x`.
pub open spec fn occurs_before<T>(s: Seq<T>, x: T, y: T) -> bool {
    forall|b: int| 0 <= b < s.len() && #[trigger] s[b] == y ==> exists|a: int| 0 <= a < b && s[a] == x
}

proof fn lemma_dedup_order_step<T>(s: Seq<T>, i: int, j: int)
    requires
        s.len() > 0,
        0 <= i < j < dedup_seq(s).len(),
        forall|i2: int, j2: int|
            0 <= i2 < j2 < dedup_seq(s.drop_last()).len() ==> occurs_before(
                s.drop_last(),
                #[trigger] dedup_seq(s.drop_last())[i2],
                #[trigger] dedup_seq(s.drop_last())[j2],
            ),
    ensures
        occurs_before(s, dedup_seq(s)[i], dedup_seq(s)[j]),
{
    let p = s.drop_last();
    let d = dedup_seq(p);
    let e = dedup_seq(s);
    assert forall|b: int| 0 <= b < s.len() && #[trigger] s[b] == e[j] implies exists|a: int|
        0 <= a < b && s[a] == e[i] by {
        if d.contains(s.last()) {
            assert(e == d);
            assert(occurs_before(p, d[i], d[j]));
            if b < p.len() {
                assert(p[b] == s[b]);
                let a = choose|a: int| 0 <= a < b && p[a] == d[i];
                assert(s[a] == e[i]);
            } else {
                lemma_dedup_same_elements(p, e[j]);
                assert(d[j] == e[j]);
                assert(d.contains(e[j]));
                let b2 = choose|b2: int| 0 <= b2 < p.len() && p[b2] == e[j];
                assert(p[b2] == d[j]);
                let a = choose|a: int| 0 <= a < b2 && p[a] == d[i];
                assert(s[a] == e[i]);
            }
        } else {
            assert(e == d.push(s.last()));
            if j < d.len() {
                assert(e[j] == d[j] && e[i] == d[i]);
                assert(occurs_before(p, d[i], d[j]));
                if b < p.len() {
                    assert(p[b] == s[b]);
                    let a = choose|a: int| 0 <= a < b && p[a] == d[i];
                    assert(s[a] == e[i]);
                } else {
                    assert(d.contains(d[j]));
                    assert(s[b] == s.last());
                }
            } else {
                assert(e[j] == s.last());
                assert(e[i] == d[i]);
                assert(d.contains(d[i]));
                lemma_dedup_same_elements(p, e[i]);
                let a = choose|a: int| 0 <= a < p.len() && p[a] == e[i];
                if b < p.len() {
                    assert(p[b] == s.last());
                    lemma_dedup_same_elements(p, s.last());
                    assert(p.contains(s.last()));
                }
                assert(s[a] == e[i]);
            }
        }
    }
}

/// After removing duplicates, the elements come in the order of their first
/// occurrences: every occurrence of a later element is preceded by an
/// occurrence of each earlier one.
pub proof fn lemma_dedup_first_occurrence_order<T>(s: Seq<T>)
    ensures
        forall|i: int, j: int|
            0 <= i < j < dedup_seq(s).len() ==> occurs_before(
                s,
                #[trigger] dedup_seq(s)[i],
                #[trigger] dedup_seq(s)[j],
            ),
    decreases s.len(),
{
    if s.len() > 0 {
        lemma_dedup_first_occurrence_order(s.drop_last());
        assert forall|i: int, j: int| 0 <= i < j < dedup_seq(s).len() implies occurs_before(
            s,
            #[trigger] dedup_seq(s)[i],
            #[trigger] dedup_seq(s)[j],
        ) by {
            lemma_dedup_order_step(s, i, j);
        }
    }
}

/// A sequence without repeated elements is its own deduplication.
pub proof fn lemma_dedup_of_distinct<T>(s: Seq<T>)
    requires
        forall|i: int, j: int| 0 <= i < j < s.len() ==> s[i] != s[j],
    ensures
        dedup_seq(s) == s,
    decreases s.len(),
{
    if s.len() > 0 {
        let p = s.drop_last();
        lemma_dedup_of_distinct(p);
        if p.contains(s.last()) {
            let k = choose|k: int| 0 <= k < p.len() && p[k] == s.last();
            assert(s[k] == s[s.len() - 1]);
        }
        assert(p.push(s.last()) =~= s);
    }
}

/// Normalizing channels twice gives what normalizing once gives.
pub proof fn lemma_normalize_channels_idempotent(channels: Seq<AuthChannel>)
    ensures
        dedup_seq(dedup_seq(channels)) == dedup_seq(channels),
{
    lemma_dedup_distinct(channels);
    lemma_dedup_of_distinct(dedup_seq(channels));
}

} // verus!

verus! {

/// A route policy as contracts see it; the API and stored forms share it.
pub struct PolicyView {
    pub id: Uuid,
    pub method: Seq<char>,
    pub path_pattern: Seq<char>,
    pub mode: AuthMode,
    pub channels: Seq<AuthChannel>,
    pub facilitator_profile_id: Option<Uuid>,
    pub x402_accepts: Seq<RequirementView>,
    pub active: bool,
    pub created_at: NaiveDateTime,
    pub updated_at: NaiveDateTime,
}

/// A route policy as the API shows it.
#[derive(Debug, Clone)]
pub struct RoutePolicyApi {
    pub id: Uuid,
    pub method: String,
    pub path_pattern: String,
    pub mode: AuthMode,
    pub channels: Vec<AuthChannel>,
    pub facilitator_profile_id: Option<Uuid>,
    pub x402_accepts: Vec<X402RequirementApi>,
    pub active: bool,
    pub created_at: NaiveDateTime,
    pub updated_at: NaiveDateTime,
}

/// A route policy as it is stored.
#[derive(Debug, Clone)]
pub struct RoutePolicyDb {
    pub id: Uuid,
    pub method: String,
    pub path_pattern: String,
    pub mode: AuthMode,
    pub channels: Vec<AuthChannel>,
    pub facilitator_profile_id: Option<Uuid>,
    pub x402_accepts: Vec<X402RequirementDb>,
    pub active: bool,
    pub created_at: NaiveDateTime,
    pub updated_at: NaiveDateTime,
}

impl View for RoutePolicyApi {
    type V = PolicyView;

    open spec fn view(&self) -> PolicyView {
        PolicyView {
            id: self.id,
            method: self.method@,
            path_pattern: self.path_pattern@,
            mode: self.mode,
            channels: self.channels@,
            facilitator_profile_id: self.facilitator_profile_id,
            x402_accepts: api_requirements_view(self.x402_accepts@),
            active: self.active,
            created_at: self.created_at,
            updated_at: self.updated_at,
        }
    }
}

impl View for RoutePolicyDb {
    type V = PolicyView;

    open spec fn view(&self) -> PolicyView {
        PolicyView {
            id: self.id,
            method: self.method@,
            path_pattern: self.path_pattern@,
            mode: self.mode,
            channels: self.channels@,
            facilitator_profile_id: self.facilitator_profile_id,
            x402_accepts: db_requirements_view(self.x402_accepts@),
            active: self.active,
            created_at: self.created_at,
            updated_at: self.updated_at,
        }
    }
}

impl RoutePolicyApi {
    /// The API form of a stored policy; every field is kept.
    pub fn from_db(value: RoutePolicyDb) -> (r: Self)
        ensures
            r@ == value@,
    {
        RoutePolicyApi {
            id: value.id,
            method: value.method,
            path_pattern: value.path_pattern,
            mode: value.mode,
            channels: value.channels,
            facilitator_profile_id: value.facilitator_profile_id,
            x402_accepts: requirements_to_api(value.x402_accepts),
            active: value.active,
            created_at: value.created_at,
            updated_at: value.updated_at,
        }
    }
}

/// A request to create a route policy, as the API receives it.
#[derive(Debug, Clone)]
pub struct CreateRoutePolicyRequest {
    pub method: String,
    pub path_pattern: String,
    pub mode: AuthMode,
    pub channels: Vec<AuthChannel>,
    pub facilitator_profile_id: Option<Uuid>,
    pub x402_accepts: Vec<X402RequirementApi>,
    pub active: bool,
}

/// A request to change a route policy; absent fields stay as they are.
#[derive(Debug, Clone)]
pub struct UpdateRoutePolicyRequest {
    pub mode: Option<AuthMode>,
    pub channels: Option<Vec<AuthChannel>>,
    pub facilitator_profile_id: Option<Option<Uuid>>,
    pub x402_accepts: Option<Vec<X402RequirementApi>>,
    pub active: Option<bool>,
}

/// A validated route policy, ready to be stored.
#[derive(Debug, Clone)]
pub struct CreateRoutePolicyDb {
    pub method: String,
    pub path_pattern: String,
    pub mode: AuthMode,
    pub channels: Vec<AuthChannel>,
    pub facilitator_profile_id: Option<Uuid>,
    pub x402_accepts: Vec<X402RequirementDb>,
    pub active: bool,
}

/// A validated change to a stored route policy.
#[derive(Debug, Clone)]
pub struct UpdateRoutePolicyDb {
    pub mode: Option<AuthMode>,
    pub channels: Option<Vec<AuthChannel>>,
    pub facilitator_profile_id: Option<Option<Uuid>>,
    pub x402_accepts: Option<Vec<X402RequirementDb>>,
    pub active: Option<bool>,
}

impl Default for UpdateRoutePolicyDb {
    fn default() -> (r: Self)
        ensures
            r.mode is None,
            r.channels is None,
            r.facilitator_profile_id is None,
            r.x402_accepts is None,
            r.active is None,
    {
        UpdateRoutePolicyDb {
            mode: None,
            channels: None,
            facilitator_profile_id: None,
            x402_accepts: None,
            active: None,
        }
    }
}

/// The first error that validating a create request meets, if any.
pub open spec fn create_policy_error(value: CreateRoutePolicyRequest) -> Option<ErrorView> {
    if spec_normalize_http_method(value.method@) is Err {
        Some(spec_normalize_http_method(value.method@)->Err_0)
    } else if spec_normalize_path_pattern(value.path_pattern@) is Err {
        Some(spec_normalize_path_pattern(value.path_pattern@)->Err_0)
    } else if value.channels@.len() == 0 {
        Some(no_channels_error())
    } else {
        None
    }
}

impl CreateRoutePolicyDb {
    /// Validates a create request: the method is trimmed and upper-cased, the
    /// path pattern trimmed and required to start with `/`, the channels
    /// deduplicated and required to be non-empty; the other fields are kept.
    pub fn from_request(value: CreateRoutePolicyRequest) -> (r: Result<Self, LibError>)
        ensures
            match r {
                Ok(db) => {
                    &&& create_policy_error(value) is None
                    &&& db.method@ == spec_normalize_http_method(value.method@)->Ok_0
                    &&& db.path_pattern@ == spec_normalize_path_pattern(value.path_pattern@)->Ok_0
                    &&& db.mode == value.mode
                    &&& db.channels@ == dedup_seq(value.channels@)
                    &&& db.facilitator_profile_id == value.facilitator_profile_id
                    &&& db_requirements_view(db.x402_accepts@) == api_requirements_view(value.x402_accepts@)
                    &&& db.active == value.active
                },
                Err(e) => create_policy_error(value) == Some(e@),
            },
    {
        let method = match normalize_http_method(value.method.as_str()) {
            Ok(m) => m,
            Err(e) => return Err(e),
        };
        let path_pattern = match normalize_path_pattern(value.path_pattern.as_str()) {
            Ok(p) => p,
            Err(e) => return Err(e),
        };
        let channels = match normalize_channels(value.channels) {
            Ok(c) => c,
            Err(e) => return Err(e),
        };
        Ok(CreateRoutePolicyDb {
            method,
            path_pattern,
            mode: value.mode,
            channels,
            facilitator_profile_id: value.facilitator_profile_id,
            x402_accepts: requirements_to_db(value.x402_accepts),
            active: value.active,
        })
    }
}

impl UpdateRoutePolicyDb {
    /// Validates a change: channels, when given, are deduplicated and must be
    /// non-empty; the other fields are kept.
    pub fn from_request(value: UpdateRoutePolicyRequest) -> (r: Result<Self, LibError>)
        ensures
            match r {
                Ok(db) => {
                    &&& match (db.channels, value.channels) {
                        (Some(out), Some(given)) => given@.len() > 0 && out@ == dedup_seq(given@),
                        (None, None) => true,
                        _ => false,
                    }
                    &&& db.mode == value.mode
                    &&& db.facilitator_profile_id == value.facilitator_profile_id
                    &&& match (db.x402_accepts, value.x402_accepts) {
                        (Some(out), Some(given)) => db_requirements_view(out@) == api_requirements_view(given@),
                        (None, None) => true,
                        _ => false,
                    }
                    &&& db.active == value.active
                },
                Err(e) => value.channels matches Some(given) && given@.len() == 0 && e@ == no_channels_error(),
            },
    {
        let channels = match value.channels {
            Some(given) => match normalize_channels(given) {
                Ok(c) => Some(c),
                Err(e) => return Err(e),
            },
            None => None,
        };
        let x402_accepts = match value.x402_accepts {
            Some(items) => Some(requirements_to_db(items)),
            None => None,
        };
        Ok(UpdateRoutePolicyDb {
            mode: value.mode,
            channels,
            facilitator_profile_id: value.facilitator_profile_id,
            x402_accepts,
            active: value.active,
        })
    }
}

/// The page to show: the requested one, at least 1; the first by default.
pub open spec fn spec_page(page: Option<u32>) -> u32 {
    match page {
        Some(p) => if p < 1 { 1 } else { p },
        None => 1,
    }
}

/// The page size to use: the requested one, or `default`, held to `1..=max`.
pub open spec fn spec_limit(limit: Option<u32>, default: u32, max: u32) -> u32 {
    let l = match limit {
        Some(l) => l,
        None => default,
    };
    if l < 1 {
        1
    } else if l > max {
        max
    } else {
        l
    }
}

/// The page number, at least 1, or 1 when absent.
pub fn page_number(page: Option<u32>) -> (r: u32)
    ensures
        r == spec_page(page),
{
    match page {
        Some(p) => if p < 1 { 1 } else { p },
        None => 1,
    }
}

/// The page size, or `default` when absent, held to `1..=max`.
pub fn page_limit(limit: Option<u32>, default: u32, max: u32) -> (r: u32)
    requires
        1 <= max,
    ensures
        r == spec_limit(limit, default, max),
{
    let l = match limit {
        Some(l) => l,
        None => default,
    };
    if l < 1 {
        1
    } else if l > max {
        max
    } else {
        l
    }
}

/// Filters and paging for listing route policies.
#[derive(Debug, Clone)]
pub struct RoutePolicyListQuery {
    pub page: Option<u32>,
    pub limit: Option<u32>,
    pub method: Option<String>,
    pub active: Option<bool>,
}

impl Default for RoutePolicyListQuery {
    fn default() -> (r: Self)
        ensures
            r.page is None,
            r.limit is None,
            r.method is None,
            r.active is None,
    {
        RoutePolicyListQuery { page: None, limit: None, method: None, active: None }
    }
}

impl RoutePolicyListQuery {
    /// The page (at least 1, default 1) and page size (default 50, held to 1..=200).
    pub fn pagination(&self) -> (r: (u32, u32))
        ensures
            r == (spec_page(self.page), spec_limit(self.limit, 50, 200)),
    {
        (page_number(self.page), page_limit(self.limit, 50, 200))
    }
}

/// Whether a policy is active unless a request says otherwise.
pub fn default_true() -> (r: bool)
    ensures
        r,
{
    true
}

} // verus!
