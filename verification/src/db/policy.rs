//! The decisions behind storing and resolving route policies: how stored
//! rows decode, how a change merges into a stored policy, and which policy
//! governs a request.

use chrono::NaiveDateTime;
use uuid::Uuid;
use vstd::prelude::*;

use crate::error::{database_error, kind_error, ErrorKind, ErrorView, LibError};
use crate::models::policy::{
    db_requirements_view, AuthChannel, AuthMode, PolicyView, RoutePolicyDb, RoutePolicyListQuery,
    UpdateRoutePolicyDb, X402RequirementDb, spec_limit, spec_page,
};
use crate::text::{
    texts_view, ascii_upper_seq, ends_with_char, starts_with, str_eq, to_ascii_uppercase, trim, trim_end_char,
    trim_end_char_seq, trim_seq,
};

verus! {

/// The stored name of a mode.
pub open spec fn spec_mode_name(mode: AuthMode) -> Seq<char> {
    match mode {
        AuthMode::AnyOf => "any_of"@,
        AuthMode::AllOf => "all_of"@,
    }
}

/// What decoding a stored mode name gives.
pub open spec fn spec_parse_mode(value: Seq<char>) -> Result<AuthMode, ErrorView> {
    if value == "any_of"@ {
        Ok(AuthMode::AnyOf)
    } else if value == "all_of"@ {
        Ok(AuthMode::AllOf)
    } else {
        Err(database_error("Failed to decode route policy mode"@, "unknown auth mode: "@ + value))
    }
}

/// The stored name of a channel.
pub open spec fn spec_channel_name(channel: AuthChannel) -> Seq<char> {
    match channel {
        AuthChannel::X402 => "x402"@,
        AuthChannel::ApiKey => "api_key"@,
    }
}

/// The error for a stored channel list that does not decode.
pub open spec fn channels_decode_error(detail: Seq<char>) -> ErrorView {
    database_error("Failed to decode route policy channels"@, "parse_channels failed: "@ + detail)
}

/// The decoding failure for a name that is no channel.
pub open spec fn unknown_channel_detail(value: Seq<char>) -> Seq<char> {
    "unknown variant `"@ + value + "`, expected `x402` or `api_key`"@
}

/// What decoding one stored channel name gives.
pub open spec fn spec_parse_channel(value: Seq<char>) -> Result<AuthChannel, ErrorView> {
    if value == "x402"@ {
        Ok(AuthChannel::X402)
    } else if value == "api_key"@ {
        Ok(AuthChannel::ApiKey)
    } else {
        Err(channels_decode_error(unknown_channel_detail(value)))
    }
}

/// The stored name of a mode.
pub fn mode_to_str(mode: AuthMode) -> (r: &'static str)
    ensures
        r@ == spec_mode_name(mode),
{
    match mode {
        AuthMode::AnyOf => "any_of",
        AuthMode::AllOf => "all_of",
    }
}

/// Decodes a stored mode name.
pub fn parse_mode(value: &str) -> (r: Result<AuthMode, LibError>)
    ensures
        crate::error::result_is(r, spec_parse_mode(value@)),
{
    if str_eq(value, "any_of") {
        Ok(AuthMode::AnyOf)
    } else if str_eq(value, "all_of") {
        Ok(AuthMode::AllOf)
    } else {
        let detail = String::from_str("unknown auth mode: ").concat(value);
        Err(LibError::database("Failed to decode route policy mode", detail.as_str()))
    }
}

/// The stored name of a channel.
pub fn channel_to_str(channel: AuthChannel) -> (r: &'static str)
    ensures
        r@ == spec_channel_name(channel),
{
    match channel {
        AuthChannel::X402 => "x402",
        AuthChannel::ApiKey => "api_key",
    }
}

/// Decodes one stored channel name.
pub fn parse_channel(value: &str) -> (r: Result<AuthChannel, LibError>)
    ensures
        crate::error::result_is(r, spec_parse_channel(value@)),
{
    if str_eq(value, "x402") {
        Ok(AuthChannel::X402)
    } else if str_eq(value, "api_key") {
        Ok(AuthChannel::ApiKey)
    } else {
        let detail = String::from_str("parse_channels failed: ").concat("unknown variant `").concat(
            value,
        ).concat("`, expected `x402` or `api_key`");
        assert(detail@ =~= "parse_channels failed: "@ + unknown_channel_detail(value@));
        Err(LibError::database("Failed to decode route policy channels", detail.as_str()))
    }
}

/// The stored names of a list of channels, in order.
pub open spec fn spec_channel_names(channels: Seq<AuthChannel>) -> Seq<Seq<char>> {
    channels.map_values(|c: AuthChannel| spec_channel_name(c))
}

/// The stored names of a list of channels, in order.
pub fn channel_names(channels: &Vec<AuthChannel>) -> (r: Vec<String>)
    ensures
        texts_view(r@) == spec_channel_names(channels@),
{
    let mut out: Vec<String> = Vec::new();
    let mut i: usize = 0;
    while i < channels.len()
        invariant
            i <= channels@.len(),
            out@.len() == i,
            forall|j: int| 0 <= j < i ==> #[trigger] out@[j]@ == spec_channel_name(channels@[j]),
        decreases channels@.len() - i,
    {
        out.push(String::from_str(channel_to_str(channels[i])));
        i = i + 1;
    }
    assert(texts_view(out@) =~= spec_channel_names(channels@));
    out
}

/// What decoding a list of stored channel names gives: the channels in
/// order, or the error of the first name that is no channel.
pub open spec fn spec_parse_channels(names: Seq<Seq<char>>) -> Result<Seq<AuthChannel>, ErrorView>
    decreases names.len(),
{
    if names.len() == 0 {
        Ok(Seq::empty())
    } else {
        match spec_parse_channels(names.drop_last()) {
            Err(e) => Err(e),
            Ok(prefix) => match spec_parse_channel(names.last()) {
                Err(e) => Err(e),
                Ok(c) => Ok(prefix.push(c)),
            },
        }
    }
}

/// Decodes a list of stored channel names.
pub fn parse_channels(names: &Vec<String>) -> (r: Result<Vec<AuthChannel>, LibError>)
    ensures
        match (r, spec_parse_channels(texts_view(names@))) {
            (Ok(a), Ok(b)) => a@ == b,
            (Err(a), Err(b)) => a@ == b,
            _ => false,
        },
{
    let ghost all = texts_view(names@);
    let mut out: Vec<AuthChannel> = Vec::new();
    let mut i: usize = 0;
    while i < names.len()
        invariant
            i <= names@.len(),
            all == texts_view(names@),
            spec_parse_channels(all.take(i as int)) == Ok::<Seq<AuthChannel>, ErrorView>(out@),
        decreases names@.len() - i,
    {
        assert(all.take(i + 1).drop_last() =~= all.take(i as int));
        assert(all.take(i + 1).last() == names@[i as int]@);
        match parse_channel(names[i].as_str()) {
            Ok(c) => out.push(c),
            Err(e) => {
                proof {
                    lemma_parse_channels_error_sticks(all, i as int + 1);
                }
                return Err(e);
            },
        }
        i = i + 1;
    }
    assert(all.take(names@.len() as int) =~= all);
    Ok(out)
}

/// Every mode decodes back from its stored name.
pub proof fn lemma_mode_name_roundtrip(mode: AuthMode)
    ensures
        spec_parse_mode(spec_mode_name(mode)) == Ok::<AuthMode, ErrorView>(mode),
{
    reveal_strlit("any_of");
    reveal_strlit("all_of");
    assert("any_of"@[1] != "all_of"@[1]);
}

/// Every channel decodes back from its stored name.
pub proof fn lemma_channel_name_roundtrip(channel: AuthChannel)
    ensures
        spec_parse_channel(spec_channel_name(channel)) == Ok::<AuthChannel, ErrorView>(channel),
{
    reveal_strlit("x402");
    reveal_strlit("api_key");
    assert("x402"@[0] != "api_key"@[0]);
}

/// Every list of channels decodes back from its stored names, in the same
/// order.
pub proof fn lemma_channel_names_roundtrip(channels: Seq<AuthChannel>)
    ensures
        spec_parse_channels(spec_channel_names(channels)) == Ok::<Seq<AuthChannel>, ErrorView>(channels),
    decreases channels.len(),
{
    if channels.len() == 0 {
        assert(spec_channel_names(channels) =~= Seq::<Seq<char>>::empty());
        assert(channels =~= Seq::<AuthChannel>::empty());
    } else {
        lemma_channel_names_roundtrip(channels.drop_last());
        lemma_channel_name_roundtrip(channels.last());
        let names = spec_channel_names(channels);
        assert(names.drop_last() =~= spec_channel_names(channels.drop_last()));
        assert(names.last() == spec_channel_name(channels.last()));
        assert(channels.drop_last().push(channels.last()) =~= channels);
    }
}

/// Once a prefix of the names fails to decode, the whole list fails with
/// the same error.
proof fn lemma_parse_channels_error_sticks(names: Seq<Seq<char>>, k: int)
    requires
        0 <= k <= names.len(),
        spec_parse_channels(names.take(k)) is Err,
    ensures
        spec_parse_channels(names) == spec_parse_channels(names.take(k)),
    decreases names.len() - k,
{
    if k < names.len() {
        assert(names.take(k + 1).drop_last() =~= names.take(k));
        lemma_parse_channels_error_sticks(names, k + 1);
    } else {
        assert(names.take(k) =~= names);
    }
}

} // verus!

verus! {

/// A stored route policy as it comes from the database, its JSON columns
/// already decoded as far as plain values go.
pub struct RoutePolicyRow {
    pub id: Uuid,
    pub method: String,
    pub path_pattern: String,
    pub mode: String,
    /// The stored channel names, or why the column is not a list of names.
    pub channels: Result<Vec<String>, String>,
    pub facilitator_profile_id: Option<Uuid>,
    /// The stored payment options, or why the column does not decode.
    pub x402_accepts: Result<Vec<X402RequirementDb>, String>,
    pub active: bool,
    pub created_at: NaiveDateTime,
    pub updated_at: NaiveDateTime,
}

/// The error for stored payment options that do not decode.
pub open spec fn accepts_decode_error(detail: Seq<char>) -> ErrorView {
    database_error("Failed to decode x402 accepts"@, "parse_accepts failed: "@ + detail)
}

/// What decoding a stored row gives: the policy, or the error of the first
/// column (mode, channels, payment options) that does not decode.
pub open spec fn spec_row_to_model(row: RoutePolicyRow) -> Result<PolicyView, ErrorView> {
    if spec_parse_mode(row.mode@) is Err {
        Err(spec_parse_mode(row.mode@)->Err_0)
    } else if row.channels is Err {
        Err(channels_decode_error(row.channels->Err_0@))
    } else if spec_parse_channels(texts_view(row.channels->Ok_0@)) is Err {
        Err(spec_parse_channels(texts_view(row.channels->Ok_0@))->Err_0)
    } else if row.x402_accepts is Err {
        Err(accepts_decode_error(row.x402_accepts->Err_0@))
    } else {
        Ok(
            PolicyView {
                id: row.id,
                method: row.method@,
                path_pattern: row.path_pattern@,
                mode: spec_parse_mode(row.mode@)->Ok_0,
                channels: spec_parse_channels(texts_view(row.channels->Ok_0@))->Ok_0,
                facilitator_profile_id: row.facilitator_profile_id,
                x402_accepts: db_requirements_view(row.x402_accepts->Ok_0@),
                active: row.active,
                created_at: row.created_at,
                updated_at: row.updated_at,
            },
        )
    }
}

/// Whether an executable policy result is the given outcome.
pub open spec fn policy_result_is(r: Result<RoutePolicyDb, LibError>, s: Result<PolicyView, ErrorView>) -> bool {
    match (r, s) {
        (Ok(a), Ok(b)) => a@ == b,
        (Err(a), Err(b)) => a@ == b,
        _ => false,
    }
}

/// Decodes a stored row into a policy.
pub fn row_to_model(row: RoutePolicyRow) -> (r: Result<RoutePolicyDb, LibError>)
    ensures
        policy_result_is(r, spec_row_to_model(row)),
{
    let mode = match parse_mode(row.mode.as_str()) {
        Ok(m) => m,
        Err(e) => return Err(e),
    };
    let names = match row.channels {
        Ok(n) => n,
        Err(detail) => {
            let d = String::from_str("parse_channels failed: ").concat(detail.as_str());
            return Err(LibError::database("Failed to decode route policy channels", d.as_str()));
        },
    };
    let channels = match parse_channels(&names) {
        Ok(c) => c,
        Err(e) => return Err(e),
    };
    let x402_accepts = match row.x402_accepts {
        Ok(a) => a,
        Err(detail) => {
            let d = String::from_str("parse_accepts failed: ").concat(detail.as_str());
            return Err(LibError::database("Failed to decode x402 accepts", d.as_str()));
        },
    };
    Ok(RoutePolicyDb {
        id: row.id,
        method: row.method,
        path_pattern: row.path_pattern,
        mode,
        channels,
        facilitator_profile_id: row.facilitator_profile_id,
        x402_accepts,
        active: row.active,
        created_at: row.created_at,
        updated_at: row.updated_at,
    })
}

/// Whether a request path falls under a path pattern: a pattern ending in
/// `*` covers every path that starts with the pattern without its trailing
/// stars; any other pattern covers only itself.
pub open spec fn spec_path_pattern_matches(pattern: Seq<char>, path: Seq<char>) -> bool {
    if pattern.len() > 0 && pattern.last() == '*' {
        trim_end_char_seq(pattern, '*').is_prefix_of(path)
    } else {
        path == pattern
    }
}

/// Whether a request path falls under a path pattern.
pub fn path_pattern_matches(pattern: &str, path: &str) -> (r: bool)
    ensures
        r == spec_path_pattern_matches(pattern@, path@),
        pattern@.len() > 0 && pattern@.last() == '*' ==> (r <==> trim_end_char_seq(pattern@, '*').is_prefix_of(
            path@,
        )),
        !(pattern@.len() > 0 && pattern@.last() == '*') ==> (r <==> path@ == pattern@),
{
    if ends_with_char(pattern, '*') {
        let prefix = trim_end_char(pattern, '*');
        starts_with(path, prefix)
    } else {
        str_eq(path, pattern)
    }
}

/// `k` stars.
pub open spec fn stars(k: nat) -> Seq<char> {
    Seq::new(k, |i: int| '*')
}

/// Removing the trailing stars of a text that is `q` and then stars gives
/// back `q`, when `q` does not end in a star.
proof fn lemma_trim_stars(q: Seq<char>, k: nat)
    requires
        q.len() == 0 || q.last() != '*',
    ensures
        trim_end_char_seq(q + stars(k), '*') == q,
    decreases k,
{
    if k == 0 {
        assert(q + stars(0) =~= q);
    } else {
        let t = q + stars(k);
        assert(t.last() == '*');
        assert(t.drop_last() =~= q + stars((k - 1) as nat));
        lemma_trim_stars(q, (k - 1) as nat);
    }
}

/// A pattern made of a stem `q` (not ending in a star) and one or more
/// trailing stars covers exactly the paths that start with `q`, the path
/// equal to `q` itself included.
pub proof fn lemma_wildcard_pattern_covers(q: Seq<char>, k: nat, path: Seq<char>)
    requires
        k >= 1,
        q.len() == 0 || q.last() != '*',
    ensures
        spec_path_pattern_matches(q + stars(k), path) <==> q.is_prefix_of(path),
        spec_path_pattern_matches(q + stars(k), q),
{
    lemma_trim_stars(q, k);
    let p = q + stars(k);
    assert(p.len() > 0 && p.last() == '*');
    assert(q =~= q.subrange(0, q.len() as int));
}

/// A pattern that does not end in a star covers exactly the path equal to it.
pub proof fn lemma_exact_pattern_covers(pattern: Seq<char>, path: Seq<char>)
    requires
        pattern.len() == 0 || pattern.last() != '*',
    ensures
        spec_path_pattern_matches(pattern, path) <==> path == pattern,
{
}

/// The method key under which policies are looked up: the request method,
/// trimmed and in ASCII upper case.
pub fn resolve_method(method: &str) -> (r: String)
    ensures
        r@ == ascii_upper_seq(trim_seq(method@)),
{
    to_ascii_uppercase(trim(method))
}

/// Whether a row's pattern covers a path.
pub open spec fn row_covers(row: RoutePolicyRow, path: Seq<char>) -> bool {
    spec_path_pattern_matches(row.path_pattern@, path)
}

/// Whether `k` is the first row that covers the path.
pub open spec fn is_first_covering(rows: Seq<RoutePolicyRow>, path: Seq<char>, k: int) -> bool {
    &&& 0 <= k < rows.len()
    &&& row_covers(rows[k], path)
    &&& forall|j: int| 0 <= j < k ==> !row_covers(#[trigger] rows[j], path)
}

/// Whether rows come longest pattern first (patterns measured in characters).
pub open spec fn ordered_by_pattern_length(rows: Seq<RoutePolicyRow>) -> bool {
    forall|i: int, j: int|
        0 <= i < j < rows.len() ==> (#[trigger] rows[i]).path_pattern@.len() >= (
        #[trigger] rows[j]).path_pattern@.len()
}

/// When the rows come longest pattern first, the first row that covers a
/// path has the longest pattern of all the rows that cover it.
pub proof fn lemma_first_covering_is_longest(rows: Seq<RoutePolicyRow>, path: Seq<char>, k: int)
    requires
        ordered_by_pattern_length(rows),
        is_first_covering(rows, path, k),
    ensures
        forall|j: int|
            0 <= j < rows.len() && row_covers(#[trigger] rows[j], path) ==> rows[j].path_pattern@.len()
                <= rows[k].path_pattern@.len(),
{
    assert forall|j: int|
        0 <= j < rows.len() && row_covers(#[trigger] rows[j], path) implies rows[j].path_pattern@.len()
            <= rows[k].path_pattern@.len() by {
        if j < k {
            assert(!row_covers(rows[j], path));
        } else if j > k {
            assert(rows[k].path_pattern@.len() >= rows[j].path_pattern@.len());
        }
    }
}

/// Picks, among the active rows of the request's method in the order the
/// store gives them (longest pattern first), the first whose pattern covers
/// the path, and decodes it.
pub fn select_route_policy(rows: Vec<RoutePolicyRow>, path: &str) -> (r: Result<
    Option<RoutePolicyDb>,
    LibError,
>)
    ensures
        match r {
            Ok(None) => forall|j: int| 0 <= j < rows@.len() ==> !row_covers(#[trigger] rows@[j], path@),
            Ok(Some(p)) => exists|k: int|
                is_first_covering(rows@, path@, k) && spec_row_to_model(#[trigger] rows@[k])
                    == Ok::<PolicyView, ErrorView>(p@),
            Err(e) => exists|k: int|
                is_first_covering(rows@, path@, k) && spec_row_to_model(#[trigger] rows@[k])
                    == Err::<PolicyView, ErrorView>(e@),
        },
        ordered_by_pattern_length(rows@) ==> (r matches Ok(Some(p)) ==> forall|j: int|
            0 <= j < rows@.len() && row_covers(#[trigger] rows@[j], path@) ==> rows@[j].path_pattern@.len()
                <= p.path_pattern@.len()),
{
    let ghost src = rows@;
    for row in it: rows
        invariant
            it.seq() == src,
            forall|j: int| 0 <= j < it.index() ==> !row_covers(#[trigger] src[j], path@),
    {
        let ghost k = it.index() as int;
        if path_pattern_matches(row.path_pattern.as_str(), path) {
            assert(is_first_covering(src, path@, k));
            let ghost row_spec = spec_row_to_model(row);
            match row_to_model(row) {
                Ok(p) => {
                    assert(spec_row_to_model(src[k]) == Ok::<PolicyView, ErrorView>(p@));
                    proof {
                        if ordered_by_pattern_length(src) {
                            lemma_first_covering_is_longest(src, path@, k);
                        }
                    }
                    return Ok(Some(p));
                },
                Err(e) => {
                    assert(spec_row_to_model(src[k]) == Err::<PolicyView, ErrorView>(e@));
                    return Err(e);
                },
            }
        }
    }
    Ok(None)
}

/// A stored policy after a change: each field the change gives replaces the
/// stored one; the id, method, path pattern and timestamps stay.
pub open spec fn spec_merge_policy(existing: PolicyView, patch: UpdateRoutePolicyDb) -> PolicyView {
    PolicyView {
        mode: match patch.mode {
            Some(m) => m,
            None => existing.mode,
        },
        channels: match patch.channels {
            Some(c) => c@,
            None => existing.channels,
        },
        facilitator_profile_id: match patch.facilitator_profile_id {
            Some(f) => f,
            None => existing.facilitator_profile_id,
        },
        x402_accepts: match patch.x402_accepts {
            Some(a) => db_requirements_view(a@),
            None => existing.x402_accepts,
        },
        active: match patch.active {
            Some(a) => a,
            None => existing.active,
        },
        ..existing
    }
}

/// Applies a change to a stored policy.
pub fn merge_policy_patch(existing: RoutePolicyDb, patch: UpdateRoutePolicyDb) -> (r: RoutePolicyDb)
    ensures
        r@ == spec_merge_policy(existing@, patch),
        r.mode == (if patch.mode is Some { patch.mode->Some_0 } else { existing.mode }),
        r.channels@ == (if patch.channels is Some { patch.channels->Some_0@ } else { existing.channels@ }),
        r.facilitator_profile_id == (if patch.facilitator_profile_id is Some {
            patch.facilitator_profile_id->Some_0
        } else {
            existing.facilitator_profile_id
        }),
        r.x402_accepts@ == (if patch.x402_accepts is Some {
            patch.x402_accepts->Some_0@
        } else {
            existing.x402_accepts@
        }),
        r.active == (if patch.active is Some { patch.active->Some_0 } else { existing.active }),
        r.id == existing.id,
        r.method@ == existing.method@,
        r.path_pattern@ == existing.path_pattern@,
        r.created_at == existing.created_at,
        r.updated_at == existing.updated_at,
{
    RoutePolicyDb {
        id: existing.id,
        method: existing.method,
        path_pattern: existing.path_pattern,
        mode: match patch.mode {
            Some(m) => m,
            None => existing.mode,
        },
        channels: match patch.channels {
            Some(c) => c,
            None => existing.channels,
        },
        facilitator_profile_id: match patch.facilitator_profile_id {
            Some(f) => f,
            None => existing.facilitator_profile_id,
        },
        x402_accepts: match patch.x402_accepts {
            Some(a) => a,
            None => existing.x402_accepts,
        },
        active: match patch.active {
            Some(a) => a,
            None => existing.active,
        },
        created_at: existing.created_at,
        updated_at: existing.updated_at,
    }
}

/// A change sets each field it gives to the given value and keeps each
/// field it does not give.
pub proof fn lemma_policy_patch_sets_given_fields(existing: PolicyView, patch: UpdateRoutePolicyDb)
    ensures
        patch.mode matches Some(m) ==> spec_merge_policy(existing, patch).mode == m,
        patch.mode is None ==> spec_merge_policy(existing, patch).mode == existing.mode,
        patch.channels matches Some(c) ==> spec_merge_policy(existing, patch).channels == c@,
        patch.channels is None ==> spec_merge_policy(existing, patch).channels == existing.channels,
        patch.facilitator_profile_id matches Some(f) ==> spec_merge_policy(existing, patch).facilitator_profile_id
            == f,
        patch.facilitator_profile_id is None ==> spec_merge_policy(existing, patch).facilitator_profile_id
            == existing.facilitator_profile_id,
        patch.x402_accepts matches Some(a) ==> spec_merge_policy(existing, patch).x402_accepts
            == db_requirements_view(a@),
        patch.x402_accepts is None ==> spec_merge_policy(existing, patch).x402_accepts == existing.x402_accepts,
        patch.active matches Some(a) ==> spec_merge_policy(existing, patch).active == a,
        patch.active is None ==> spec_merge_policy(existing, patch).active == existing.active,
{
}

/// A change that gives no field leaves a stored policy as it is.
pub proof fn lemma_empty_policy_patch_keeps(existing: PolicyView, patch: UpdateRoutePolicyDb)
    requires
        patch.mode is None,
        patch.channels is None,
        patch.facilitator_profile_id is None,
        patch.x402_accepts is None,
        patch.active is None,
    ensures
        spec_merge_policy(existing, patch) == existing,
{
}

/// Applying the same change twice gives what applying it once gives.
pub proof fn lemma_policy_patch_idempotent(existing: PolicyView, patch: UpdateRoutePolicyDb)
    ensures
        spec_merge_policy(spec_merge_policy(existing, patch), patch) == spec_merge_policy(
            existing,
            patch,
        ),
{
}

/// A change never alters which route a policy is for, nor its identity.
pub proof fn lemma_policy_patch_keeps_route(existing: PolicyView, patch: UpdateRoutePolicyDb)
    ensures
        spec_merge_policy(existing, patch).id == existing.id,
        spec_merge_policy(existing, patch).method == existing.method,
        spec_merge_policy(existing, patch).path_pattern == existing.path_pattern,
        spec_merge_policy(existing, patch).created_at == existing.created_at,
{
}

/// How to list route policies: the filters to apply and the window to read.
pub struct RoutePolicyListPlan {
    /// Only policies of this method (in ASCII upper case), when given.
    pub method: Option<String>,
    /// Only policies with this active flag, when given.
    pub active: Option<bool>,
    pub limit: i64,
    pub offset: i64,
}

/// The listing plan of a query: its method filter in ASCII upper case, its
/// active filter, and the window of its page.
pub fn route_policy_list_plan(query: &RoutePolicyListQuery) -> (r: RoutePolicyListPlan)
    ensures
        match (r.method, query.method) {
            (Some(m), Some(q)) => m@ == ascii_upper_seq(q@),
            (None, None) => true,
            _ => false,
        },
        r.active == query.active,
        r.limit == spec_limit(query.limit, 50, 200),
        r.offset == (spec_page(query.page) - 1) * spec_limit(query.limit, 50, 200),
{
    let (page, limit) = query.pagination();
    let method = match &query.method {
        Some(m) => Some(to_ascii_uppercase(m.as_str())),
        None => None,
    };
    assert((page - 1) * limit <= 0xffff_ffffu64 * 200) by (nonlinear_arith)
        requires
            1 <= page,
            limit <= 200,
    ;
    let offset: i64 = ((page - 1) as i64) * (limit as i64);
    RoutePolicyListPlan { method, active: query.active, limit: limit as i64, offset }
}

} // verus!
