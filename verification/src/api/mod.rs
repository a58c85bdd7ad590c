//! Decisions of the HTTP layer: how errors become responses, which roles
//! the administration APIs need, and what the authorization middleware and
//! the request extractors decide.

pub mod auth_middleware;
pub mod extractors;
pub mod facilitator;
pub mod x402_channel;
pub mod x402_wire;

use vstd::prelude::*;

use crate::error::{kind_error, ErrorKind, ErrorView, LibError};
use crate::models::auth::{DEFAULT_ADMIN_ROLE, DEFAULT_READ_ROLE};
use crate::models::policy::dedup_seq;
use crate::models::RequireRole;
use crate::text::{split_char, split_seq, slices_view, text_in, texts_view, trim, trim_seq};

verus! {

/// An error on its way to becoming an HTTP response.
#[derive(Debug)]
pub struct AppError(pub LibError);

impl From<LibError> for AppError {
    fn from(value: LibError) -> (r: Self) {
        AppError(value)
    }
}

impl vstd::std_specs::convert::FromSpecImpl<LibError> for AppError {
    open spec fn obeys_from_spec() -> bool {
        true
    }

    open spec fn from_spec(v: LibError) -> AppError {
        AppError(v)
    }
}

/// The HTTP status of each error kind.
pub open spec fn spec_status_for_kind(kind: ErrorKind) -> u16 {
    match kind {
        ErrorKind::Conflict => 409,
        ErrorKind::Database => 500,
        ErrorKind::Forbidden => 403,
        ErrorKind::InvalidInput => 400,
        ErrorKind::NotFound => 404,
        ErrorKind::Unauthorized => 401,
        ErrorKind::Upstream => 502,
        ErrorKind::Unknown => 500,
    }
}

impl AppError {
    /// The HTTP status this error is answered with.
    pub fn status_code(&self) -> (r: u16)
        ensures
            r == spec_status_for_kind(self.0.kind),
    {
        match self.0.kind {
            ErrorKind::Conflict => 409,
            ErrorKind::Database => 500,
            ErrorKind::Forbidden => 403,
            ErrorKind::InvalidInput => 400,
            ErrorKind::NotFound => 404,
            ErrorKind::Unauthorized => 401,
            ErrorKind::Upstream => 502,
            ErrorKind::Unknown => 500,
        }
    }
}

/// The trimmed, non-empty pieces of a list, in order.
pub open spec fn trimmed_nonempty(parts: Seq<Seq<char>>) -> Seq<Seq<char>>
    decreases parts.len(),
{
    if parts.len() == 0 {
        Seq::empty()
    } else {
        let prefix = trimmed_nonempty(parts.drop_last());
        let t = trim_seq(parts.last());
        if t.len() == 0 {
            prefix
        } else {
            prefix.push(t)
        }
    }
}

/// The roles a comma-separated list names: its pieces trimmed, empty ones
/// dropped, repeats removed; the administrator role when none is left.
pub open spec fn spec_parse_roles(raw: Seq<char>) -> Seq<Seq<char>> {
    let roles = dedup_seq(trimmed_nonempty(split_seq(raw, ',')));
    if roles.len() == 0 {
        seq![DEFAULT_ADMIN_ROLE@]
    } else {
        roles
    }
}

/// Reads a comma-separated role list.
pub fn parse_roles(raw: &str) -> (r: Vec<String>)
    ensures
        texts_view(r@) == spec_parse_roles(raw@),
{
    let pieces = split_char(raw, ',');
    let ghost parts = slices_view(pieces@);
    let mut out: Vec<String> = Vec::new();
    let mut i: usize = 0;
    assert(texts_view(out@) =~= Seq::<Seq<char>>::empty());
    assert(parts.take(0) =~= Seq::<Seq<char>>::empty());
    while i < pieces.len()
        invariant
            i <= pieces@.len(),
            parts == slices_view(pieces@),
            texts_view(out@) == dedup_seq(trimmed_nonempty(parts.take(i as int))),
        decreases pieces@.len() - i,
    {
        assert(parts.take(i + 1).drop_last() =~= parts.take(i as int));
        assert(parts.take(i + 1).last() == pieces@[i as int]@);
        let role = trim(pieces[i]);
        let ghost tn_old = trimmed_nonempty(parts.take(i as int));
        let ghost tn_new = trimmed_nonempty(parts.take(i + 1));
        assert(tn_new == if role@.len() == 0 { tn_old } else { tn_old.push(role@) });
        assert(tn_old.push(role@).drop_last() =~= tn_old);
        if role.unicode_len() != 0 {
            if !text_in(&out, role) {
                let ghost old_out = out@;
                out.push(String::from_str(role));
                assert(texts_view(out@) =~= texts_view(old_out).push(role@));
            }
        }
        i = i + 1;
    }
    assert(parts.take(pieces@.len() as int) =~= parts);
    if out.len() == 0 {
        out.push(String::from_str(DEFAULT_ADMIN_ROLE));
        assert(texts_view(out@) =~= seq![DEFAULT_ADMIN_ROLE@]);
    }
    out
}

/// The read roles when no list is configured.
pub open spec fn default_read_roles_text() -> Seq<char> {
    DEFAULT_READ_ROLE@ + ","@ + DEFAULT_ADMIN_ROLE@
}

/// The roles that may read the administration APIs: the configured list,
/// or the read and administrator roles.
pub fn configured_read_roles(configured: Option<&str>) -> (r: Vec<String>)
    ensures
        texts_view(r@) == spec_parse_roles(
            match configured {
                Some(c) => c@,
                None => default_read_roles_text(),
            },
        ),
{
    match configured {
        Some(c) => parse_roles(c),
        None => {
            let raw = String::from_str(DEFAULT_READ_ROLE).concat(",").concat(DEFAULT_ADMIN_ROLE);
            parse_roles(raw.as_str())
        },
    }
}

/// The roles that may change the administration APIs: the configured list,
/// or the administrator role.
pub fn configured_write_roles(configured: Option<&str>) -> (r: Vec<String>)
    ensures
        texts_view(r@) == spec_parse_roles(
            match configured {
                Some(c) => c@,
                None => DEFAULT_ADMIN_ROLE@,
            },
        ),
{
    match configured {
        Some(c) => parse_roles(c),
        None => parse_roles(DEFAULT_ADMIN_ROLE),
    }
}

/// The roles that grant the access a request needs, given the configured
/// read and write lists.
pub fn roles_for(required: RequireRole, read_roles: Option<&str>, write_roles: Option<&str>) -> (r: Vec<
    String,
>)
    ensures
        texts_view(r@) == match required {
            RequireRole::Read => spec_parse_roles(
                match read_roles {
                    Some(c) => c@,
                    None => default_read_roles_text(),
                },
            ),
            RequireRole::Write => spec_parse_roles(
                match write_roles {
                    Some(c) => c@,
                    None => DEFAULT_ADMIN_ROLE@,
                },
            ),
        },
{
    match required {
        RequireRole::Read => configured_read_roles(read_roles),
        RequireRole::Write => configured_write_roles(write_roles),
    }
}

/// Every piece kept from a role list is non-empty.
proof fn lemma_trimmed_nonempty_nonempty(parts: Seq<Seq<char>>)
    ensures
        forall|i: int|
            0 <= i < trimmed_nonempty(parts).len() ==> (#[trigger] trimmed_nonempty(parts)[i]).len() > 0,
    decreases parts.len(),
{
    if parts.len() > 0 {
        lemma_trimmed_nonempty_nonempty(parts.drop_last());
        let prefix = trimmed_nonempty(parts.drop_last());
        let t = trim_seq(parts.last());
        if t.len() > 0 {
            assert forall|i: int| 0 <= i < prefix.push(t).len() implies (#[trigger] prefix.push(t)[i]).len()
                > 0 by {
                if i < prefix.len() {
                    assert(prefix.push(t)[i] == prefix[i]);
                }
            }
        }
    }
}

/// A role list never comes out empty, never names a role twice, and never
/// names the empty role.
pub proof fn lemma_roles_nonempty_distinct(raw: Seq<char>)
    ensures
        spec_parse_roles(raw).len() >= 1,
        forall|i: int, j: int|
            0 <= i < j < spec_parse_roles(raw).len() ==> spec_parse_roles(raw)[i]
                != spec_parse_roles(raw)[j],
        forall|i: int| 0 <= i < spec_parse_roles(raw).len() ==> #[trigger] spec_parse_roles(raw)[i].len() > 0,
{
    let kept = trimmed_nonempty(split_seq(raw, ','));
    crate::models::policy::lemma_dedup_distinct(kept);
    lemma_trimmed_nonempty_nonempty(split_seq(raw, ','));
    let d = dedup_seq(kept);
    assert forall|i: int| 0 <= i < d.len() implies #[trigger] d[i].len() > 0 by {
        crate::models::policy::lemma_dedup_same_elements(kept, d[i]);
        assert(d.contains(d[i]));
        let k = choose|k: int| 0 <= k < kept.len() && kept[k] == d[i];
        assert(trimmed_nonempty(split_seq(raw, ','))[k].len() > 0);
    }
    if d.len() == 0 {
        reveal_strlit("x402_admin");
        assert(seq![DEFAULT_ADMIN_ROLE@][0] == DEFAULT_ADMIN_ROLE@);
    }
}

/// The error when a user holds none of the roles a request needs.
pub open spec fn spec_forbidden_error(user: Seq<char>) -> ErrorView {
    kind_error(
        ErrorKind::Forbidden,
        "You do not have permission to access x402 administration APIs"@,
        "user "@ + user + " is missing required x402 role"@,
    )
}

/// The error when a user holds none of the roles a request needs.
pub fn forbidden_error(user: &str) -> (e: LibError)
    ensures
        e@ == spec_forbidden_error(user@),
{
    let detail = String::from_str("user ").concat(user).concat(" is missing required x402 role");
    LibError::forbidden(
        "You do not have permission to access x402 administration APIs",
        detail.as_str(),
    )
}

/// The error when looking up a user's roles fails.
pub open spec fn spec_role_lookup_error(err: Seq<char>) -> ErrorView {
    kind_error(ErrorKind::Database, "Failed to verify x402 role"@, "authorize role lookup failed: "@ + err)
}

/// The error when looking up a user's roles fails.
pub fn role_lookup_error(err: &str) -> (e: LibError)
    ensures
        e@ == spec_role_lookup_error(err@),
{
    let detail = String::from_str("authorize role lookup failed: ").concat(err);
    LibError::database("Failed to verify x402 role", detail.as_str())
}

/// The answers of role lookups, as contracts see them: whether the user
/// holds the role, or the lookup failure's text.
pub open spec fn answers_view(answers: Seq<Result<bool, String>>) -> Seq<Result<bool, Seq<char>>> {
    answers.map_values(
        |a: Result<bool, String>|
            match a {
                Ok(b) => Ok(b),
                Err(e) => Err(e@),
            },
    )
}

/// What the role lookups from the `i`-th on decide: access at the first
/// role the user holds, the lookup error at the first failed lookup before
/// it, a refusal when every lookup says no.
pub open spec fn access_from(answers: Seq<Result<bool, Seq<char>>>, user: Seq<char>, i: int) -> Result<
    (),
    ErrorView,
>
    decreases answers.len() - i,
{
    if i < 0 || i >= answers.len() {
        Err(spec_forbidden_error(user))
    } else {
        match answers[i] {
            Ok(true) => Ok(()),
            Ok(false) => access_from(answers, user, i + 1),
            Err(e) => Err(spec_role_lookup_error(e)),
        }
    }
}

/// Whether a role lookup's answer settles the request: any answer but "the
/// user does not hold this role" does, so the lookups can stop there.
pub fn lookup_settles(answer: &Result<bool, String>) -> (r: bool)
    ensures
        r == match *answer {
            Ok(held) => held,
            Err(_) => true,
        },
{
    match answer {
        Ok(held) => *held,
        Err(_) => true,
    }
}

/// Decides a request to the administration APIs from the answers of the
/// lookups of the roles that grant it, in the order of the roles (the
/// lookups may stop at the first answer that is not "no").
pub fn decide_access(answers: &Vec<Result<bool, String>>, user: &str) -> (r: Result<(), LibError>)
    ensures
        crate::error::result_is(r, access_from(answers_view(answers@), user@, 0)),
{
    let ghost all = answers_view(answers@);
    let mut i: usize = 0;
    while i < answers.len()
        invariant
            i <= answers@.len(),
            all == answers_view(answers@),
            access_from(all, user@, 0) == access_from(all, user@, i as int),
        decreases answers@.len() - i,
    {
        match &answers[i] {
            Ok(true) => return Ok(()),
            Ok(false) => {},
            Err(e) => return Err(role_lookup_error(e.as_str())),
        }
        i = i + 1;
    }
    Err(forbidden_error(user))
}

} // verus!
