//! What the authorization middleware decides for a request that a route
//! policy governs: which channel to evaluate next, what each evaluation
//! writes to the audit trail, and whether the request passes or which
//! response refuses it.

use uuid::Uuid;
use vstd::prelude::*;

use crate::api::x402_channel::{challenge_accepts, spec_parse_policy_accepts};
use crate::api::x402_wire::{
    base64_url_encode, payment_required_json, spec_base64_url_encode, spec_json_string,
    spec_payment_required_json,
};
use crate::models::audit::{CreatePaymentAudit, PaymentAuditChannel, PaymentAuditResult};
use crate::models::auth::{ApiKeyProof, X402AuthContext, X402Proof};
use crate::models::policy::{db_requirements_view, AuthChannel, AuthMode, RequirementView, X402RequirementDb};
use crate::text::{strip_prefix, trim, trim_seq, texts_view};

verus! {

/// Why a channel did not pass, as contracts see it.
pub enum FailureView {
    X402Challenge { message: Seq<char> },
    ApiKeyUnauthorized { message: Seq<char> },
    Internal { message: Seq<char> },
}

/// Why a channel did not pass.
#[derive(Debug, Clone)]
pub enum AuthFailure {
    /// A payment is missing or was refused: answered with 402 and a payment challenge.
    X402Challenge { message: String },
    /// An API key is missing or unknown: answered with 401.
    ApiKeyUnauthorized { message: String },
    /// Something failed on the server's side: answered with 500.
    Internal { message: String },
}

impl View for AuthFailure {
    type V = FailureView;

    open spec fn view(&self) -> FailureView {
        match self {
            AuthFailure::X402Challenge { message } => FailureView::X402Challenge { message: message@ },
            AuthFailure::ApiKeyUnauthorized { message } => FailureView::ApiKeyUnauthorized {
                message: message@,
            },
            AuthFailure::Internal { message } => FailureView::Internal { message: message@ },
        }
    }
}

/// What a passing channel proves.
#[derive(Debug, Clone)]
pub enum ChannelSuccess {
    X402(X402Proof),
    ApiKey(ApiKeyProof),
}

/// The audit details of a failure: a JSON object with the message under `error`.
pub open spec fn failure_details(message: Seq<char>) -> Seq<char> {
    "{\"error\":"@ + spec_json_string(message) + "}"@
}

/// The audit details of a pass.
pub open spec fn pass_details() -> Seq<char> {
    "{\"mode\":\"pass\"}"@
}

/// The audit channel, outcome, status and details of a failure.
pub open spec fn spec_audit_values(f: FailureView) -> (PaymentAuditChannel, PaymentAuditResult, i32, Seq<char>) {
    match f {
        FailureView::X402Challenge { message } => (
            PaymentAuditChannel::X402,
            PaymentAuditResult::Challenge,
            402,
            failure_details(message),
        ),
        FailureView::ApiKeyUnauthorized { message } => (
            PaymentAuditChannel::ApiKey,
            PaymentAuditResult::Fail,
            401,
            failure_details(message),
        ),
        FailureView::Internal { message } => (
            PaymentAuditChannel::X402,
            PaymentAuditResult::Fail,
            500,
            failure_details(message),
        ),
    }
}

impl AuthFailure {
    /// The message of this failure.
    pub fn message(&self) -> (m: &str)
        ensures
            m@ == match self@ {
                FailureView::X402Challenge { message } => message,
                FailureView::ApiKeyUnauthorized { message } => message,
                FailureView::Internal { message } => message,
            },
    {
        match self {
            AuthFailure::X402Challenge { message } => message.as_str(),
            AuthFailure::ApiKeyUnauthorized { message } => message.as_str(),
            AuthFailure::Internal { message } => message.as_str(),
        }
    }

    /// The audit channel, outcome, HTTP status and details this failure is recorded with.
    pub fn audit_values(&self) -> (r: (PaymentAuditChannel, PaymentAuditResult, i32, String))
        ensures
            (r.0, r.1, r.2, r.3@) == spec_audit_values(self@),
    {
        let details = String::from_str("{\"error\":").concat(
            crate::api::x402_wire::json_string(self.message()).as_str(),
        ).concat("}");
        match self {
            AuthFailure::X402Challenge { .. } => (
                PaymentAuditChannel::X402,
                PaymentAuditResult::Challenge,
                402,
                details,
            ),
            AuthFailure::ApiKeyUnauthorized { .. } => (
                PaymentAuditChannel::ApiKey,
                PaymentAuditResult::Fail,
                401,
                details,
            ),
            AuthFailure::Internal { .. } => (
                PaymentAuditChannel::X402,
                PaymentAuditResult::Fail,
                500,
                details,
            ),
        }
    }
}

/// A header's text trimmed, when the header is present, readable and not blank.
pub open spec fn spec_header_trimmed(value: Option<Seq<char>>) -> Option<Seq<char>> {
    match value {
        Some(v) => if trim_seq(v).len() == 0 {
            None
        } else {
            Some(trim_seq(v))
        },
        None => None,
    }
}

/// A header's text trimmed, when the header is present, readable and not
/// blank; `value` is the header's text when it is present and readable.
pub fn header_to_trimmed(value: Option<&str>) -> (r: Option<String>)
    ensures
        r.deep_view() == spec_header_trimmed(value.deep_view()),
{
    match value {
        Some(v) => {
            let t = trim(v);
            if t.unicode_len() == 0 {
                None
            } else {
                Some(String::from_str(t))
            }
        },
        None => None,
    }
}

/// The payment signature a request carries: its `Payment-Signature` header,
/// trimmed, when present, readable and not blank.
pub fn payment_signature(header: Option<&str>) -> (r: Option<String>)
    ensures
        r.deep_view() == spec_header_trimmed(header.deep_view()),
{
    header_to_trimmed(header)
}

/// The API key a request carries: its `x-api-key` header when usable, else
/// the token of a `Bearer` authorization header.
pub open spec fn spec_extract_api_key(x_api_key: Option<Seq<char>>, authorization: Option<Seq<char>>) -> Option<
    Seq<char>,
> {
    match spec_header_trimmed(x_api_key) {
        Some(k) => Some(k),
        None => match spec_header_trimmed(authorization) {
            None => None,
            Some(a) => if "Bearer "@.is_prefix_of(a) {
                let token = trim_seq(a.skip("Bearer "@.len() as int));
                if token.len() == 0 {
                    None
                } else {
                    Some(token)
                }
            } else {
                None
            },
        },
    }
}

/// The API key a request carries; the arguments are the texts of its
/// `x-api-key` and `authorization` headers, when present and readable.
pub fn extract_api_key(x_api_key: Option<&str>, authorization: Option<&str>) -> (r: Option<String>)
    ensures
        r.deep_view() == spec_extract_api_key(x_api_key.deep_view(), authorization.deep_view()),
{
    let key = header_to_trimmed(x_api_key);
    if key.is_some() {
        return key;
    }
    let auth = match header_to_trimmed(authorization) {
        Some(a) => a,
        None => return None,
    };
    match strip_prefix(auth.as_str(), "Bearer ") {
        Some(rest) => {
            let token = trim(rest);
            if token.unicode_len() == 0 {
                None
            } else {
                Some(String::from_str(token))
            }
        },
        None => None,
    }
}

/// The id of a request: its request-id header, trimmed, when usable; else
/// the given fresh id.
pub fn resolve_request_id(header: Option<&str>, fresh: String) -> (r: String)
    ensures
        r@ == match spec_header_trimmed(header.deep_view()) {
            Some(id) => id,
            None => fresh@,
        },
{
    match header_to_trimmed(header) {
        Some(id) => id,
        None => fresh,
    }
}

/// The URL of the requested resource: `http://`, the host header (or
/// `localhost`), and the request URI.
pub fn infer_resource_url(host: Option<&str>, uri: &str) -> (r: String)
    ensures
        r@ == "http://"@ + match host {
            Some(h) => h@,
            None => "localhost"@,
        } + uri@,
{
    let host_text = match host {
        Some(h) => h,
        None => "localhost",
    };
    String::from_str("http://").concat(host_text).concat(uri)
}

} // verus!

verus! {

/// The outcome of one evaluated channel: nothing when it passed, the
/// failure when it did not.
pub type Outcome = Option<FailureView>;

/// Whether some evaluated channel passed.
pub open spec fn some_passed(outcomes: Seq<Outcome>) -> bool {
    exists|i: int| 0 <= i < outcomes.len() && #[trigger] outcomes[i] is None
}

/// Whether every evaluated channel passed.
pub open spec fn every_passed(outcomes: Seq<Outcome>) -> bool {
    forall|i: int| 0 <= i < outcomes.len() ==> #[trigger] outcomes[i] is None
}

/// The failure of the first evaluated channel that did not pass.
pub open spec fn first_failure(outcomes: Seq<Outcome>) -> Outcome
    decreases outcomes.len(),
{
    if outcomes.len() == 0 {
        None
    } else if first_failure(outcomes.drop_last()) is Some {
        first_failure(outcomes.drop_last())
    } else {
        outcomes.last()
    }
}

/// Without any failure there is no first failure.
proof fn lemma_first_failure_none(s: Seq<Outcome>)
    requires
        forall|j: int| 0 <= j < s.len() ==> #[trigger] s[j] is None,
    ensures
        first_failure(s) is None,
    decreases s.len(),
{
    if s.len() > 0 {
        lemma_first_failure_none(s.drop_last());
    }
}

/// The failure reported for a run is the failure at the smallest index that
/// holds one: passes before it do not erase it, and failures after it do
/// not replace it; a run without failures reports none.
pub proof fn lemma_first_failure_is_earliest(s: Seq<Outcome>, i: int)
    ensures
        0 <= i < s.len() && s[i] is Some && (forall|j: int| 0 <= j < i ==> #[trigger] s[j] is None)
            ==> first_failure(s) == s[i],
        (forall|j: int| 0 <= j < s.len() ==> #[trigger] s[j] is None) ==> first_failure(s) is None,
    decreases s.len(),
{
    if forall|j: int| 0 <= j < s.len() ==> #[trigger] s[j] is None {
        lemma_first_failure_none(s);
    }
    if 0 <= i < s.len() && s[i] is Some && (forall|j: int| 0 <= j < i ==> #[trigger] s[j] is None) {
        let d = s.drop_last();
        if i == s.len() - 1 {
            assert forall|j: int| 0 <= j < d.len() implies #[trigger] d[j] is None by {
                assert(d[j] == s[j]);
            }
            lemma_first_failure_none(d);
        } else {
            assert forall|j: int| 0 <= j < i implies #[trigger] d[j] is None by {
                assert(d[j] == s[j]);
            }
            lemma_first_failure_is_earliest(d, i);
            assert(d[i] == s[i]);
        }
    }
}

/// Whether a run is over: in any-of mode as soon as a channel passed, in
/// either mode once every channel was evaluated.
pub open spec fn run_done(mode: AuthMode, channel_count: nat, outcomes: Seq<Outcome>) -> bool {
    (mode == AuthMode::AnyOf && some_passed(outcomes)) || outcomes.len() >= channel_count
}

/// Whether a finished run lets the request through: in any-of mode when a
/// channel passed, in all-of mode when every channel passed.
pub open spec fn run_grants(mode: AuthMode, outcomes: Seq<Outcome>) -> bool {
    match mode {
        AuthMode::AnyOf => some_passed(outcomes),
        AuthMode::AllOf => every_passed(outcomes),
    }
}

/// The name a passing channel is listed under in the request's context.
pub open spec fn success_name(s: ChannelSuccess) -> Seq<char> {
    match s {
        ChannelSuccess::X402(_) => "x402"@,
        ChannelSuccess::ApiKey(_) => "api_key"@,
    }
}

/// What the middleware has found out so far about a request that a route
/// policy governs.
pub struct AuthRun {
    mode: AuthMode,
    channels: Vec<AuthChannel>,
    route_policy_id: Uuid,
    request_id: String,
    method: String,
    path: String,
    evaluated: usize,
    any_passed: bool,
    all_passed: bool,
    first_failure: Option<AuthFailure>,
    context: X402AuthContext,
    outcomes: Ghost<Seq<Outcome>>,
}

/// The decision at the end of a run.
pub enum AuthDecision {
    /// Let the request through, carrying what was proved.
    Grant(X402AuthContext),
    /// Refuse the request; the first failure decides the response.
    Deny(Option<AuthFailure>),
}

impl AuthRun {
    /// Whether the run's bookkeeping agrees with its outcomes.
    pub closed spec fn wf(self) -> bool {
        &&& self.evaluated == self.outcomes@.len()
        &&& self.evaluated <= self.channels@.len()
        &&& self.any_passed == some_passed(self.outcomes@)
        &&& self.all_passed == every_passed(self.outcomes@)
        &&& failure_view(self.first_failure) == first_failure(self.outcomes@)
    }

    /// The policy's mode.
    pub closed spec fn spec_mode(self) -> AuthMode {
        self.mode
    }

    /// The policy's channels, in order.
    pub closed spec fn spec_channels(self) -> Seq<AuthChannel> {
        self.channels@
    }

    /// The outcomes of the channels evaluated so far, in order.
    pub closed spec fn spec_outcomes(self) -> Seq<Outcome> {
        self.outcomes@
    }

    /// What the request has proved so far.
    pub closed spec fn spec_context(self) -> X402AuthContext {
        self.context
    }

    /// The request the run is about: policy id, request id, method, path.
    pub closed spec fn spec_request(self) -> (Uuid, Seq<char>, Seq<char>, Seq<char>) {
        (self.route_policy_id, self.request_id@, self.method@, self.path@)
    }

    /// Whether the run is over.
    pub open spec fn spec_done(self) -> bool {
        run_done(self.spec_mode(), self.spec_channels().len(), self.spec_outcomes())
    }

    /// Starts a run for a request under a policy; nothing is evaluated yet
    /// and the context records the policy and its mode.
    pub fn start(
        route_policy_id: Uuid,
        mode: AuthMode,
        channels: Vec<AuthChannel>,
        request_id: String,
        method: String,
        path: String,
    ) -> (r: Self)
        ensures
            r.wf(),
            r.spec_mode() == mode,
            r.spec_channels() == channels@,
            r.spec_outcomes() == Seq::<Outcome>::empty(),
            r.spec_request() == (route_policy_id, request_id@, method@, path@),
            r.spec_context().request_id@ == request_id@,
            r.spec_context().route_policy_id == Some(route_policy_id),
            r.spec_context().mode == Some(mode),
            r.spec_context().succeeded_channels@.len() == 0,
            r.spec_context().x402 is None,
            r.spec_context().api_key is None,
    {
        let mut context = X402AuthContext::new(request_id.clone());
        context.route_policy_id = Some(route_policy_id);
        context.mode = Some(mode);
        AuthRun {
            mode,
            channels,
            route_policy_id,
            request_id,
            method,
            path,
            evaluated: 0,
            any_passed: false,
            all_passed: true,
            first_failure: None,
            context,
            outcomes: Ghost(Seq::empty()),
        }
    }

    /// The channel to evaluate next, or nothing when the run is over.
    pub fn next_channel(&self) -> (r: Option<AuthChannel>)
        requires
            self.wf(),
        ensures
            r == if self.spec_done() {
                None
            } else {
                Some(self.spec_channels()[self.spec_outcomes().len() as int])
            },
    {
        if (self.mode == AuthMode::AnyOf && self.any_passed) || self.evaluated >= self.channels.len() {
            None
        } else {
            Some(self.channels[self.evaluated])
        }
    }
}

/// The outcome a channel evaluation is recorded as.
pub open spec fn outcome_of(outcome: Result<ChannelSuccess, AuthFailure>) -> Outcome {
    match outcome {
        Ok(_) => None,
        Err(f) => Some(f@),
    }
}

/// Whether an audit row is about the given request.
pub open spec fn audit_is_for(a: CreatePaymentAudit, request: (Uuid, Seq<char>, Seq<char>, Seq<char>)) -> bool {
    &&& a.route_policy_id == Some(request.0)
    &&& a.request_id@ == request.1
    &&& a.method@ == request.2
    &&& a.path@ == request.3
}

/// Whether an audit row records the given channel evaluation.
pub open spec fn audit_records(a: CreatePaymentAudit, outcome: Result<ChannelSuccess, AuthFailure>) -> bool {
    match outcome {
        Ok(ChannelSuccess::X402(proof)) => {
            &&& a.channel == PaymentAuditChannel::X402
            &&& a.result == PaymentAuditResult::Pass
            &&& a.status_code == 200
            &&& a.payer.deep_view() == Some(proof.payer@)
            &&& a.api_key_id is None
            &&& a.api_key_name is None
            &&& a.details@ == pass_details()
        },
        Ok(ChannelSuccess::ApiKey(proof)) => {
            &&& a.channel == PaymentAuditChannel::ApiKey
            &&& a.result == PaymentAuditResult::Pass
            &&& a.status_code == 200
            &&& a.payer is None
            &&& a.api_key_id == Some(proof.api_key_id)
            &&& a.api_key_name.deep_view() == Some(proof.api_key_name@)
            &&& a.details@ == pass_details()
        },
        Err(f) => {
            &&& (a.channel, a.result, a.status_code, a.details@) == spec_audit_values(f@)
            &&& a.payer is None
            &&& a.api_key_id is None
            &&& a.api_key_name is None
        },
    }
}

/// Whether a context is another with one more passing channel recorded.
pub open spec fn context_records(
    after: X402AuthContext,
    before: X402AuthContext,
    outcome: Result<ChannelSuccess, AuthFailure>,
) -> bool {
    &&& after.request_id == before.request_id
    &&& after.route_policy_id == before.route_policy_id
    &&& after.mode == before.mode
    &&& match outcome {
        Ok(s) => {
            &&& texts_view(after.succeeded_channels@) == texts_view(
                before.succeeded_channels@,
            ).push(success_name(s))
            &&& match s {
                ChannelSuccess::X402(p) => after.x402 == Some(p) && after.api_key == before.api_key,
                ChannelSuccess::ApiKey(p) => after.api_key == Some(p) && after.x402 == before.x402,
            }
        },
        Err(_) => {
            &&& after.succeeded_channels == before.succeeded_channels
            &&& after.x402 == before.x402
            &&& after.api_key == before.api_key
        },
    }
}

impl AuthRun {
    /// Records the outcome of evaluating the next channel, and gives the
    /// audit row to write for it.
    pub fn record(&mut self, outcome: Result<ChannelSuccess, AuthFailure>) -> (audit: CreatePaymentAudit)
        requires
            old(self).wf(),
            !old(self).spec_done(),
        ensures
            final(self).wf(),
            final(self).spec_mode() == old(self).spec_mode(),
            final(self).spec_channels() == old(self).spec_channels(),
            final(self).spec_request() == old(self).spec_request(),
            final(self).spec_outcomes() == old(self).spec_outcomes().push(outcome_of(outcome)),
            context_records(final(self).spec_context(), old(self).spec_context(), outcome),
            audit_is_for(audit, old(self).spec_request()),
            audit_records(audit, outcome),
    {
        let ghost before = self.outcomes@;
        let ghost entry = outcome_of(outcome);
        let channel_count = self.channels.len();
        assert(self.evaluated < channel_count);
        let next_evaluated = self.evaluated + 1;
        proof {
            assert(before.push(entry).drop_last() =~= before);
            assert forall|i: int| 0 <= i < before.len() implies #[trigger] before.push(entry)[i]
                == before[i] by {}
        }
        let audit = match outcome {
            Ok(ChannelSuccess::X402(proof)) => {
                self.any_passed = true;
                let ghost old_names = self.context.succeeded_channels@;
                self.context.succeeded_channels.push(String::from_str("x402"));
                assert(texts_view(self.context.succeeded_channels@) =~= texts_view(old_names).push(
                    "x402"@,
                ));
                let payer = proof.payer.clone();
                self.context.x402 = Some(proof);
                assert(before.push(entry)[before.len() as int] is None);
                CreatePaymentAudit {
                    request_id: self.request_id.clone(),
                    route_policy_id: Some(self.route_policy_id),
                    method: self.method.clone(),
                    path: self.path.clone(),
                    channel: PaymentAuditChannel::X402,
                    result: PaymentAuditResult::Pass,
                    status_code: 200,
                    payer: Some(payer),
                    api_key_id: None,
                    api_key_name: None,
                    details: String::from_str("{\"mode\":\"pass\"}"),
                }
            },
            Ok(ChannelSuccess::ApiKey(proof)) => {
                self.any_passed = true;
                let ghost old_names = self.context.succeeded_channels@;
                self.context.succeeded_channels.push(String::from_str("api_key"));
                assert(texts_view(self.context.succeeded_channels@) =~= texts_view(old_names).push(
                    "api_key"@,
                ));
                let key_id = proof.api_key_id;
                let key_name = proof.api_key_name.clone();
                self.context.api_key = Some(proof);
                assert(before.push(entry)[before.len() as int] is None);
                CreatePaymentAudit {
                    request_id: self.request_id.clone(),
                    route_policy_id: Some(self.route_policy_id),
                    method: self.method.clone(),
                    path: self.path.clone(),
                    channel: PaymentAuditChannel::ApiKey,
                    result: PaymentAuditResult::Pass,
                    status_code: 200,
                    payer: None,
                    api_key_id: Some(key_id),
                    api_key_name: Some(key_name),
                    details: String::from_str("{\"mode\":\"pass\"}"),
                }
            },
            Err(failure) => {
                self.all_passed = false;
                let (channel, result, status_code, details) = failure.audit_values();
                assert(before.push(entry)[before.len() as int] is Some);
                if self.first_failure.is_none() {
                    self.first_failure = Some(failure);
                }
                CreatePaymentAudit {
                    request_id: self.request_id.clone(),
                    route_policy_id: Some(self.route_policy_id),
                    method: self.method.clone(),
                    path: self.path.clone(),
                    channel,
                    result,
                    status_code,
                    payer: None,
                    api_key_id: None,
                    api_key_name: None,
                    details,
                }
            },
        };
        self.evaluated = next_evaluated;
        self.outcomes = Ghost(before.push(entry));
        proof {
            let after = before.push(entry);
            if entry is None {
                assert(after[before.len() as int] is None);
            }
            if some_passed(before) {
                let k = choose|k: int| 0 <= k < before.len() && before[k] is None;
                assert(after[k] is None);
            }
        }
        audit
    }

    /// The decision of a run that is over: let the request through with what
    /// it proved, or refuse it with the first failure.
    pub fn finish(self) -> (r: AuthDecision)
        requires
            self.wf(),
            self.spec_done(),
        ensures
            match r {
                AuthDecision::Grant(ctx) => run_grants(self.spec_mode(), self.spec_outcomes())
                    && ctx == self.spec_context(),
                AuthDecision::Deny(f) => !run_grants(self.spec_mode(), self.spec_outcomes())
                    && failure_view(f) == first_failure(self.spec_outcomes()),
            },
            r matches AuthDecision::Deny(f) ==> forall|i: int|
                0 <= i < self.spec_outcomes().len() && (#[trigger] self.spec_outcomes()[i]) is Some && (forall|
                    j: int,
                | 0 <= j < i ==> (#[trigger] self.spec_outcomes()[j]) is None) ==> failure_view(f)
                    == self.spec_outcomes()[i],
    {
        let granted = match self.mode {
            AuthMode::AnyOf => self.any_passed,
            AuthMode::AllOf => self.all_passed,
        };
        proof {
            assert forall|i: int|
                0 <= i < self.outcomes@.len() && (#[trigger] self.outcomes@[i]) is Some && (forall|j: int|
                    0 <= j < i ==> (#[trigger] self.outcomes@[j]) is None) implies first_failure(self.outcomes@)
                == self.outcomes@[i] by {
                lemma_first_failure_is_earliest(self.outcomes@, i);
            }
        }
        if granted {
            AuthDecision::Grant(self.context)
        } else {
            AuthDecision::Deny(self.first_failure)
        }
    }
}

/// The failure view of an optional failure.
pub open spec fn failure_view(f: Option<AuthFailure>) -> Outcome {
    match f {
        Some(x) => Some(x@),
        None => None,
    }
}

} // verus!

verus! {

/// The outcomes a run ends with when the i-th channel, if evaluated, would
/// give `results[i]`, continuing from the outcomes recorded so far.
pub open spec fn run_outcomes(mode: AuthMode, results: Seq<Outcome>, outcomes: Seq<Outcome>) -> Seq<Outcome>
    decreases results.len() - outcomes.len(),
{
    if run_done(mode, results.len(), outcomes) || outcomes.len() >= results.len() {
        outcomes
    } else {
        run_outcomes(mode, results, outcomes.push(results[outcomes.len() as int]))
    }
}

proof fn lemma_run_outcomes_step(mode: AuthMode, results: Seq<Outcome>, outcomes: Seq<Outcome>)
    requires
        outcomes.len() <= results.len(),
        outcomes == results.take(outcomes.len() as int),
        mode == AuthMode::AnyOf ==> !some_passed(outcomes),
    ensures
        ({
            let r = run_outcomes(mode, results, outcomes);
            &&& r.len() <= results.len()
            &&& r == results.take(r.len() as int)
            &&& mode == AuthMode::AllOf ==> r == results
            &&& mode == AuthMode::AnyOf ==> {
                &&& some_passed(r) == some_passed(results)
                &&& !some_passed(r) ==> r == results
                &&& some_passed(r) ==> r.len() > 0 && r.last() is None && !some_passed(r.drop_last())
            }
        }),
    decreases results.len() - outcomes.len(),
{
    if outcomes.len() >= results.len() {
        assert(results.take(results.len() as int) =~= results);
    } else {
        let next = outcomes.push(results[outcomes.len() as int]);
        assert(next =~= results.take(next.len() as int));
        if mode == AuthMode::AnyOf && some_passed(next) {
            // the run stops right after the first passing channel
            let k = choose|k: int| 0 <= k < next.len() && next[k] is None;
            if k < outcomes.len() {
                assert(outcomes[k] == next[k]);
            }
            assert(next.drop_last() =~= outcomes);
            assert(run_outcomes(mode, results, next) == next);
            assert(results[k] == next[k]);
        } else {
            lemma_run_outcomes_step(mode, results, next);
        }
        if mode == AuthMode::AnyOf && !some_passed(results) {
            assert(!some_passed(next)) by {
                if some_passed(next) {
                    let k = choose|k: int| 0 <= k < next.len() && next[k] is None;
                    assert(results[k] == next[k]);
                }
            }
        }
    }
}

/// A run that records, for each channel it asks for, that channel's entry
/// of `results` ends with `run_outcomes(mode, results, [])`: recording the
/// next entry while the run is not over keeps what the run ends with, and a
/// run that is over ends with what it recorded.
pub proof fn lemma_run_follows_results(mode: AuthMode, results: Seq<Outcome>, outcomes: Seq<Outcome>)
    requires
        outcomes.len() <= results.len(),
    ensures
        !run_done(mode, results.len(), outcomes) ==> run_outcomes(mode, results, outcomes) == run_outcomes(
            mode,
            results,
            outcomes.push(results[outcomes.len() as int]),
        ),
        run_done(mode, results.len(), outcomes) ==> run_outcomes(mode, results, outcomes) == outcomes,
{
}

/// The meaning of a policy's mode over a whole run, when the i-th channel
/// would give `results[i]`: in all-of mode every channel is evaluated and
/// the request passes exactly when every channel passes; in any-of mode the
/// request passes exactly when some channel passes, and evaluation stops at
/// the first channel that passes; a refused request is answered by the
/// first failure among the channels.
pub proof fn lemma_auth_mode_semantics(mode: AuthMode, results: Seq<Outcome>)
    ensures
        ({
            let r = run_outcomes(mode, results, Seq::empty());
            &&& run_grants(mode, r) <==> match mode {
                AuthMode::AnyOf => some_passed(results),
                AuthMode::AllOf => every_passed(results),
            }
            &&& r == results.take(r.len() as int)
            &&& mode == AuthMode::AllOf ==> r == results
            &&& (mode == AuthMode::AnyOf && some_passed(r)) ==> r.last() is None && !some_passed(
                r.drop_last(),
            )
            &&& !run_grants(mode, r) ==> first_failure(r) == first_failure(results)
        }),
{
    assert(results.take(0) =~= Seq::<Outcome>::empty());
    lemma_run_outcomes_step(mode, results, Seq::empty());
}

} // verus!

verus! {

/// The body of an error response: a code and a message under `error`.
#[derive(Debug)]
pub struct JsonBody {
    pub code: &'static str,
    pub message: String,
}

impl JsonBody {
    pub fn new(code: &'static str, message: &str) -> (r: Self)
        ensures
            r.code == code,
            r.message@ == message@,
    {
        JsonBody { code, message: String::from_str(message) }
    }
}

/// How a refused request is answered: the status, the body, and the
/// `Payment-Required` header that goes with a payment challenge.
#[derive(Debug)]
pub struct Refusal {
    pub status: u16,
    pub body: JsonBody,
    pub payment_required: Option<String>,
}

/// The settings of the middleware that are plain values.
#[derive(Debug, Clone)]
pub struct AuthSettings {
    /// The mount under which API keys are looked up.
    pub api_key_mount_name: String,
    /// The header a request id is read from.
    pub request_id_header: String,
    /// The description of the paid resource in payment challenges.
    pub default_resource_description: String,
    /// The MIME type of the paid resource in payment challenges.
    pub default_resource_mime_type: String,
}

impl AuthSettings {
    /// The default settings.
    pub fn new() -> (r: Self)
        ensures
            r.api_key_mount_name@ == "default"@,
            r.request_id_header@ == "x-request-id"@,
            r.default_resource_description@ == "x402 protected resource"@,
            r.default_resource_mime_type@ == "application/json"@,
    {
        AuthSettings {
            api_key_mount_name: String::from_str("default"),
            request_id_header: String::from_str("x-request-id"),
            default_resource_description: String::from_str("x402 protected resource"),
            default_resource_mime_type: String::from_str("application/json"),
        }
    }

    /// The same settings with another API key mount.
    pub fn with_api_key_mount_name(self, mount_name: String) -> (r: Self)
        ensures
            r.api_key_mount_name == mount_name,
            r.request_id_header == self.request_id_header,
            r.default_resource_description == self.default_resource_description,
            r.default_resource_mime_type == self.default_resource_mime_type,
    {
        AuthSettings { api_key_mount_name: mount_name, ..self }
    }
}

/// The `Payment-Required` header of a payment challenge: the URL-safe base64
/// (unpadded) of the JSON challenge naming the policy's payment options (none
/// when one of them cannot be read), the resource and the message; nothing
/// when the challenge cannot be serialized.
pub open spec fn spec_challenge_header(
    accepts: Seq<RequirementView>,
    resource_url: Seq<char>,
    settings: AuthSettings,
    message: Seq<char>,
) -> Option<Seq<char>> {
    let offered = match spec_parse_policy_accepts(accepts) {
        Ok(w) => w,
        Err(_) => Seq::empty(),
    };
    match spec_payment_required_json(
        offered,
        resource_url,
        settings.default_resource_description@,
        settings.default_resource_mime_type@,
        message,
    ) {
        Some(bytes) => Some(spec_base64_url_encode(bytes)),
        None => None,
    }
}

/// The `Payment-Required` header of a payment challenge.
pub fn challenge_header(
    accepts: &Vec<X402RequirementDb>,
    resource_url: &str,
    settings: &AuthSettings,
    message: &str,
) -> (r: Option<String>)
    ensures
        r is Some,
        r.deep_view() == spec_challenge_header(db_requirements_view(accepts@), resource_url@, *settings, message@),
{
    let offered = challenge_accepts(accepts);
    match payment_required_json(
        offered,
        resource_url,
        settings.default_resource_description.as_str(),
        settings.default_resource_mime_type.as_str(),
        message,
    ) {
        Some(bytes) => {
            assert(bytes.deep_view() =~= bytes@);
            Some(base64_url_encode(bytes.as_slice()))
        },
        None => None,
    }
}

/// The answer to a refused request, from its first failure: a payment
/// challenge (402, with its header) for a payment failure, 401 for an API
/// key failure, and 500 otherwise.
pub open spec fn spec_refusal(
    f: Outcome,
    accepts: Seq<RequirementView>,
    resource_url: Seq<char>,
    settings: AuthSettings,
) -> (u16, Seq<char>, Seq<char>, Option<Seq<char>>) {
    match f {
        Some(FailureView::X402Challenge { message }) => (
            402,
            "payment_required"@,
            message,
            spec_challenge_header(accepts, resource_url, settings, message),
        ),
        Some(FailureView::ApiKeyUnauthorized { message }) => (401, "unauthorized"@, message, None),
        _ => (500, "internal_error"@, "Internal server error"@, None),
    }
}

/// The parts of a refusal, as contracts see them.
pub open spec fn refusal_view(r: Refusal) -> (u16, Seq<char>, Seq<char>, Option<Seq<char>>) {
    (r.status, r.body.code@, r.body.message@, r.payment_required.deep_view())
}

/// The answer to a refused request, from its first failure; a payment
/// challenge offers the policy's payment options (`accepts`) for the
/// resource at `resource_url`.
pub fn failure_response(
    failure: Option<AuthFailure>,
    accepts: &Vec<X402RequirementDb>,
    resource_url: &str,
    settings: &AuthSettings,
) -> (r: Refusal)
    ensures
        refusal_view(r) == spec_refusal(failure_view(failure), db_requirements_view(accepts@), resource_url@, *settings),
        failure matches Some(AuthFailure::X402Challenge { .. }) ==> r.payment_required is Some,
{
    match failure {
        Some(AuthFailure::X402Challenge { message }) => {
            let header = challenge_header(accepts, resource_url, settings, message.as_str());
            Refusal {
                status: 402,
                body: JsonBody::new("payment_required", message.as_str()),
                payment_required: header,
            }
        },
        Some(AuthFailure::ApiKeyUnauthorized { message }) => Refusal {
            status: 401,
            body: JsonBody::new("unauthorized", message.as_str()),
            payment_required: None,
        },
        _ => internal_error_response(),
    }
}

/// The answer when the server fails: 500 with a fixed message.
pub fn internal_error_response() -> (r: Refusal)
    ensures
        refusal_view(r) == (500u16, "internal_error"@, "Internal server error"@, None::<Seq<char>>),
{
    Refusal {
        status: 500,
        body: JsonBody::new("internal_error", "Internal server error"),
        payment_required: None,
    }
}

} // verus!
