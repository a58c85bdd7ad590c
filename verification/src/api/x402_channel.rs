//! The steps of evaluating the payment and API-key channels: what each step
//! decides from what the previous ones, the database and the facilitator
//! gave.

use uuid::Uuid;
use vstd::prelude::*;

use crate::api::auth_middleware::{AuthFailure, ChannelSuccess, FailureView};
use crate::api::x402_wire::{
    base64_url_decode, json_values_equal, parse_chain_id, parse_payment_payload,
    spec_base64_url_decode, spec_chain_id_error, spec_json_values_equal, spec_parse_chain_id,
    spec_payment_payload, spec_verify_request_body, verify_request_body, wires_view,
    PaymentPayloadInfo, PaymentPayloadView, RequirementWire, RequirementWireView, SettleAnswer,
    SettleAnswerView, VerifyAnswer, VerifyAnswerView,
};
use crate::error::LibError;
use crate::models::auth::{ApiKeyProof, X402Proof};
use crate::models::facilitator::{FacilitatorProfileApi, FacilitatorProfileDb, ProfileView};
use crate::models::policy::{db_requirements_view, RequirementView, X402RequirementDb};
use crate::text::str_eq;

verus! {

/// The message when a stored network is no chain id.
pub open spec fn network_error(network: Seq<char>) -> Seq<char> {
    "invalid payment requirement network '"@ + network + "': "@ + spec_chain_id_error(network)
}

/// A stored payment option in the form a payment payload states it, with
/// its network split into namespace and reference.
pub open spec fn wire_of(r: RequirementView, namespace: Seq<char>, reference: Seq<char>) -> RequirementWireView {
    RequirementWireView {
        scheme: r.scheme,
        network_namespace: namespace,
        network_reference: reference,
        amount: r.amount,
        pay_to: r.pay_to,
        max_timeout_seconds: r.max_timeout_seconds,
        asset: r.asset,
        extra: r.extra,
    }
}

/// What reading a policy's payment options gives: each in the form a
/// payload states it, or the message of the first whose network is no
/// chain id.
pub open spec fn spec_parse_policy_accepts(items: Seq<RequirementView>) -> Result<Seq<RequirementWireView>, Seq<char>>
    decreases items.len(),
{
    if items.len() == 0 {
        Ok(Seq::empty())
    } else {
        match spec_parse_policy_accepts(items.drop_last()) {
            Err(e) => Err(e),
            Ok(prefix) => match spec_parse_chain_id(items.last().network) {
                None => Err(network_error(items.last().network)),
                Some(chain) => Ok(prefix.push(wire_of(items.last(), chain.0, chain.1))),
            },
        }
    }
}

fn clone_optional_text(v: &Option<String>) -> (r: Option<String>)
    ensures
        r.deep_view() == v.deep_view(),
{
    match v {
        Some(s) => Some(s.clone()),
        None => None,
    }
}

/// Reads a policy's payment options in the form a payment payload states them.
pub fn parse_policy_accepts(items: &Vec<X402RequirementDb>) -> (r: Result<Vec<RequirementWire>, String>)
    ensures
        match (r, spec_parse_policy_accepts(db_requirements_view(items@))) {
            (Ok(a), Ok(b)) => wires_view(a@) == b,
            (Err(a), Err(b)) => a@ == b,
            _ => false,
        },
{
    let ghost all = db_requirements_view(items@);
    let mut out: Vec<RequirementWire> = Vec::new();
    let mut i: usize = 0;
    assert(wires_view(out@) =~= Seq::<RequirementWireView>::empty());
    assert(all.take(0) =~= Seq::<RequirementView>::empty());
    while i < items.len()
        invariant
            i <= items@.len(),
            all == db_requirements_view(items@),
            spec_parse_policy_accepts(all.take(i as int)) == Ok::<
                Seq<RequirementWireView>,
                Seq<char>,
            >(wires_view(out@)),
        decreases items@.len() - i,
    {
        assert(all.take(i + 1).drop_last() =~= all.take(i as int));
        assert(all.take(i + 1).last() == items@[i as int]@);
        let item = &items[i];
        match parse_chain_id(item.network.as_str()) {
            Ok((namespace, reference)) => {
                let wire = RequirementWire {
                    scheme: item.scheme.clone(),
                    network_namespace: namespace,
                    network_reference: reference,
                    amount: item.amount.clone(),
                    pay_to: item.pay_to.clone(),
                    max_timeout_seconds: item.max_timeout_seconds,
                    asset: item.asset.clone(),
                    extra: clone_optional_text(&item.extra),
                };
                let ghost old_out = out@;
                out.push(wire);
                assert(wires_view(out@) =~= wires_view(old_out).push(wire@));
            },
            Err(e) => {
                let message = String::from_str("invalid payment requirement network '").concat(
                    item.network.as_str(),
                ).concat("': ").concat(e.as_str());
                proof {
                    lemma_parse_accepts_error_sticks(all, i as int + 1);
                }
                return Err(message);
            },
        }
        i = i + 1;
    }
    assert(all.take(items@.len() as int) =~= all);
    Ok(out)
}

proof fn lemma_parse_accepts_error_sticks(items: Seq<RequirementView>, k: int)
    requires
        0 <= k <= items.len(),
        spec_parse_policy_accepts(items.take(k)) is Err,
    ensures
        spec_parse_policy_accepts(items) == spec_parse_policy_accepts(items.take(k)),
    decreases items.len() - k,
{
    if k < items.len() {
        assert(items.take(k + 1).drop_last() =~= items.take(k));
        lemma_parse_accepts_error_sticks(items, k + 1);
    } else {
        assert(items.take(k) =~= items);
    }
}

/// The payment options a payment challenge offers: the policy's options,
/// or none when one of them cannot be read.
pub fn challenge_accepts(items: &Vec<X402RequirementDb>) -> (r: Vec<RequirementWire>)
    ensures
        wires_view(r@) == match spec_parse_policy_accepts(db_requirements_view(items@)) {
            Ok(w) => w,
            Err(_) => Seq::empty(),
        },
{
    match parse_policy_accepts(items) {
        Ok(w) => w,
        Err(_) => {
            let v: Vec<RequirementWire> = Vec::new();
            assert(wires_view(v@) =~= Seq::<RequirementWireView>::empty());
            v
        },
    }
}

/// Whether two optional JSON texts are both absent, or both present with
/// equal JSON values.
pub open spec fn extra_matches(a: Option<Seq<char>>, b: Option<Seq<char>>) -> bool {
    match (a, b) {
        (Some(x), Some(y)) => spec_json_values_equal(x, y),
        (None, None) => true,
        _ => false,
    }
}

/// Whether two payment options are the same: equal in every field, the
/// extra data compared as JSON values.
pub open spec fn wire_matches(a: RequirementWireView, b: RequirementWireView) -> bool {
    &&& a.scheme == b.scheme
    &&& a.network_namespace == b.network_namespace
    &&& a.network_reference == b.network_reference
    &&& a.amount == b.amount
    &&& a.pay_to == b.pay_to
    &&& a.max_timeout_seconds == b.max_timeout_seconds
    &&& a.asset == b.asset
    &&& extra_matches(a.extra, b.extra)
}

/// Whether some option of a list is the same as `accepted`.
pub open spec fn offers(offered: Seq<RequirementWireView>, accepted: RequirementWireView) -> bool {
    exists|k: int| 0 <= k < offered.len() && wire_matches(#[trigger] offered[k], accepted)
}

/// An option is offered exactly when it is the same as one of the offered
/// options, whatever its position in the list.
pub proof fn lemma_offers_any_position(offered: Seq<RequirementWireView>, accepted: RequirementWireView)
    ensures
        forall|k: int| 0 <= k < offered.len() && wire_matches(#[trigger] offered[k], accepted) ==> offers(offered, accepted),
        offers(offered, accepted) ==> exists|k: int| 0 <= k < offered.len() && wire_matches(#[trigger] offered[k], accepted),
{
}

fn optional_extra_matches(a: &Option<String>, b: &Option<String>) -> (r: bool)
    ensures
        r == extra_matches(a.deep_view(), b.deep_view()),
{
    match (a, b) {
        (Some(x), Some(y)) => json_values_equal(x.as_str(), y.as_str()),
        (None, None) => true,
        _ => false,
    }
}

/// Whether two payment options are the same: equal in every field, the
/// extra data compared as JSON values.
pub fn requirement_eq(a: &RequirementWire, b: &RequirementWire) -> (r: bool)
    ensures
        r == wire_matches(a@, b@),
{
    str_eq(a.scheme.as_str(), b.scheme.as_str()) && str_eq(
        a.network_namespace.as_str(),
        b.network_namespace.as_str(),
    ) && str_eq(a.network_reference.as_str(), b.network_reference.as_str()) && str_eq(
        a.amount.as_str(),
        b.amount.as_str(),
    ) && str_eq(a.pay_to.as_str(), b.pay_to.as_str()) && a.max_timeout_seconds
        == b.max_timeout_seconds && str_eq(a.asset.as_str(), b.asset.as_str())
        && optional_extra_matches(&a.extra, &b.extra)
}

/// Whether a payment option is one of a list.
pub fn requirement_in(accepted: &RequirementWire, candidates: &Vec<RequirementWire>) -> (r: bool)
    ensures
        r == offers(wires_view(candidates@), accepted@),
        r <==> exists|k: int| 0 <= k < candidates@.len() && wire_matches(#[trigger] candidates@[k]@, accepted@),
{
    let mut j: usize = 0;
    while j < candidates.len()
        invariant
            j <= candidates@.len(),
            forall|k: int| 0 <= k < j ==> !wire_matches(#[trigger] candidates@[k]@, accepted@),
        decreases candidates@.len() - j,
    {
        if requirement_eq(&candidates[j], accepted) {
            assert(wire_matches(wires_view(candidates@)[j as int], accepted@));
            assert(wire_matches(candidates@[j as int]@, accepted@));
            return true;
        }
        j = j + 1;
    }
    assert forall|k: int| 0 <= k < wires_view(candidates@).len() implies !wire_matches(
        #[trigger] wires_view(candidates@)[k],
        accepted@,
    ) by {
        assert(wires_view(candidates@)[k] == candidates@[k]@);
    }
    false
}

/// A payment that passed the checks that need neither the database nor the
/// facilitator: the decoded payload and what it states.
#[derive(Debug)]
pub struct CheckedPayment {
    pub payload_bytes: Vec<u8>,
    pub payload: PaymentPayloadInfo,
}

/// The failure of a payment that must be offered a challenge.
pub open spec fn challenge(message: Seq<char>) -> FailureView {
    FailureView::X402Challenge { message }
}

/// What the first checks of a payment give: the decoded payload and what it
/// states, or the first failure: no signature, a signature that does not
/// decode, unreadable policy options (a server failure), or an accepted
/// option the policy does not offer.
pub open spec fn spec_check_payment(signature: Option<Seq<char>>, accepts: Seq<RequirementView>) -> Result<
    (Seq<u8>, PaymentPayloadView),
    FailureView,
> {
    match signature {
        None => Err(challenge("Missing Payment-Signature header"@)),
        Some(s) => match spec_base64_url_decode(s) {
            Err(e) => Err(challenge("Invalid payment payload: "@ + e)),
            Ok(bytes) => match spec_payment_payload(bytes) {
                Err(e) => Err(challenge("Invalid payment payload: "@ + e)),
                Ok(payload) => match spec_parse_policy_accepts(accepts) {
                    Err(m) => Err(FailureView::Internal { message: m }),
                    Ok(offered) => if offers(offered, payload.accepted) {
                        Ok((bytes, payload))
                    } else {
                        Err(challenge("Accepted payment requirements do not match route policy"@))
                    },
                },
            },
        },
    }
}

fn challenge_failure(message: &str) -> (f: AuthFailure)
    ensures
        f@ == challenge(message@),
{
    AuthFailure::X402Challenge { message: String::from_str(message) }
}

/// The first checks of a payment: a signature is present and decodes to a
/// payload whose accepted option is one the policy offers.
pub fn check_payment(signature: Option<String>, accepts: &Vec<X402RequirementDb>) -> (r: Result<
    CheckedPayment,
    AuthFailure,
>)
    ensures
        match (r, spec_check_payment(signature.deep_view(), db_requirements_view(accepts@))) {
            (Ok(a), Ok(b)) => a.payload_bytes@ == b.0 && a.payload@ == b.1,
            (Err(a), Err(b)) => a@ == b,
            _ => false,
        },
{
    let signature = match signature {
        Some(s) => s,
        None => return Err(challenge_failure("Missing Payment-Signature header")),
    };
    let bytes = match base64_url_decode(signature.as_str()) {
        Ok(b) => b,
        Err(e) => {
            let m = String::from_str("Invalid payment payload: ").concat(e.as_str());
            return Err(challenge_failure(m.as_str()));
        },
    };
    let payload = match parse_payment_payload(bytes.as_slice()) {
        Ok(p) => p,
        Err(e) => {
            let m = String::from_str("Invalid payment payload: ").concat(e.as_str());
            return Err(challenge_failure(m.as_str()));
        },
    };
    let offered = match parse_policy_accepts(accepts) {
        Ok(o) => o,
        Err(m) => return Err(AuthFailure::Internal { message: m }),
    };
    if !requirement_in(&payload.accepted, &offered) {
        return Err(challenge_failure("Accepted payment requirements do not match route policy"));
    }
    Ok(CheckedPayment { payload_bytes: bytes, payload })
}

/// The facilitator profile a paid route uses, which it must name.
pub fn require_profile_id(id: Option<Uuid>) -> (r: Result<Uuid, AuthFailure>)
    ensures
        match id {
            Some(i) => r == Ok::<Uuid, AuthFailure>(i),
            None => r matches Err(f) && f@ == challenge("Route policy is missing facilitator profile"@),
        },
{
    match id {
        Some(i) => Ok(i),
        None => Err(challenge_failure("Route policy is missing facilitator profile")),
    }
}

/// What the profile lookup of a payment gives: the profile when it exists
/// and is enabled; a server failure when the lookup failed.
pub open spec fn spec_usable_profile(lookup: Result<Option<ProfileView>, Seq<char>>) -> Result<ProfileView, FailureView> {
    match lookup {
        Err(e) => Err(FailureView::Internal { message: "failed to load facilitator profile: "@ + e }),
        Ok(None) => Err(challenge("Configured facilitator profile was not found"@)),
        Ok(Some(p)) => if p.enabled {
            Ok(p)
        } else {
            Err(challenge("Configured facilitator profile is disabled"@))
        },
    }
}

/// The view of a profile lookup.
pub open spec fn lookup_view(lookup: Result<Option<FacilitatorProfileDb>, String>) -> Result<Option<ProfileView>, Seq<char>> {
    match lookup {
        Err(e) => Err(e@),
        Ok(None) => Ok(None),
        Ok(Some(p)) => Ok(Some(p@)),
    }
}

/// Decides on the outcome of looking up a payment's facilitator profile;
/// `lookup` is the stored profile, or the lookup failure's text.
pub fn usable_profile(lookup: Result<Option<FacilitatorProfileDb>, String>) -> (r: Result<
    FacilitatorProfileApi,
    AuthFailure,
>)
    ensures
        match (r, spec_usable_profile(lookup_view(lookup))) {
            (Ok(a), Ok(b)) => a@ == b,
            (Err(a), Err(b)) => a@ == b,
            _ => false,
        },
{
    match lookup {
        Err(e) => {
            let m = String::from_str("failed to load facilitator profile: ").concat(e.as_str());
            Err(AuthFailure::Internal { message: m })
        },
        Ok(None) => Err(challenge_failure("Configured facilitator profile was not found")),
        Ok(Some(p)) => {
            let profile = FacilitatorProfileApi::from_db(p);
            if !profile.enabled {
                return Err(challenge_failure("Configured facilitator profile is disabled"));
            }
            Ok(profile)
        },
    }
}

/// The verify (and settle) request for a checked payment; failing to build
/// it is a server failure.
pub fn verify_request_for(payment: &CheckedPayment) -> (r: Result<String, AuthFailure>)
    ensures
        match (r, spec_verify_request_body(payment.payload_bytes@)) {
            (Ok(a), Ok(b)) => a@ == b,
            (Err(a), Err(b)) => a@ == FailureView::Internal {
                message: "Failed to build verify request: "@ + b,
            },
            _ => false,
        },
{
    match verify_request_body(payment.payload_bytes.as_slice()) {
        Ok(body) => Ok(body),
        Err(e) => {
            let m = String::from_str("Failed to build verify request: ").concat(e.as_str());
            Err(AuthFailure::Internal { message: m })
        },
    }
}

/// Decides on a facilitator's verification: the payer when the payment is
/// valid; a challenge when it is not, or when the facilitator could not be
/// asked (with that error's public message).
pub fn payer_from_verification(answer: Result<VerifyAnswer, LibError>) -> (r: Result<String, AuthFailure>)
    ensures
        match answer {
            Err(e) => r matches Err(f) && f@ == challenge(e.public@),
            Ok(VerifyAnswer::Invalid { reason, .. }) => r matches Err(f) && f@ == challenge(
                "Payment verification failed: "@ + reason@,
            ),
            Ok(VerifyAnswer::Valid { payer }) => r matches Ok(p) && p@ == payer@,
        },
{
    match answer {
        Err(e) => Err(AuthFailure::X402Challenge { message: e.public }),
        Ok(VerifyAnswer::Invalid { reason, .. }) => {
            let m = String::from_str("Payment verification failed: ").concat(reason.as_str());
            Err(AuthFailure::X402Challenge { message: m })
        },
        Ok(VerifyAnswer::Valid { payer }) => Ok(payer),
    }
}

/// Decides on a facilitator's settlement: a challenge unless it succeeded.
pub fn settlement_check(answer: Result<SettleAnswer, LibError>) -> (r: Result<(), AuthFailure>)
    ensures
        match answer {
            Err(e) => r matches Err(f) && f@ == challenge(e.public@),
            Ok(SettleAnswer::Error { reason, .. }) => r matches Err(f) && f@ == challenge(
                "Payment settlement failed: "@ + reason@,
            ),
            Ok(SettleAnswer::Success { .. }) => r is Ok,
        },
{
    match answer {
        Err(e) => Err(AuthFailure::X402Challenge { message: e.public }),
        Ok(SettleAnswer::Error { reason, .. }) => {
            let m = String::from_str("Payment settlement failed: ").concat(reason.as_str());
            Err(AuthFailure::X402Challenge { message: m })
        },
        Ok(SettleAnswer::Success { .. }) => Ok(()),
    }
}

/// What a settled payment proves: the verified payer, the accepted network
/// as a chain id (`namespace:reference`), the accepted scheme, and the
/// resource the payload names.
pub fn payment_proof(payer: String, payment: CheckedPayment) -> (r: X402Proof)
    ensures
        r.payer@ == payer@,
        r.network@ == payment.payload.accepted.network_namespace@ + ":"@
            + payment.payload.accepted.network_reference@,
        r.scheme@ == payment.payload.accepted.scheme@,
        r.resource.deep_view() == payment.payload.resource_url.deep_view(),
{
    let accepted = payment.payload.accepted;
    let network = accepted.network_namespace.concat(":").concat(
        accepted.network_reference.as_str(),
    );
    X402Proof { payer, network, scheme: accepted.scheme, resource: payment.payload.resource_url }
}

/// The API key a request must carry.
pub fn require_api_key(key: Option<String>) -> (r: Result<String, AuthFailure>)
    ensures
        match key {
            Some(k) => r matches Ok(v) && v@ == k@,
            None => r matches Err(f) && f@ == FailureView::ApiKeyUnauthorized {
                message: "Missing API key"@,
            },
        },
{
    match key {
        Some(k) => Ok(k),
        None => Err(AuthFailure::ApiKeyUnauthorized { message: String::from_str("Missing API key") }),
    }
}

/// Decides on the key store's answer for a request's API key: the proof for
/// a known key, a 401 failure for an unknown one, a server failure when the
/// store failed (`lookup` then holds its text).
pub fn api_key_outcome(lookup: Result<Option<ApiKeyProof>, String>) -> (r: Result<
    ChannelSuccess,
    AuthFailure,
>)
    ensures
        match lookup {
            Err(e) => r matches Err(f) && f@ == FailureView::Internal {
                message: "api key auth failed: "@ + e@,
            },
            Ok(None) => r matches Err(f) && f@ == FailureView::ApiKeyUnauthorized {
                message: "Invalid API key"@,
            },
            Ok(Some(p)) => r == Ok::<ChannelSuccess, AuthFailure>(ChannelSuccess::ApiKey(p)),
        },
{
    match lookup {
        Err(e) => {
            let m = String::from_str("api key auth failed: ").concat(e.as_str());
            Err(AuthFailure::Internal { message: m })
        },
        Ok(None) => Err(AuthFailure::ApiKeyUnauthorized { message: String::from_str("Invalid API key") }),
        Ok(Some(p)) => Ok(ChannelSuccess::ApiKey(p)),
    }
}

/// The outside call a payment under evaluation waits for.
pub enum PaymentStage {
    /// The facilitator profile with this id must be looked up.
    NeedProfile(Uuid),
    /// The verify request `body` must be sent to the profile's verify endpoint.
    NeedVerification { profile: FacilitatorProfileApi, body: String },
    /// The same request must be sent to the profile's settle endpoint; the
    /// facilitator verified `payer`.
    NeedSettlement { profile: FacilitatorProfileApi, body: String, payer: String },
}

/// A payment under evaluation, between two outside calls: the payment as
/// first checked, and the call it waits for.
pub struct PaymentEval {
    pub payment: CheckedPayment,
    pub stage: PaymentStage,
}

impl PaymentEval {
    /// Starts evaluating a payment: the first checks, then the profile the
    /// route names, which is looked up next.
    pub fn begin(signature: Option<String>, accepts: &Vec<X402RequirementDb>, profile_id: Option<Uuid>) -> (r:
        Result<Self, AuthFailure>)
        ensures
            match spec_check_payment(signature.deep_view(), db_requirements_view(accepts@)) {
                Err(f) => r matches Err(a) && a@ == f,
                Ok(b) => match profile_id {
                    None => r matches Err(a) && a@ == challenge("Route policy is missing facilitator profile"@),
                    Some(id) => r matches Ok(e) && e.payment.payload_bytes@ == b.0 && e.payment.payload@ == b.1
                        && e.stage == PaymentStage::NeedProfile(id),
                },
            },
    {
        let payment = match check_payment(signature, accepts) {
            Ok(p) => p,
            Err(f) => return Err(f),
        };
        let id = match require_profile_id(profile_id) {
            Ok(i) => i,
            Err(f) => return Err(f),
        };
        Ok(PaymentEval { payment, stage: PaymentStage::NeedProfile(id) })
    }

    /// The id of the profile to look up.
    pub fn profile_to_load(&self) -> (r: Uuid)
        requires
            self.stage is NeedProfile,
        ensures
            self.stage == PaymentStage::NeedProfile(r),
    {
        match &self.stage {
            PaymentStage::NeedProfile(id) => *id,
            _ => vstd::pervasive::unreached(),
        }
    }

    /// The facilitator to call and the request to send it.
    pub fn facilitator_call(&self) -> (r: (&FacilitatorProfileApi, &str))
        requires
            self.stage is NeedVerification || self.stage is NeedSettlement,
        ensures
            self.stage is NeedVerification ==> *r.0 == self.stage->NeedVerification_profile
                && r.1@ == self.stage->NeedVerification_body@,
            self.stage is NeedSettlement ==> *r.0 == self.stage->NeedSettlement_profile
                && r.1@ == self.stage->NeedSettlement_body@,
    {
        match &self.stage {
            PaymentStage::NeedVerification { profile, body } => (profile, body.as_str()),
            PaymentStage::NeedSettlement { profile, body, .. } => (profile, body.as_str()),
            PaymentStage::NeedProfile(_) => vstd::pervasive::unreached(),
        }
    }

    /// Goes on with the outcome of the profile lookup (`lookup` holds the
    /// stored profile, or the lookup failure's text): the profile must be
    /// usable, then the verify request is built.
    pub fn profile_loaded(self, lookup: Result<Option<FacilitatorProfileDb>, String>) -> (r: Result<
        Self,
        AuthFailure,
    >)
        requires
            self.stage is NeedProfile,
        ensures
            match spec_usable_profile(lookup_view(lookup)) {
                Err(f) => r matches Err(a) && a@ == f,
                Ok(p) => match spec_verify_request_body(self.payment.payload_bytes@) {
                    Err(m) => r matches Err(a) && a@ == FailureView::Internal {
                        message: "Failed to build verify request: "@ + m,
                    },
                    Ok(b) => r matches Ok(e) && e.payment == self.payment && (e.stage matches PaymentStage::NeedVerification {
                        profile,
                        body,
                    } && profile@ == p && body@ == b),
                },
            },
    {
        let profile = match usable_profile(lookup) {
            Ok(p) => p,
            Err(f) => return Err(f),
        };
        let body = match verify_request_for(&self.payment) {
            Ok(b) => b,
            Err(f) => return Err(f),
        };
        Ok(PaymentEval { payment: self.payment, stage: PaymentStage::NeedVerification { profile, body } })
    }

    /// Goes on with the facilitator's verification: a valid payment is
    /// settled next.
    pub fn verified(self, answer: Result<VerifyAnswer, LibError>) -> (r: Result<Self, AuthFailure>)
        requires
            self.stage is NeedVerification,
        ensures
            match answer {
                Err(e) => r is Err && r->Err_0@ == challenge(e.public@),
                Ok(VerifyAnswer::Invalid { reason, .. }) => r is Err && r->Err_0@ == challenge(
                    "Payment verification failed: "@ + reason@,
                ),
                Ok(VerifyAnswer::Valid { payer }) => {
                    &&& r is Ok
                    &&& r->Ok_0.payment == self.payment
                    &&& r->Ok_0.stage is NeedSettlement
                    &&& r->Ok_0.stage->NeedSettlement_profile == self.stage->NeedVerification_profile
                    &&& r->Ok_0.stage->NeedSettlement_body == self.stage->NeedVerification_body
                    &&& r->Ok_0.stage->NeedSettlement_payer@ == payer@
                },
            },
    {
        let payer = match payer_from_verification(answer) {
            Ok(p) => p,
            Err(f) => return Err(f),
        };
        match self.stage {
            PaymentStage::NeedVerification { profile, body } => Ok(
                PaymentEval { payment: self.payment, stage: PaymentStage::NeedSettlement { profile, body, payer } },
            ),
            PaymentStage::NeedProfile(id) => Ok(PaymentEval { payment: self.payment, stage: PaymentStage::NeedProfile(id) }),
            PaymentStage::NeedSettlement { profile, body, payer } => Ok(
                PaymentEval { payment: self.payment, stage: PaymentStage::NeedSettlement { profile, body, payer } },
            ),
        }
    }

    /// Ends with the facilitator's settlement: a settled payment passes,
    /// proving the verified payer, the accepted network, scheme and resource.
    pub fn settled(self, answer: Result<SettleAnswer, LibError>) -> (r: Result<ChannelSuccess, AuthFailure>)
        requires
            self.stage is NeedSettlement,
        ensures
            match answer {
                Err(e) => r matches Err(f) && f@ == challenge(e.public@),
                Ok(SettleAnswer::Error { reason, .. }) => r matches Err(f) && f@ == challenge(
                    "Payment settlement failed: "@ + reason@,
                ),
                Ok(SettleAnswer::Success { .. }) => r matches Ok(ChannelSuccess::X402(proof)) && (
                self.stage matches PaymentStage::NeedSettlement { payer, .. } && proof.payer@ == payer@)
                    && proof.network@ == self.payment.payload.accepted.network_namespace@ + ":"@
                    + self.payment.payload.accepted.network_reference@ && proof.scheme@
                    == self.payment.payload.accepted.scheme@ && proof.resource.deep_view()
                    == self.payment.payload.resource_url.deep_view(),
            },
    {
        if let Err(f) = settlement_check(answer) {
            return Err(f);
        }
        let payer = match self.stage {
            PaymentStage::NeedSettlement { payer, .. } => payer,
            PaymentStage::NeedVerification { .. } => String::new(),
            PaymentStage::NeedProfile(_) => String::new(),
        };
        Ok(ChannelSuccess::X402(payment_proof(payer, self.payment)))
    }
}

} // verus!
