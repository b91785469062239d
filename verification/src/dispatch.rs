//! The purge dispatcher.
//!
//! `dispatch` turns a purge decision into a plan: do nothing when there
//! is nothing to purge, echo the would-be request body in dry-run mode,
//! or hand the caller one fully built HTTP request (URL, authorization
//! header value, JSON body) to send. The transport itself lives outside
//! the library; once the caller has the provider's HTTP response,
//! `interpret_response` says what it means. A rejected purge is reported
//! as an `Outcome`, never as an error.

use crate::classify::{DecisionSpec, PurgeDecision};
use crate::payload::{build_payload, payload_body};
use vstd::prelude::*;

verus! {

/// The reported result of one purge run.
pub enum Outcome {
    /// Nothing to purge: no request was or would be made.
    Nothing,
    /// Dry run: the body that would have been sent.
    DryRun(String),
    /// The provider accepted the purge.
    Purged,
    /// The provider rejected the purge: HTTP status and response body.
    Failed(u16, String),
}

/// The mathematical outcome.
pub enum OutcomeSpec {
    Nothing,
    DryRun(Seq<char>),
    Purged,
    Failed(u16, Seq<char>),
}

impl View for Outcome {
    type V = OutcomeSpec;

    open spec fn view(&self) -> OutcomeSpec {
        match self {
            Outcome::Nothing => OutcomeSpec::Nothing,
            Outcome::DryRun(b) => OutcomeSpec::DryRun(b@),
            Outcome::Purged => OutcomeSpec::Purged,
            Outcome::Failed(s, b) => OutcomeSpec::Failed(*s, b@),
        }
    }
}

/// One purge request, ready to send: where, with what authorization,
/// and with what body.
pub struct PurgeRequest {
    pub url: String,
    pub auth: String,
    pub body: String,
}

/// The mathematical request.
pub struct RequestSpec {
    pub url: Seq<char>,
    pub auth: Seq<char>,
    pub body: Seq<char>,
}

impl View for PurgeRequest {
    type V = RequestSpec;

    open spec fn view(&self) -> RequestSpec {
        RequestSpec { url: self.url@, auth: self.auth@, body: self.body@ }
    }
}

/// What a purge run should do: either it is already decided (nothing to
/// purge, or a dry run), or one request must be sent.
pub enum DispatchPlan {
    Done(Outcome),
    Send(PurgeRequest),
}

/// The mathematical plan.
pub enum PlanSpec {
    Done(OutcomeSpec),
    Send(RequestSpec),
}

impl View for DispatchPlan {
    type V = PlanSpec;

    open spec fn view(&self) -> PlanSpec {
        match self {
            DispatchPlan::Done(o) => PlanSpec::Done(o@),
            DispatchPlan::Send(r) => PlanSpec::Send(r@),
        }
    }
}

/// The provider's purge endpoint for a zone.
pub open spec fn purge_url_spec(zone: Seq<char>) -> Seq<char> {
    "https://api.cloudflare.com/client/v4/zones/"@ + zone + "/purge_cache"@
}

/// The value of the `Authorization` header.
pub open spec fn auth_header_spec(token: Seq<char>) -> Seq<char> {
    "Bearer "@ + token
}

/// What `dispatch` returns, for every decision, token, zone and dry-run
/// flag.
pub open spec fn dispatch_spec(
    d: DecisionSpec,
    token: Seq<char>,
    zone: Seq<char>,
    dry_run: bool,
) -> PlanSpec {
    if d matches DecisionSpec::Targeted(ts) && ts.len() == 0 {
        PlanSpec::Done(OutcomeSpec::Nothing)
    } else if dry_run {
        PlanSpec::Done(OutcomeSpec::DryRun(payload_body(d)))
    } else {
        PlanSpec::Send(
            RequestSpec {
                url: purge_url_spec(zone),
                auth: auth_header_spec(token),
                body: payload_body(d),
            },
        )
    }
}

/// Whether an HTTP status code reports success.
pub open spec fn is_success_status(status: u16) -> bool {
    200 <= status < 300
}

/// What the provider's response means: success below 300, a reported
/// (non-fatal) failure with status and body otherwise.
pub open spec fn response_outcome_spec(status: u16, body: Seq<char>) -> OutcomeSpec {
    if is_success_status(status) {
        OutcomeSpec::Purged
    } else {
        OutcomeSpec::Failed(status, body)
    }
}

/// Builds the purge endpoint URL for a zone.
pub fn purge_url(zone: &str) -> (u: String)
    ensures
        u@ == purge_url_spec(zone@),
{
    let mut u = String::from_str("https://api.cloudflare.com/client/v4/zones/");
    u.append(zone);
    u.append("/purge_cache");
    u
}

/// Builds the `Authorization` header value for a token.
pub fn auth_header(token: &str) -> (a: String)
    ensures
        a@ == auth_header_spec(token@),
{
    let mut a = String::from_str("Bearer ");
    a.append(token);
    a
}

/// Plans one purge run.
///
/// An empty targeted decision is a no-op, whatever `dry_run` says; a
/// dry run reports the exact body that would have been sent and asks
/// for no request; otherwise the returned request carries the endpoint
/// of the zone, the bearer authorization for the token, and the JSON
/// body of the decision.
pub fn dispatch(decision: &PurgeDecision, token: &str, zone: &str, dry_run: bool) -> (p:
    DispatchPlan)
    ensures
        p@ == dispatch_spec(decision@, token@, zone@, dry_run),
{
    let nothing = match decision {
        PurgeDecision::Targeted(ts) => ts.len() == 0,
        PurgeDecision::Full => false,
    };
    if nothing {
        DispatchPlan::Done(Outcome::Nothing)
    } else {
        let body = build_payload(decision);
        if dry_run {
            DispatchPlan::Done(Outcome::DryRun(body))
        } else {
            DispatchPlan::Send(
                PurgeRequest { url: purge_url(zone), auth: auth_header(token), body },
            )
        }
    }
}

/// Interprets the provider's HTTP response to a sent purge request.
pub fn interpret_response(status: u16, body: String) -> (o: Outcome)
    ensures
        o@ == response_outcome_spec(status, body@),
{
    if 200 <= status && status < 300 {
        Outcome::Purged
    } else {
        Outcome::Failed(status, body)
    }
}

} // verus!
