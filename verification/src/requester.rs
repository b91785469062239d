//! The requester: one classified purge run, bound to its credentials.
//!
//! `Requester::new` classifies the change records against the domain and
//! keeps the resulting decision together with the token and zone it will
//! be sent with; `plan` then produces the dispatch plan for a given
//! dry-run flag, exactly as `dispatch` would for the same decision.

use crate::classify::{classify, classify_spec, DecisionSpec, PurgeDecision};
use crate::dispatch::{
    auth_header, dispatch_spec, purge_url, DispatchPlan, Outcome, PurgeRequest,
};
use crate::payload::{build_files_body, build_full_body};
use vstd::prelude::*;

verus! {

/// The target list of a purge request body.
pub struct UrlFilePath {
    files: Vec<String>,
}

impl View for UrlFilePath {
    type V = Seq<Seq<char>>;

    closed spec fn view(&self) -> Seq<Seq<char>> {
        self.files.deep_view()
    }
}

impl UrlFilePath {
    /// Wraps a target list.
    pub fn new(files: Vec<String>) -> (u: Self)
        ensures
            u@ == files.deep_view(),
    {
        UrlFilePath { files }
    }

    /// How many purge targets the request will carry.
    pub fn len(&self) -> (n: usize)
        ensures
            n == self@.len(),
    {
        self.files.len()
    }
}

/// One purge run: the credentials and the classified decision.
pub struct Requester {
    token: String,
    zone: String,
    urls: UrlFilePath,
    purge_all: bool,
}

/// The mathematical requester: what it will send, where, and as whom.
pub struct RequesterSpec {
    pub token: Seq<char>,
    pub zone: Seq<char>,
    pub decision: DecisionSpec,
}

impl View for Requester {
    type V = RequesterSpec;

    closed spec fn view(&self) -> RequesterSpec {
        RequesterSpec {
            token: self.token@,
            zone: self.zone@,
            decision: if self.purge_all {
                DecisionSpec::Full
            } else {
                DecisionSpec::Targeted(self.urls@)
            },
        }
    }
}

impl Requester {
    /// Classifies the change records and binds the result to the token
    /// and zone it will be dispatched with.
    pub fn new(token: &str, zone: &str, domain: &str, files: &Vec<String>) -> (r: Self)
        ensures
            r@.token == token@,
            r@.zone == zone@,
            r@.decision == classify_spec(files.deep_view(), domain@),
    {
        match classify(files, domain) {
            PurgeDecision::Full => Requester {
                token: token.to_owned(),
                zone: zone.to_owned(),
                urls: UrlFilePath { files: Vec::new() },
                purge_all: true,
            },
            PurgeDecision::Targeted(v) => Requester {
                token: token.to_owned(),
                zone: zone.to_owned(),
                urls: UrlFilePath { files: v },
                purge_all: false,
            },
        }
    }

    /// Plans this requester's purge run: the same plan `dispatch` gives
    /// for its decision, token and zone.
    pub fn plan(&self, dry_run: bool) -> (p: DispatchPlan)
        ensures
            p@ == dispatch_spec(self@.decision, self@.token, self@.zone, dry_run),
    {
        if !self.purge_all && self.urls.len() == 0 {
            DispatchPlan::Done(Outcome::Nothing)
        } else {
            let body = if self.purge_all {
                build_full_body()
            } else {
                build_files_body(&self.urls.files)
            };
            if dry_run {
                DispatchPlan::Done(Outcome::DryRun(body))
            } else {
                DispatchPlan::Send(
                    PurgeRequest {
                        url: purge_url(self.zone.as_str()),
                        auth: auth_header(self.token.as_str()),
                        body,
                    },
                )
            }
        }
    }
}

} // verus!
