use purge_cache_by_path::configure::{Configure, GitBinString, DEFAULT_GIT_BIN_PATH};
use purge_cache_by_path::dispatch::{DispatchPlan, Outcome};
use purge_cache_by_path::requester::{Requester, UrlFilePath};

fn config() -> Configure {
    Configure::new(
        GitBinString::new("/opt/git/bin/git".to_string()),
        "api-token".to_string(),
        "zone42".to_string(),
        "example.com".to_string(),
    )
}

#[test]
fn getters_return_the_configured_values() {
    let c = config();
    assert_eq!(c.get_git_bin(), "/opt/git/bin/git");
    assert_eq!(c.get_token(), "api-token");
    assert_eq!(c.get_zone(), "zone42");
    assert_eq!(c.get_domain(), "example.com");
}

#[test]
fn git_bin_defaults_to_the_system_path() {
    let g = GitBinString::default();
    assert_eq!(g.get_path(), DEFAULT_GIT_BIN_PATH);
    assert_eq!(g.get_path(), "/usr/bin/git");
}

#[test]
fn to_requester_uses_the_configured_domain() {
    let files = vec!["M content/posts/hello.md".to_string()];
    let r = config().to_requester(&files);
    match r.plan(true) {
        DispatchPlan::Done(Outcome::DryRun(b)) => {
            assert_eq!(b, "{\"files\":[\"example.com/posts\"]}");
        }
        _ => panic!("expected a dry-run outcome"),
    }
}

#[test]
fn requester_with_nothing_to_purge_plans_nothing() {
    let files = vec!["M .git/config".to_string()];
    let r = Requester::new("tok", "zone1", "example.com", &files);
    assert!(matches!(r.plan(false), DispatchPlan::Done(Outcome::Nothing)));
    assert!(matches!(r.plan(true), DispatchPlan::Done(Outcome::Nothing)));
}

#[test]
fn requester_sends_to_the_zone_endpoint() {
    let files = vec!["M static/img/a.png".to_string()];
    let r = Requester::new("tok", "zone9", "example.com", &files);
    match r.plan(false) {
        DispatchPlan::Send(req) => {
            assert_eq!(
                req.url,
                "https://api.cloudflare.com/client/v4/zones/zone9/purge_cache"
            );
            assert_eq!(req.auth, "Bearer tok");
            assert_eq!(req.body, "{\"files\":[\"example.com/img\"]}");
        }
        _ => panic!("expected a request to send"),
    }
}

#[test]
fn requester_full_purge_body() {
    let files = vec!["M vendor/lib.go".to_string()];
    let r = Requester::new("tok", "zone1", "example.com", &files);
    match r.plan(false) {
        DispatchPlan::Send(req) => {
            assert_eq!(req.body, "{\"purge_everything\":true}");
        }
        _ => panic!("expected a request to send"),
    }
}

#[test]
fn url_file_path_counts_its_targets() {
    let u = UrlFilePath::new(vec![
        "example.com/a".to_string(),
        "example.com/b".to_string(),
    ]);
    assert_eq!(u.len(), 2);
    assert_eq!(UrlFilePath::new(vec![]).len(), 0);
}
