use purge_cache_by_path::classify::PurgeDecision;
use purge_cache_by_path::dispatch::{
    dispatch, interpret_response, DispatchPlan, Outcome, PurgeRequest,
};
use purge_cache_by_path::payload::build_payload;

fn one_target() -> PurgeDecision {
    PurgeDecision::Targeted(vec!["example.com/posts".to_string()])
}

fn dry_run_body(d: &PurgeDecision) -> String {
    match dispatch(d, "tok", "zone1", true) {
        DispatchPlan::Done(Outcome::DryRun(b)) => b,
        _ => panic!("expected a dry-run outcome"),
    }
}

fn sent(d: &PurgeDecision, token: &str, zone: &str) -> PurgeRequest {
    match dispatch(d, token, zone, false) {
        DispatchPlan::Send(r) => r,
        _ => panic!("expected a request to send"),
    }
}

#[test]
fn empty_targeted_is_no_op_when_live() {
    let d = PurgeDecision::Targeted(vec![]);
    assert!(matches!(
        dispatch(&d, "tok", "zone1", false),
        DispatchPlan::Done(Outcome::Nothing)
    ));
}

#[test]
fn empty_targeted_is_no_op_when_dry() {
    let d = PurgeDecision::Targeted(vec![]);
    assert!(matches!(
        dispatch(&d, "tok", "zone1", true),
        DispatchPlan::Done(Outcome::Nothing)
    ));
}

#[test]
fn dry_run_reports_files_body() {
    assert_eq!(
        dry_run_body(&one_target()),
        "{\"files\":[\"example.com/posts\"]}"
    );
}

#[test]
fn dry_run_is_idempotent() {
    let d = one_target();
    let first = dry_run_body(&d);
    let second = dry_run_body(&d);
    assert_eq!(first, second);
}

#[test]
fn dry_run_reports_full_body() {
    assert_eq!(
        dry_run_body(&PurgeDecision::Full),
        "{\"purge_everything\":true}"
    );
}

#[test]
fn live_run_builds_the_request() {
    let r = sent(&one_target(), "secret-token", "zone123");
    assert_eq!(
        r.url,
        "https://api.cloudflare.com/client/v4/zones/zone123/purge_cache"
    );
    assert_eq!(r.auth, "Bearer secret-token");
    assert_eq!(r.body, "{\"files\":[\"example.com/posts\"]}");
}

#[test]
fn live_full_purge_builds_the_request() {
    let r = sent(&PurgeDecision::Full, "t", "z");
    assert_eq!(r.url, "https://api.cloudflare.com/client/v4/zones/z/purge_cache");
    assert_eq!(r.body, "{\"purge_everything\":true}");
}

#[test]
fn payload_keeps_target_order_and_duplicates() {
    let d = PurgeDecision::Targeted(vec![
        "example.com/a".to_string(),
        "example.com/b".to_string(),
        "example.com/a".to_string(),
    ]);
    assert_eq!(
        build_payload(&d),
        "{\"files\":[\"example.com/a\",\"example.com/b\",\"example.com/a\"]}"
    );
}

#[test]
fn payload_escapes_quotes_and_backslashes() {
    let d = PurgeDecision::Targeted(vec!["a\"b\\c".to_string()]);
    assert_eq!(build_payload(&d), "{\"files\":[\"a\\\"b\\\\c\"]}");
}

#[test]
fn payload_escapes_control_characters() {
    let d = PurgeDecision::Targeted(vec!["x\u{1f}y\ttab".to_string()]);
    assert_eq!(build_payload(&d), "{\"files\":[\"x\\u001fy\\u0009tab\"]}");
}

#[test]
fn rejected_purge_is_reported_not_raised() {
    let r = sent(&one_target(), "tok", "zone1");
    assert!(!r.body.is_empty());
    let outcome = interpret_response(403, "{\"success\":false}".to_string());
    match outcome {
        Outcome::Failed(status, body) => {
            assert_eq!(status, 403);
            assert_eq!(body, "{\"success\":false}");
        }
        _ => panic!("expected a reported failure"),
    }
}

#[test]
fn successful_statuses_mean_purged() {
    assert!(matches!(
        interpret_response(200, String::new()),
        Outcome::Purged
    ));
    assert!(matches!(
        interpret_response(204, String::new()),
        Outcome::Purged
    ));
    assert!(matches!(
        interpret_response(299, String::new()),
        Outcome::Purged
    ));
}

#[test]
fn non_success_statuses_mean_failure() {
    assert!(matches!(
        interpret_response(199, String::new()),
        Outcome::Failed(199, _)
    ));
    assert!(matches!(
        interpret_response(300, String::new()),
        Outcome::Failed(300, _)
    ));
    assert!(matches!(
        interpret_response(500, String::new()),
        Outcome::Failed(500, _)
    ));
}
