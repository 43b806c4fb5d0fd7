use poem_casbin_auth::{plan_request, CasbinVals, Evaluation, Outcome, RequestPlan};
use poem_casbin_auth::outcome::{outcome_for, terminal_status};

#[test]
fn new_keeps_fields() {
    let v = CasbinVals::new(String::from("alice"), Some(String::from("domain1")));
    assert_eq!(v.subject, "alice");
    assert_eq!(v.domain, Some(String::from("domain1")));

    let w = CasbinVals::new(String::from("bob"), None);
    assert_eq!(w.subject, "bob");
    assert_eq!(w.domain, None);
}

#[test]
fn missing_identity_is_rejected() {
    let p = plan_request(&None, "/pen/1", "GET");
    assert!(matches!(p, RequestPlan::Reject));
}

#[test]
fn empty_subject_is_rejected_with_domain() {
    let vals = CasbinVals::new(String::new(), Some(String::from("domain1")));
    let p = plan_request(&Some(vals), "/pen/1", "GET");
    assert!(matches!(p, RequestPlan::Reject));
}

#[test]
fn empty_subject_is_rejected_without_domain() {
    let vals = CasbinVals::new(String::new(), None);
    let p = plan_request(&Some(vals), "/pen/1", "GET");
    assert!(matches!(p, RequestPlan::Reject));
}

#[test]
fn query_has_four_positions_with_domain() {
    let vals = CasbinVals::new(String::from("alice"), Some(String::from("domain1")));
    match plan_request(&Some(vals), "/pen/1", "GET") {
        RequestPlan::Evaluate(q) => {
            assert_eq!(q, vec!["alice", "domain1", "/pen/1", "GET"]);
        }
        RequestPlan::Reject => panic!("an authenticated caller must be evaluated"),
    }
}

#[test]
fn query_has_three_positions_without_domain() {
    let vals = CasbinVals::new(String::from("alice"), None);
    match plan_request(&Some(vals), "/book/2", "POST") {
        RequestPlan::Evaluate(q) => {
            assert_eq!(q, vec!["alice", "/book/2", "POST"]);
        }
        RequestPlan::Reject => panic!("an authenticated caller must be evaluated"),
    }
}

#[test]
fn path_and_action_are_taken_verbatim() {
    let vals = CasbinVals::new(String::from("alice"), None);
    match plan_request(&Some(vals), "/a%20b/./x", "PATCH") {
        RequestPlan::Evaluate(q) => {
            assert_eq!(q, vec!["alice", "/a%20b/./x", "PATCH"]);
        }
        RequestPlan::Reject => panic!("an authenticated caller must be evaluated"),
    }
}

#[test]
fn outcome_mapping_is_exact() {
    assert_eq!(outcome_for(&Evaluation::Allowed), Outcome::Proceed);
    assert_eq!(outcome_for(&Evaluation::Denied), Outcome::Forbidden);
    assert_eq!(outcome_for(&Evaluation::Failed), Outcome::BadGateway);
}

#[test]
fn terminal_statuses() {
    assert_eq!(terminal_status(&Outcome::Unauthorized), Some(401));
    assert_eq!(terminal_status(&Outcome::Forbidden), Some(403));
    assert_eq!(terminal_status(&Outcome::BadGateway), Some(502));
    assert_eq!(terminal_status(&Outcome::Proceed), None);
}
