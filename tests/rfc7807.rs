use config_api::rfc7807::{problem_invalid_config, ProblemDetails};

#[test]
fn problem_details_without_detail() {
    let p = ProblemDetails::new("test-problem", "A test problem without detail", 418);
    assert_eq!(p.type_uri(), "/problem/test-problem");
    assert_eq!(p.title(), "A test problem without detail");
    assert_eq!(p.status(), 418);
    assert_eq!(p.detail(), None);
}

#[test]
fn problem_details_with_detail() {
    let p = ProblemDetails::new("test-problem", "A test problem", 418).with_detail("Test problem details");
    assert_eq!(p.type_uri(), "/problem/test-problem");
    assert_eq!(p.title(), "A test problem");
    assert_eq!(p.status(), 418);
    assert_eq!(p.detail(), Some("Test problem details"));
}

#[test]
fn invalid_config_problem() {
    let p = problem_invalid_config();
    assert_eq!(p.type_uri(), "/problem/config-invalid");
    assert_eq!(p.title(), "static configuration is invalid");
    assert_eq!(p.status(), 500);
    assert_eq!(p.detail(), None);
}
