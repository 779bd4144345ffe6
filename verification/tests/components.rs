use slipway_registry::components::{redirect_to_github, Outcome};

/// What the router hands over for a request path: the part between
/// `/components/` and `.tar`.
fn reference_in(path: &str) -> &str {
    path.strip_prefix("/components/")
        .and_then(|rest| rest.strip_suffix(".tar"))
        .unwrap()
}

#[test]
fn test_redirect_valid_reference() {
    let handled = redirect_to_github(reference_in(
        "/components/test_publisher.component.1.0.0.tar",
    ));

    assert_eq!(handled.reply.status, 302);

    let location = handled.reply.location.unwrap();

    assert_eq!(
        location,
        "https://github.com/test-publisher/slipway_component/releases/download/1.0.0/test_publisher.component.1.0.0.tar"
    );
}

#[test]
fn test_redirect_valid_reference_with_namespace() {
    let handled = redirect_to_github(reference_in(
        "/components/test_publisher.component__sub_component.1.0.0.tar",
    ));

    assert_eq!(handled.reply.status, 302);

    let location = handled.reply.location.unwrap();

    assert_eq!(
        location,
        "https://github.com/test-publisher/slipway_component/releases/download/1.0.0/test_publisher.component__sub_component.1.0.0.tar"
    );
}

#[test]
fn test_invalid_reference_format() {
    let handled = redirect_to_github(reference_in("/components/invalid-format.tar"));

    assert_eq!(handled.reply.status, 400);
}

#[test]
fn invalid_reference_reply_states_expected_format() {
    let handled = redirect_to_github("invalid-format");

    assert_eq!(handled.reply.location, None);
    assert!(handled.reply.body.contains("Invalid filename format"));
    assert_eq!(
        handled.reply.body,
        "Invalid filename format. Expected format: <publisher>.<name>.<version>.tar"
    );
}

#[test]
fn redirect_has_no_body() {
    let handled = redirect_to_github("test_publisher.component.1.0.0");

    assert_eq!(handled.reply.body, "");
}

#[test]
fn success_reports_fields_for_counting() {
    let handled = redirect_to_github("test_publisher.component__sub_component.1.0.0");

    assert_eq!(handled.outcome, Outcome::Success);
    assert_eq!(handled.outcome.label(), "success");
    let resolution = handled.resolution.unwrap();
    assert_eq!(resolution.reference.publisher(), "test_publisher");
    assert_eq!(resolution.reference.name(), "component__sub_component");
    assert_eq!(resolution.reference.version(), "1.0.0");
    assert_eq!(Some(resolution.target), handled.reply.location);
}

#[test]
fn success_log_line_names_target() {
    let handled = redirect_to_github("test_publisher.component.1.0.0");

    assert_eq!(
        handled.log_line,
        "Component download request redirected to: https://github.com/test-publisher/slipway_component/releases/download/1.0.0/test_publisher.component.1.0.0.tar"
    );
}

#[test]
fn failure_reports_invalid_format() {
    let handled = redirect_to_github("invalid-format");

    assert_eq!(handled.outcome, Outcome::InvalidFormat);
    assert_eq!(handled.outcome.label(), "invalid_format");
    assert!(handled.resolution.is_none());
}

#[test]
fn failure_log_line_names_rejected_input() {
    let handled = redirect_to_github("invalid-format");

    assert_eq!(
        handled.log_line,
        "Received invalid filename in component download request: invalid-format"
    );
}
