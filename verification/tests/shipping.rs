use slipway_registry::shipping::{shipping_settings, startup_notice};

fn given(value: &str) -> Option<String> {
    Some(String::from(value))
}

#[test]
fn settings_from_all_values() {
    let settings = shipping_settings(
        given("https://logs.example.net"),
        given("123456"),
        given("key"),
        given("machine-1"),
        given("ams"),
    )
    .unwrap();

    assert_eq!(settings.endpoint, "https://logs.example.net");
    assert_eq!(settings.authorization, "Bearer 123456:key");
    assert_eq!(settings.instance, "machine-1");
    assert_eq!(settings.region, "ams");
}

#[test]
fn machine_and_region_default_to_unknown() {
    let settings = shipping_settings(
        given("https://logs.example.net"),
        given("123456"),
        given("key"),
        None,
        None,
    )
    .unwrap();

    assert_eq!(settings.instance, "unknown");
    assert_eq!(settings.region, "unknown");
}

#[test]
fn no_settings_without_endpoint_account_or_key() {
    assert!(shipping_settings(None, given("1"), given("k"), given("m"), given("r")).is_none());
    assert!(shipping_settings(given("u"), None, given("k"), given("m"), given("r")).is_none());
    assert!(shipping_settings(given("u"), given("1"), None, given("m"), given("r")).is_none());
    assert!(shipping_settings(None, None, None, None, None).is_none());
}

#[test]
fn startup_notice_tells_whether_logs_are_shipped() {
    assert_eq!(startup_notice(true), "Initializing Grafana Cloud logging");
    assert_eq!(startup_notice(false), "Grafana Cloud logging not configured");
}
