use llm_manager::endpoints::{
    api_settings_changed, api_started_line, dashboard_enabled_line, dashboard_settings_changed, plan_api_endpoint,
    plan_service, tls_needs_reload, RunningApi, RunningDashboard,
};

#[test]
fn dashboard_line_encodes_the_key() {
    let line = dashboard_enabled_line("0.0.0.0", 8090, &Some("a b/é~".to_string()), true);
    assert_eq!(line, "Dashboard enabled: https://0.0.0.0:8090/dashboard?auth=a%20b%2F%C3%A9~");
    let line = dashboard_enabled_line("localhost", 80, &None, false);
    assert_eq!(line, "Dashboard enabled: http://localhost:80/dashboard");
}

#[test]
fn dashboard_changes_are_detected() {
    let running = RunningDashboard { port: Some(8090), auth: Some("k".to_string()), tls: Some(false) };
    assert!(!dashboard_settings_changed(&running, 8090, &Some("k".to_string()), false));
    assert!(dashboard_settings_changed(&running, 8091, &Some("k".to_string()), false));
    assert!(dashboard_settings_changed(&running, 8090, &None, false));
    assert!(dashboard_settings_changed(&running, 8090, &Some("k".to_string()), true));
    let stopped = RunningDashboard { port: None, auth: None, tls: None };
    assert!(dashboard_settings_changed(&stopped, 8090, &None, false));
}

#[test]
fn services_stop_and_start_with_the_settings() {
    assert_eq!(plan_service(true, false, false), (false, true));
    assert_eq!(plan_service(true, true, false), (false, false));
    assert_eq!(plan_service(true, true, true), (true, true));
    assert_eq!(plan_service(false, true, false), (true, false));
    assert_eq!(plan_service(false, false, true), (false, false));
}

#[test]
fn tls_files_are_read_again_when_they_change() {
    let c = Some("c.pem".to_string());
    let k = Some("k.pem".to_string());
    assert!(!tls_needs_reload(&c, &k, &c, &k));
    assert!(tls_needs_reload(&c, &k, &Some("old.pem".to_string()), &k));
    assert!(tls_needs_reload(&c, &None, &c, &k));
}

#[test]
fn api_endpoint_plan_and_line() {
    let running = RunningApi { port: Some(8081), server_port: Some(8080), model: Some("m".to_string()) };
    assert!(!api_settings_changed(&running, 8081, 8080, "m"));
    assert!(api_settings_changed(&running, 8081, 8080, "other"));
    assert_eq!(plan_api_endpoint(true, false, false, true), (false, false));
    assert_eq!(plan_api_endpoint(true, true, false, true), (false, true));
    assert_eq!(plan_api_endpoint(false, false, true, false), (true, false));
    assert_eq!(api_started_line("127.0.0.1", 8081, 0), "API endpoint started on 127.0.0.1:8081 (no model loaded yet)");
    assert_eq!(api_started_line("127.0.0.1", 8081, 8080), "API endpoint started on 127.0.0.1:8081");
}
