use sregame::endpoint::{normalize_endpoint, resolve_endpoint};
use sregame::lifecycle::{
    Action, Lifecycle, LifecycleState, TelemetryMode, METRIC_EXPORT_INTERVAL_SECS, SERVICE_NAME,
    SHUTDOWN_GRACE_SECS,
};

#[test]
fn endpoint_without_scheme_gets_http() {
    assert_eq!(normalize_endpoint("127.0.0.1:4317"), "http://127.0.0.1:4317");
    assert_eq!(normalize_endpoint("collector:4317"), "http://collector:4317");
    assert_eq!(normalize_endpoint(""), "http://");
    assert_eq!(normalize_endpoint("httpx://a"), "http://httpx://a");
}

#[test]
fn endpoint_with_scheme_is_kept() {
    assert_eq!(normalize_endpoint("http://127.0.0.1:4317"), "http://127.0.0.1:4317");
    assert_eq!(normalize_endpoint("https://otel.example:4317"), "https://otel.example:4317");
}

#[test]
fn normalizing_twice_changes_nothing() {
    for e in ["a:1", "http://a:1", "https://a:1", "", "ftp://x"] {
        let once = normalize_endpoint(e);
        assert_eq!(normalize_endpoint(&once), once);
    }
}

#[test]
fn flag_takes_precedence_over_environment() {
    let r = resolve_endpoint(Some("flag:1".to_string()), Some("env:2".to_string()));
    assert_eq!(r, Some("http://flag:1".to_string()));
    let r = resolve_endpoint(None, Some("https://env:2".to_string()));
    assert_eq!(r, Some("https://env:2".to_string()));
    let r = resolve_endpoint(Some("http://flag:1".to_string()), None);
    assert_eq!(r, Some("http://flag:1".to_string()));
}

#[test]
fn no_flag_and_no_environment_is_no_endpoint() {
    assert_eq!(resolve_endpoint(None, None), None);
}

#[test]
fn constants_of_the_pipeline() {
    assert_eq!(SERVICE_NAME, "sregame");
    assert_eq!(METRIC_EXPORT_INTERVAL_SECS, 10);
    assert_eq!(SHUTDOWN_GRACE_SECS, 2);
}

#[test]
fn unset_endpoint_disables_telemetry_without_crash() {
    let endpoint = resolve_endpoint(None, None);
    let mut l = Lifecycle::new(endpoint.is_some());
    assert_eq!(l.state(), LifecycleState::Uninitialized);
    assert_eq!(l.action(), Action::Start);
    assert!(l.start());
    assert_eq!(l.state(), LifecycleState::Initializing);
    assert_eq!(l.action(), Action::AttachConsoleLogging);
    assert_eq!(l.complete(true), Action::Run);
    assert_eq!(l.state(), LifecycleState::Active);
    assert_eq!(l.mode(), TelemetryMode::Disabled);
    assert!(l.request_exit());
    assert_eq!(l.action(), Action::Finished);
    assert_eq!(l.state(), LifecycleState::Closed);
    assert_eq!(l.failures(), 0);
}

#[test]
fn full_start_up_and_shutdown_in_order() {
    let mut l = Lifecycle::new(true);
    assert!(l.start());
    assert_eq!(l.action(), Action::BuildLogPipeline);
    assert_eq!(l.complete(true), Action::BuildInstrumentation);
    assert_eq!(l.state(), LifecycleState::Initializing);
    assert_eq!(l.complete(true), Action::Run);
    assert_eq!(l.mode(), TelemetryMode::Full);
    assert!(l.set_session(true));
    assert!(l.request_exit());
    assert_eq!(l.state(), LifecycleState::ShuttingDown);
    assert_eq!(l.action(), Action::EndSession);
    assert_eq!(l.complete(true), Action::ShutdownTracer);
    assert_eq!(l.complete(true), Action::ShutdownMeter);
    assert_eq!(l.complete(true), Action::ShutdownLogger);
    assert_eq!(l.complete(true), Action::WaitGrace);
    assert_eq!(l.state(), LifecycleState::ShuttingDown);
    assert_eq!(l.complete(true), Action::Finished);
    assert_eq!(l.state(), LifecycleState::Closed);
    assert_eq!(l.failures(), 0);
    assert_eq!(l.complete(true), Action::Finished);
}

#[test]
fn failed_log_pipeline_falls_back_to_console() {
    let mut l = Lifecycle::new(true);
    l.start();
    assert_eq!(l.complete(false), Action::AttachConsoleLogging);
    assert_eq!(l.complete(true), Action::Run);
    assert_eq!(l.mode(), TelemetryMode::Disabled);
    assert!(l.request_exit());
    assert_eq!(l.state(), LifecycleState::Closed);
}

#[test]
fn failed_instrumentation_keeps_logs_only() {
    let mut l = Lifecycle::new(true);
    l.start();
    assert_eq!(l.complete(true), Action::BuildInstrumentation);
    assert_eq!(l.complete(false), Action::Run);
    assert_eq!(l.mode(), TelemetryMode::LogsOnly);
    assert!(l.request_exit());
    assert_eq!(l.action(), Action::ShutdownLogger);
    assert_eq!(l.complete(true), Action::WaitGrace);
    assert_eq!(l.complete(true), Action::Finished);
}

#[test]
fn shutdown_goes_on_after_failures() {
    let mut l = Lifecycle::new(true);
    l.start();
    l.complete(true);
    l.complete(true);
    l.request_exit();
    assert_eq!(l.action(), Action::ShutdownTracer);
    assert_eq!(l.complete(false), Action::ShutdownMeter);
    assert_eq!(l.complete(false), Action::ShutdownLogger);
    assert_eq!(l.complete(false), Action::WaitGrace);
    assert_eq!(l.failures(), 3);
    assert_eq!(l.complete(false), Action::Finished);
    assert_eq!(l.failures(), 3);
    assert_eq!(l.state(), LifecycleState::Closed);
}

#[test]
fn calls_out_of_turn_change_nothing() {
    let mut l = Lifecycle::new(true);
    assert!(!l.request_exit());
    assert!(!l.set_session(true));
    assert_eq!(l.complete(true), Action::Start);
    assert_eq!(l.state(), LifecycleState::Uninitialized);
    assert!(l.start());
    assert!(!l.start());
    assert_eq!(l.action(), Action::BuildLogPipeline);
    assert!(!l.request_exit());
    l.complete(true);
    l.complete(true);
    assert_eq!(l.complete(true), Action::Run);
    assert_eq!(l.complete(false), Action::Run);
}
