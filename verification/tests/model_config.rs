use webguard::config::Config;
use webguard::error::AppError;
use webguard::model::parse_monitor_type;
use webguard::model::parse_role;
use webguard::model::AggregatePeriod;
use webguard::model::AlertSeverity;
use webguard::model::MemberRole;
use webguard::model::MonitorType;
use webguard::model::TaskStatus;
use webguard::requests::default_hours;
use webguard::requests::default_interval_minutes;
use webguard::requests::default_period;
use webguard::requests::CreateDomainRequest;

#[test]
fn test_error_display() {
    let err = AppError::validation("Invalid input");
    assert_eq!(err.display_message(), "Validation error: Invalid input");
}

#[test]
fn test_error_helpers() {
    let err = AppError::auth("Invalid token");
    assert!(matches!(err, AppError::Auth(_)));

    let err = AppError::not_found("User not found");
    assert!(matches!(err, AppError::NotFound(_)));
}

#[test]
fn test_error_detail_mapping() {
    let (status, detail) = AppError::external("upstream unreachable").to_error_detail();
    assert_eq!(status, 503);
    assert_eq!(detail.code, "EXTERNAL_SERVICE_ERROR");
    assert_eq!(detail.message, "upstream unreachable");
    assert!(detail.details.is_none());

    let (status, detail) = AppError::database("row not found").to_error_detail();
    assert_eq!(status, 500);
    assert_eq!(detail.code, "DATABASE_ERROR");
    assert_eq!(detail.message, "A database error occurred");
    assert_eq!(detail.display_message(), "[DATABASE_ERROR] A database error occurred");
    let pairs = detail.details.expect("database errors carry details");
    assert_eq!(pairs.len(), 1);
    assert_eq!(pairs[0].0, "error");
    assert_eq!(pairs[0].1, "row not found");
}

#[test]
fn test_error_statuses() {
    assert_eq!(AppError::auth("x").to_error_detail().0, 401);
    assert_eq!(AppError::authorization("x").to_error_detail().0, 403);
    assert_eq!(AppError::validation("x").to_error_detail().0, 400);
    assert_eq!(AppError::not_found("x").to_error_detail().0, 404);
    assert_eq!(AppError::task("x").to_error_detail().0, 500);
    assert_eq!(AppError::monitoring("x").to_error_detail().0, 500);
    assert_eq!(AppError::internal("x").to_error_detail().0, 500);
    let (_, detail) = AppError::task("queue stuck").to_error_detail();
    assert_eq!(detail.code, "TASK_ERROR");
    let (_, detail) = AppError::monitoring("probe wedged").to_error_detail();
    assert_eq!(detail.code, "MONITORING_ERROR");
    assert_eq!(
        AppError::monitoring("probe wedged").display_message(),
        "Monitoring error: probe wedged"
    );
}

#[test]
fn test_uptime_error_display() {
    let err = webguard::uptime::UptimeError::RequestFailed(String::from("timed out"));
    assert_eq!(err.display_message(), "Request failed: timed out");
    let err = webguard::uptime::UptimeError::InvalidUrl(String::from("no host"));
    assert_eq!(err.display_message(), "Invalid URL: no host");
}

#[test]
fn test_roles() {
    assert!(MemberRole::Owner.is_admin());
    assert!(MemberRole::Admin.is_admin());
    assert!(!MemberRole::Member.is_admin());
    assert!(!MemberRole::Viewer.is_admin());
    assert!(MemberRole::Owner.can_write());
    assert!(MemberRole::Admin.can_write());
    assert!(MemberRole::Member.can_write());
    assert!(!MemberRole::Viewer.can_write());
    assert_eq!(MemberRole::Viewer.role_name(), "viewer");
}

#[test]
fn test_parse_role_case_insensitive() {
    assert!(matches!(parse_role("owner"), Ok(MemberRole::Owner)));
    assert!(matches!(parse_role("Admin"), Ok(MemberRole::Admin)));
    assert!(matches!(parse_role("MEMBER"), Ok(MemberRole::Member)));
    let err = parse_role("boss").expect_err("unknown role must be rejected");
    assert_eq!(err, "Invalid role: boss");
}

#[test]
fn test_parse_monitor_type_names() {
    assert!(matches!(parse_monitor_type("ssl_cert"), Ok(MonitorType::SslCert)));
    assert!(matches!(parse_monitor_type("uptime"), Ok(MonitorType::Uptime)));
    assert!(matches!(parse_monitor_type("domain_dns"), Ok(MonitorType::DomainDns)));
    assert!(matches!(
        parse_monitor_type("security_headers"),
        Ok(MonitorType::SecurityHeaders)
    ));
    let err = parse_monitor_type("Uptime").expect_err("names are case-sensitive");
    assert_eq!(err, "Invalid monitor type: Uptime");
    assert_eq!(MonitorType::SslCert.kind_name(), "ssl_cert");
    assert_eq!(TaskStatus::Pending.status_name(), "pending");
    assert_eq!(AggregatePeriod::Week.period_name(), "week");
    assert_eq!(AlertSeverity::Warning.severity_name(), "warning");
}

#[test]
fn test_config_defaults() {
    let config = Config::builtin_defaults();
    assert_eq!(config.database.url, "postgresql://localhost:5432/webguard");
    assert_eq!(config.database.max_connections, 20);
    assert_eq!(config.server.port, 9001);
    assert_eq!(config.workers.pool_size, 10);
    assert_eq!(config.auth.access_token_duration, 900);
    assert_eq!(config.auth.refresh_token_duration, 604800);
    assert_eq!(config.auth.bcrypt_rounds, 12);
    assert_eq!(config.monitoring.max_concurrent_checks, 50);
    assert_eq!(config.monitoring.slow_threshold_ms, 3000);
    assert_eq!(config.monitoring.uptime_frequency_presets, vec![60, 300, 600, 1800]);
    assert_eq!(config.database_url(), "postgresql://localhost:5432/webguard");
    assert_eq!(config.server_address(), "0.0.0.0:9001");
}

#[test]
fn test_request_defaults_and_validation() {
    assert_eq!(default_hours(), 24);
    assert_eq!(default_interval_minutes(), 30);
    assert_eq!(default_period(), "week");

    let good = CreateDomainRequest {
        display_name: String::from("My Site"),
        url: String::from("https://example.com"),
    };
    assert!(good.is_valid());
    let empty_name = CreateDomainRequest {
        display_name: String::new(),
        url: String::from("https://example.com"),
    };
    assert!(!empty_name.is_valid());
    let long_name = CreateDomainRequest {
        display_name: "x".repeat(256),
        url: String::from("https://example.com"),
    };
    assert!(!long_name.is_valid());
}
