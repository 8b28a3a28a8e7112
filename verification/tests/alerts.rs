use webguard::alert::ssl_alerts;
use webguard::alert::uptime_alerts;
use webguard::model::AlertSeverity;
use webguard::ssl::SslCertInfo;
use webguard::uptime::uptime_result_from_response;

const EXPIRY: i64 = 1570705950;  // 2019-10-10T11:12:30Z

fn cert_with_days(days: i64, expired: bool) -> SslCertInfo {
    SslCertInfo {
        domain: String::from("example.com"),
        is_valid: !expired,
        issuer: String::from("CN=Some CA"),
        subject: String::from("CN=example.com"),
        valid_from: EXPIRY - 90 * 86400,
        valid_until: EXPIRY,
        is_expired: expired,
        days_until_expiry: days,
        is_self_signed: false,
        signature_algorithm: String::from("1.2.840.113549.1.1.11"),
        serial_number: String::from("1"),
    }
}

#[test]
fn test_expiring_soon_threshold() {
    // 29 days left: one expiring-soon alert.
    let alerts = ssl_alerts(7, "example.com", &cert_with_days(29, false));
    assert_eq!(alerts.len(), 1);
    assert_eq!(alerts[0].title, "SSL Certificate Expiring Soon");
    assert_eq!(
        alerts[0].description,
        "SSL certificate for example.com expires in 29 days (on 2019-10-10)"
    );
    assert_eq!(alerts[0].alert_type, "monitoring");
    assert!(matches!(alerts[0].severity, AlertSeverity::Warning));
    assert_eq!(alerts[0].domain_id, 7);

    // 30 days left: no alert.
    let alerts = ssl_alerts(7, "example.com", &cert_with_days(30, false));
    assert_eq!(alerts.len(), 0);
}

#[test]
fn test_expired_alert() {
    // A day past expiry: an expired alert, not an expiring-soon one.
    let alerts = ssl_alerts(7, "example.com", &cert_with_days(-1, true));
    assert_eq!(alerts.len(), 1);
    assert_eq!(alerts[0].title, "SSL Certificate Expired");
    assert_eq!(
        alerts[0].description,
        "SSL certificate for example.com expired on 2019-10-10"
    );
}

#[test]
fn test_slow_response_threshold() {
    let slow = uptime_result_from_response(
        String::from("example.com"),
        String::from("https://example.com/"),
        200,
        3001,
        1_700_000_000,
    );
    // One millisecond over the threshold: exactly one slow alert.
    let alerts = uptime_alerts(7, "example.com", &slow, 3000);
    assert_eq!(alerts.len(), 1);
    assert_eq!(alerts[0].title, "Slow Response Time");
    assert_eq!(
        alerts[0].description,
        "Website example.com is slow. Response time: 3001ms"
    );

    // Exactly at the threshold: no alert.
    let at_threshold = uptime_result_from_response(
        String::from("example.com"),
        String::from("https://example.com/"),
        200,
        3000,
        1_700_000_000,
    );
    let alerts = uptime_alerts(7, "example.com", &at_threshold, 3000);
    assert_eq!(alerts.len(), 0);
}

#[test]
fn test_down_alert_with_status() {
    // An HTTP 503 response: down, with the status code in the description.
    let result = uptime_result_from_response(
        String::from("example.com"),
        String::from("https://example.com/"),
        503,
        75,
        1_700_000_000,
    );
    assert!(!result.is_up);
    let alerts = uptime_alerts(7, "example.com", &result, 3000);
    assert_eq!(alerts.len(), 1);
    assert_eq!(alerts[0].title, "Website Down");
    assert_eq!(
        alerts[0].description,
        "Website example.com is down. Status: 503. Error: Unknown error"
    );
    assert!(alerts[0].description.contains("503"));
}

#[test]
fn test_down_and_slow_together() {
    let result = uptime_result_from_response(
        String::from("example.com"),
        String::from("https://example.com/"),
        503,
        5000,
        1_700_000_000,
    );
    let alerts = uptime_alerts(7, "example.com", &result, 3000);
    assert_eq!(alerts.len(), 2);
    assert_eq!(alerts[0].title, "Website Down");
    assert_eq!(alerts[1].title, "Slow Response Time");
}
