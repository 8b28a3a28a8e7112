use webguard::ssl::cert_info_from_der;
use webguard::ssl::is_cert_expiring_soon;
use webguard::ssl::ssl_target;
use webguard::uptime::build_probe_url;
use webguard::uptime::normalize_uptime_target;
use webguard::uptime::uptime_result_from_response;
use webguard::uptime::uptime_result_from_transport_failure;
use webguard::error::AppError;

fn leaf_certificate_der() -> Vec<u8> {
    vec![
        48, 130, 5, 91, 48, 130, 4, 67, 160, 3, 2, 1, 2, 2, 18, 3, 32, 72, 3, 11,
        187, 52, 16, 249, 9, 60, 87, 242, 203, 131, 8, 200, 5, 48, 13, 6, 9, 42, 134, 72,
        134, 247, 13, 1, 1, 11, 5, 0, 48, 74, 49, 11, 48, 9, 6, 3, 85, 4, 6, 19,
        2, 85, 83, 49, 22, 48, 20, 6, 3, 85, 4, 10, 19, 13, 76, 101, 116, 39, 115, 32,
        69, 110, 99, 114, 121, 112, 116, 49, 35, 48, 33, 6, 3, 85, 4, 3, 19, 26, 76, 101,
        116, 39, 115, 32, 69, 110, 99, 114, 121, 112, 116, 32, 65, 117, 116, 104, 111, 114, 105, 116,
        121, 32, 88, 51, 48, 30, 23, 13, 49, 57, 48, 55, 49, 50, 49, 49, 49, 50, 51, 48,
        90, 23, 13, 49, 57, 49, 48, 49, 48, 49, 49, 49, 50, 51, 48, 90, 48, 29, 49, 27,
        48, 25, 6, 3, 85, 4, 3, 19, 18, 108, 105, 115, 116, 115, 46, 102, 111, 114, 45, 111,
        117, 114, 46, 105, 110, 102, 111, 48, 130, 1, 34, 48, 13, 6, 9, 42, 134, 72, 134, 247,
        13, 1, 1, 1, 5, 0, 3, 130, 1, 15, 0, 48, 130, 1, 10, 2, 130, 1, 1, 0,
        197, 104, 182, 45, 248, 95, 142, 131, 104, 141, 167, 95, 110, 2, 249, 166, 118, 57, 249, 38,
        132, 166, 226, 118, 37, 226, 69, 58, 39, 212, 194, 210, 48, 105, 117, 160, 213, 189, 51, 36,
        114, 97, 128, 179, 63, 136, 250, 12, 210, 130, 132, 153, 235, 241, 153, 213, 74, 24, 118, 161,
        144, 254, 200, 117, 143, 246, 90, 103, 92, 193, 164, 110, 197, 49, 122, 52, 76, 83, 216, 103,
        104, 0, 121, 210, 149, 209, 32, 48, 51, 106, 249, 21, 20, 40, 46, 22, 82, 124, 156, 169,
        47, 253, 141, 64, 190, 92, 59, 181, 205, 154, 100, 231, 119, 148, 230, 65, 18, 191, 32, 39,
        201, 145, 12, 106, 170, 176, 213, 62, 103, 93, 136, 234, 201, 68, 178, 220, 198, 50, 155, 42,
        232, 7, 176, 9, 92, 56, 148, 200, 221, 89, 104, 46, 131, 53, 43, 197, 4, 209, 2, 193,
        188, 238, 137, 250, 128, 232, 144, 31, 103, 12, 56, 51, 119, 47, 177, 106, 224, 163, 139, 64,
        136, 219, 223, 249, 110, 66, 16, 16, 134, 151, 74, 152, 65, 133, 46, 41, 247, 115, 231, 249,
        162, 189, 237, 132, 32, 238, 195, 0, 237, 57, 77, 101, 101, 255, 188, 183, 212, 188, 165, 147,
        203, 173, 154, 200, 179, 161, 246, 198, 53, 234, 9, 27, 148, 99, 184, 145, 53, 179, 181, 241,
        73, 28, 234, 185, 67, 98, 16, 99, 244, 180, 254, 114, 153, 129, 108, 113, 2, 3, 1, 0,
        1, 163, 130, 2, 102, 48, 130, 2, 98, 48, 14, 6, 3, 85, 29, 15, 1, 1, 255, 4,
        4, 3, 2, 5, 160, 48, 29, 6, 3, 85, 29, 37, 4, 22, 48, 20, 6, 8, 43, 6,
        1, 5, 5, 7, 3, 1, 6, 8, 43, 6, 1, 5, 5, 7, 3, 2, 48, 12, 6, 3,
        85, 29, 19, 1, 1, 255, 4, 2, 48, 0, 48, 29, 6, 3, 85, 29, 14, 4, 22, 4,
        20, 38, 61, 169, 189, 27, 101, 220, 105, 104, 31, 113, 222, 232, 85, 245, 118, 205, 215, 209,
        81, 48, 31, 6, 3, 85, 29, 35, 4, 24, 48, 22, 128, 20, 168, 74, 106, 99, 4, 125,
        221, 186, 230, 209, 57, 183, 166, 69, 101, 239, 243, 168, 236, 161, 48, 111, 6, 8, 43, 6,
        1, 5, 5, 7, 1, 1, 4, 99, 48, 97, 48, 46, 6, 8, 43, 6, 1, 5, 5, 7,
        48, 1, 134, 34, 104, 116, 116, 112, 58, 47, 47, 111, 99, 115, 112, 46, 105, 110, 116, 45,
        120, 51, 46, 108, 101, 116, 115, 101, 110, 99, 114, 121, 112, 116, 46, 111, 114, 103, 48, 47,
        6, 8, 43, 6, 1, 5, 5, 7, 48, 2, 134, 35, 104, 116, 116, 112, 58, 47, 47, 99,
        101, 114, 116, 46, 105, 110, 116, 45, 120, 51, 46, 108, 101, 116, 115, 101, 110, 99, 114, 121,
        112, 116, 46, 111, 114, 103, 47, 48, 29, 6, 3, 85, 29, 17, 4, 22, 48, 20, 130, 18,
        108, 105, 115, 116, 115, 46, 102, 111, 114, 45, 111, 117, 114, 46, 105, 110, 102, 111, 48, 76,
        6, 3, 85, 29, 32, 4, 69, 48, 67, 48, 8, 6, 6, 103, 129, 12, 1, 2, 1, 48,
        55, 6, 11, 43, 6, 1, 4, 1, 130, 223, 19, 1, 1, 1, 48, 40, 48, 38, 6, 8,
        43, 6, 1, 5, 5, 7, 2, 1, 22, 26, 104, 116, 116, 112, 58, 47, 47, 99, 112, 115,
        46, 108, 101, 116, 115, 101, 110, 99, 114, 121, 112, 116, 46, 111, 114, 103, 48, 130, 1, 3,
        6, 10, 43, 6, 1, 4, 1, 214, 121, 2, 4, 2, 4, 129, 244, 4, 129, 241, 0, 239,
        0, 118, 0, 41, 60, 81, 150, 84, 200, 57, 101, 186, 170, 80, 252, 88, 7, 212, 183, 111,
        191, 88, 122, 41, 114, 220, 164, 195, 12, 244, 229, 69, 71, 244, 120, 0, 0, 1, 107, 230,
        25, 94, 242, 0, 0, 4, 3, 0, 71, 48, 69, 2, 32, 36, 11, 217, 41, 181, 225, 160,
        140, 47, 21, 253, 107, 212, 91, 201, 40, 50, 5, 248, 156, 132, 196, 93, 110, 238, 144, 3,
        99, 27, 174, 94, 30, 2, 33, 0, 214, 248, 9, 238, 201, 234, 81, 96, 160, 162, 161, 4,
        221, 33, 31, 43, 120, 168, 50, 138, 115, 88, 27, 15, 188, 110, 139, 116, 43, 130, 49, 16,
        0, 117, 0, 111, 83, 118, 172, 49, 240, 49, 25, 216, 153, 0, 164, 81, 21, 255, 119, 21,
        28, 17, 217, 2, 193, 0, 41, 6, 141, 178, 8, 154, 55, 217, 19, 0, 0, 1, 107, 230,
        25, 95, 104, 0, 0, 4, 3, 0, 70, 48, 68, 2, 32, 76, 70, 171, 13, 203, 163, 73,
        210, 11, 37, 46, 77, 23, 253, 216, 88, 6, 1, 44, 22, 98, 56, 185, 80, 105, 215, 185,
        137, 233, 38, 176, 47, 2, 32, 112, 240, 5, 149, 106, 15, 31, 205, 158, 40, 128, 8, 88,
        244, 65, 81, 53, 210, 235, 81, 192, 99, 74, 216, 169, 47, 207, 60, 191, 43, 177, 43, 48,
        13, 6, 9, 42, 134, 72, 134, 247, 13, 1, 1, 11, 5, 0, 3, 130, 1, 1, 0, 23,
        192, 65, 44, 59, 210, 89, 152, 57, 236, 30, 154, 14, 220, 223, 81, 52, 134, 122, 208, 152,
        179, 121, 52, 188, 154, 130, 38, 82, 254, 63, 62, 255, 82, 187, 130, 74, 202, 35, 67, 58,
        121, 71, 168, 239, 190, 6, 16, 243, 115, 26, 33, 220, 30, 218, 104, 45, 248, 224, 144, 7,
        155, 251, 202, 87, 45, 200, 28, 193, 153, 130, 48, 246, 115, 231, 196, 64, 187, 30, 87, 9,
        47, 98, 191, 147, 150, 99, 36, 84, 103, 191, 137, 21, 213, 40, 188, 249, 50, 41, 16, 5,
        116, 146, 199, 247, 244, 161, 138, 122, 97, 188, 144, 104, 184, 25, 117, 117, 191, 77, 243, 74,
        253, 41, 241, 160, 154, 174, 155, 168, 72, 160, 73, 226, 169, 65, 208, 43, 230, 75, 99, 42,
        87, 130, 167, 204, 237, 14, 218, 29, 28, 253, 148, 56, 142, 14, 229, 231, 119, 162, 55, 181,
        79, 117, 19, 12, 59, 80, 209, 195, 227, 26, 91, 162, 63, 132, 70, 105, 250, 134, 80, 238,
        24, 74, 94, 2, 148, 6, 241, 120, 32, 108, 50, 173, 252, 136, 103, 192, 30, 88, 161, 184,
        32, 255, 124, 8, 232, 50, 69, 188, 251, 170, 218, 192, 85, 235, 209, 40, 35, 52, 100, 45,
        173, 211, 128, 54, 21, 200, 177, 227, 65, 74, 17, 232, 132, 211, 221, 192, 143, 119, 48, 120,
        198, 49, 52, 179, 224, 194, 4, 15, 241, 123, 183, 144, 14, 80, 19,
    ]
}

const NOT_BEFORE: i64 = 1562929950;
const NOT_AFTER: i64 = 1570705950;

#[test]
fn test_normalize_uptime_target() {
    assert_eq!(normalize_uptime_target(" https://example.com "), "example.com");
    assert_eq!(normalize_uptime_target("http://example.com"), "example.com");
    assert_eq!(normalize_uptime_target("example.com"), "example.com");
    assert_eq!(build_probe_url(true, "example.com", "/"), "https://example.com/");
    assert_eq!(build_probe_url(false, "example.com", "/health"), "http://example.com/health");
}

#[test]
fn test_uptime_classification() {
    let ok = uptime_result_from_response(
        String::from("example.com"),
        String::from("https://example.com/"),
        200,
        120,
        1_700_000_000,
    );
    assert!(ok.is_up);
    assert_eq!(ok.status_code, Some(200));
    assert!(ok.error_message.is_none());

    let client_error = uptime_result_from_response(
        String::from("example.com"),
        String::from("https://example.com/"),
        499,
        80,
        1_700_000_000,
    );
    assert!(client_error.is_up);

    let server_error = uptime_result_from_response(
        String::from("example.com"),
        String::from("https://example.com/"),
        500,
        90,
        1_700_000_000,
    );
    assert!(!server_error.is_up);

    let unavailable = uptime_result_from_response(
        String::from("example.com"),
        String::from("https://example.com/"),
        503,
        75,
        1_700_000_000,
    );
    assert!(!unavailable.is_up);
    assert_eq!(unavailable.status_code, Some(503));

    let failed = uptime_result_from_transport_failure(
        String::from("example.com"),
        String::from("https://example.com/"),
        2500,
        "connection refused",
        1_700_000_000,
    );
    assert!(!failed.is_up);
    assert_eq!(failed.status_code, None);
    assert_eq!(
        failed.error_message.as_deref(),
        Some("HTTPS and HTTP failed: connection refused")
    );

    // The up flag always agrees with "status present and below 500".
    for r in [&ok, &client_error, &server_error, &unavailable, &failed] {
        assert_eq!(r.is_up, r.status_code.map_or(false, |c| c < 500));
    }
}

#[test]
fn test_ssl_target_parsing() {
    let (cleaned, host, port) = ssl_target("https://secure.example.com:8443/");
    assert_eq!(cleaned, "secure.example.com:8443");
    assert_eq!(host, "secure.example.com");
    assert_eq!(port, 8443);

    let (cleaned, host, port) = ssl_target("  example.com  ");
    assert_eq!(cleaned, "example.com");
    assert_eq!(host, "example.com");
    assert_eq!(port, 443);

    let (_, host, port) = ssl_target("example.com:notaport");
    assert_eq!(host, "example.com");
    assert_eq!(port, 443);
}

#[test]
fn test_certificate_inspection() {
    let der = leaf_certificate_der();
    // Ten days before the certificate expires.
    let now = NOT_AFTER - 10 * 86400;
    let info = cert_info_from_der(String::from("lists.for-our.info"), &der, now)
        .expect("certificate parses");
    assert_eq!(info.domain, "lists.for-our.info");
    assert_eq!(info.issuer, "C=US, O=Let's Encrypt, CN=Let's Encrypt Authority X3");
    assert_eq!(info.subject, "CN=lists.for-our.info");
    assert_eq!(info.serial_number, "32048030bbb3410f9093c57f2cb8308c805");
    assert_eq!(info.signature_algorithm, "1.2.840.113549.1.1.11");
    assert_eq!(info.valid_from, NOT_BEFORE);
    assert_eq!(info.valid_until, NOT_AFTER);
    assert!(!info.is_expired);
    assert_eq!(info.days_until_expiry, 10);
    assert!(!info.is_self_signed);
    assert!(info.is_valid);
    assert!(is_cert_expiring_soon(30, &info));
    assert!(!is_cert_expiring_soon(9, &info));
}

#[test]
fn test_certificate_expired() {
    let der = leaf_certificate_der();
    let now = NOT_AFTER + 1;
    let info = cert_info_from_der(String::from("lists.for-our.info"), &der, now)
        .expect("certificate parses");
    assert!(info.is_expired);
    assert_eq!(info.days_until_expiry, -1);
    assert!(!info.is_valid);
    assert!(!is_cert_expiring_soon(30, &info));
}

#[test]
fn test_certificate_garbage_rejected() {
    let der = vec![0u8, 1, 2, 3];
    let err = cert_info_from_der(String::from("x"), &der, 0).expect_err("garbage must fail");
    assert!(matches!(err, AppError::External(_)));
}

#[test]
fn test_ssl_check_ten_days_left() {
    // A certificate valid for ten more days: the observation records ten
    // days until expiry and an expiring-soon alert cites them.
    let der = leaf_certificate_der();
    let now = NOT_AFTER - 10 * 86400;
    let (info, alerts) =
        webguard::alert::evaluate_ssl_check(9, String::from("lists.for-our.info"), &der, now)
            .expect("certificate parses");
    assert_eq!(info.days_until_expiry, 10);
    assert_eq!(alerts.len(), 1);
    assert_eq!(
        alerts[0].description,
        "SSL certificate for lists.for-our.info expires in 10 days (on 2019-10-10)"
    );
    assert!(alerts[0].description.contains("10 days"));
}
