use api_skeleton::Severity;
use api_skeleton::format_rfc3339;
use api_skeleton::health_body;
use api_skeleton::health_check_handler;
use api_skeleton::parse_i64;
use api_skeleton::parse_u16;
use api_skeleton::parse_u64;
use api_skeleton::request_log_record;
use api_skeleton::resolve_log_directive;
use api_skeleton::root_handler;
use api_skeleton::severity_for_status;
use api_skeleton::timestamp_from_micros;
use api_skeleton::u64_to_dec;

#[test]
fn epoch_renders_exactly() {
    assert_eq!(health_body(0), "{\"status\":\"healthy\",\"timestamp\":\"1970-01-01T00:00:00.000000Z\"}");
}

#[test]
fn known_instant_renders_exactly() {
    // 2021-01-01T00:00:00Z
    let t = timestamp_from_micros(1_609_459_200_000_000);
    assert_eq!(format_rfc3339(t), "2021-01-01T00:00:00.000000Z");
}

#[test]
fn leap_day_is_resolved() {
    // 2020-02-29T23:59:59.999999Z
    let t = timestamp_from_micros(1_583_020_799_999_999);
    assert_eq!(t.year, 2020);
    assert_eq!(t.month, 2);
    assert_eq!(t.day, 29);
    assert_eq!(t.hour, 23);
    assert_eq!(t.minute, 59);
    assert_eq!(t.second, 59);
    assert_eq!(t.micros, 999_999);
    assert_eq!(format_rfc3339(t), "2020-02-29T23:59:59.999999Z");
}

#[test]
fn year_boundary_is_resolved() {
    // 1970-12-31T23:59:59Z and the next microsecond
    let before = timestamp_from_micros(31_535_999_999_999);
    assert_eq!(format_rfc3339(before), "1970-12-31T23:59:59.999999Z");
    let after = timestamp_from_micros(31_536_000_000_000);
    assert_eq!(format_rfc3339(after), "1971-01-01T00:00:00.000000Z");
}

#[test]
fn century_rule_is_respected() {
    // 1900 is not a leap year in the Gregorian calendar, 2000 is.
    let t = timestamp_from_micros(951_782_400_000_000);
    assert_eq!(format_rfc3339(t), "2000-02-29T00:00:00.000000Z");
    let u = timestamp_from_micros(4_107_542_400_000_000);
    assert_eq!(format_rfc3339(u), "2100-03-01T00:00:00.000000Z");
}

#[test]
fn health_handler_reports_healthy_with_a_parseable_timestamp() {
    let (status, body) = health_check_handler();
    assert_eq!(status, 200);
    let v: serde_json::Value = serde_json::from_str(&body).unwrap();
    assert_eq!(v["status"], "healthy");
    let stamp = v["timestamp"].as_str().unwrap();
    let parsed = chrono::DateTime::parse_from_rfc3339(stamp).unwrap();
    let year = chrono::Datelike::year(&parsed);
    assert!(year >= 2020);
}

#[test]
fn health_body_timestamp_round_trips_through_chrono() {
    let micros: i64 = 1_700_000_123_456_789;
    let body = health_body(micros as u64);
    let v: serde_json::Value = serde_json::from_str(&body).unwrap();
    let stamp = v["timestamp"].as_str().unwrap();
    let parsed = chrono::DateTime::parse_from_rfc3339(stamp).unwrap();
    assert_eq!(parsed.timestamp_micros(), micros);
}

#[test]
fn root_handler_greets() {
    let (status, body) = root_handler();
    assert_eq!(status, 200);
    let v: serde_json::Value = serde_json::from_str(&body).unwrap();
    assert_eq!(v["status"], "success");
    assert_eq!(v["message"], "Hello, World!");
    assert_eq!(v["version"], "1.0.0");
}

#[test]
fn severity_follows_the_status_class() {
    assert_eq!(severity_for_status(200), Severity::Info);
    assert_eq!(severity_for_status(302), Severity::Info);
    assert_eq!(severity_for_status(404), Severity::Warn);
    assert_eq!(severity_for_status(499), Severity::Warn);
    assert_eq!(severity_for_status(500), Severity::Error);
    assert_eq!(severity_for_status(599), Severity::Error);
    assert_eq!(severity_for_status(100), Severity::Info);
    assert_eq!(severity_for_status(700), Severity::Info);
}

#[test]
fn request_log_line_is_exact() {
    let rec = request_log_record("GET", "/missing", 404, 1234);
    assert_eq!(rec.severity, Severity::Warn);
    assert_eq!(rec.status, 404);
    assert_eq!(rec.message, "GET /missing 404 1.234ms");
    assert!(rec.detail.is_none());

    let rec2 = request_log_record("POST", "/users", 500, 45);
    assert_eq!(rec2.severity, Severity::Error);
    assert_eq!(rec2.message, "POST /users 500 0.045ms");

    let rec3 = request_log_record("GET", "/", 200, 10_500);
    assert_eq!(rec3.severity, Severity::Info);
    assert_eq!(rec3.message, "GET / 200 10.500ms");
}

#[test]
fn log_directive_priority_order() {
    assert_eq!(resolve_log_directive(Some("debug".to_string()), true, true, "warn"), "debug");
    assert_eq!(resolve_log_directive(None, false, true, "warn"), "warn");
    assert_eq!(resolve_log_directive(None, false, false, "nonsense"), "info");
}

#[test]
fn invalid_override_falls_back_to_the_configured_level() {
    assert_eq!(resolve_log_directive(Some("%%garbage".to_string()), false, true, "debug"), "debug");
    assert_eq!(
        resolve_log_directive(Some("%%garbage".to_string()), false, false, "nonsense"),
        "info"
    );
}

#[test]
fn decimal_rendering_is_exact() {
    assert_eq!(u64_to_dec(0), "0");
    assert_eq!(u64_to_dec(7), "7");
    assert_eq!(u64_to_dec(12345), "12345");
    assert_eq!(u64_to_dec(u64::MAX), "18446744073709551615");
}

#[test]
fn integer_parsing_matches_std() {
    assert_eq!(parse_u16("3000"), Some(3000));
    assert_eq!(parse_u16("+3000"), Some(3000));
    assert_eq!(parse_u16("65536"), None);
    assert_eq!(parse_u16(""), None);
    assert_eq!(parse_u16("+"), None);
    assert_eq!(parse_u16("12a"), None);
    assert_eq!(parse_u16("-1"), None);
    assert_eq!(parse_u64("18446744073709551615"), Some(u64::MAX));
    assert_eq!(parse_u64("18446744073709551616"), None);
    assert_eq!(parse_i64("-86400"), Some(-86400));
    assert_eq!(parse_i64("+5"), Some(5));
    assert_eq!(parse_i64("-9223372036854775808"), Some(i64::MIN));
    assert_eq!(parse_i64("-9223372036854775809"), None);
    assert_eq!(parse_i64("9223372036854775807"), Some(i64::MAX));
    assert_eq!(parse_i64("9223372036854775808"), None);
    assert_eq!(parse_i64("--1"), None);
}
