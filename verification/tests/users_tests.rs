use api_skeleton::AppResponse;
use api_skeleton::CreateUserDto;
use api_skeleton::Severity;
use api_skeleton::ToJson;
use api_skeleton::create;
use api_skeleton::create_user;

fn dto(username: &str, email: &str) -> CreateUserDto {
    CreateUserDto { username: username.to_string(), email: email.to_string() }
}

#[test]
fn valid_input_creates_an_active_user() {
    let u = create_user(dto("alice", "alice@example.com")).unwrap();
    assert_eq!(u.username, "alice");
    assert_eq!(u.email, "alice@example.com");
    assert!(u.active);
    assert_eq!((u.id >> 76) & 0xf, 4);
}

#[test]
fn identical_input_never_repeats_an_identifier() {
    let a = create_user(dto("alice", "alice@example.com")).unwrap();
    let b = create_user(dto("alice", "alice@example.com")).unwrap();
    assert_ne!(a.id, b.id);
}

#[test]
fn email_without_at_sign_is_rejected() {
    let r = create_user(dto("bob", "bob.example.com"));
    assert_eq!(r.unwrap_err(), "Invalid email format");
}

#[test]
fn short_username_is_rejected() {
    let r = create_user(dto("ab", "ab@example.com"));
    assert_eq!(r.unwrap_err(), "Username must be at least 3 characters");
}

#[test]
fn email_is_checked_before_username() {
    let r = create_user(dto("ab", "no-at-sign"));
    assert_eq!(r.unwrap_err(), "Invalid email format");
}

#[test]
fn three_byte_username_is_the_minimum() {
    assert!(create_user(dto("abc", "a@b")).is_ok());
    assert!(create_user(dto("ab", "a@b")).is_err());
}

#[test]
fn controller_wraps_success_in_a_201_envelope() {
    let (status, body, record) = create(dto("alice", "alice@example.com"));
    assert_eq!(status, 201);
    let v: serde_json::Value = serde_json::from_str(&body).unwrap();
    let obj = v.as_object().unwrap();
    assert_eq!(obj["status"], 201);
    assert_eq!(obj["message"], "User created successfully");
    assert!(!obj.contains_key("error"));
    let data = obj["data"].as_object().unwrap();
    assert_eq!(data["username"], "alice");
    assert_eq!(data["email"], "alice@example.com");
    assert_eq!(data["active"], true);
    let id = uuid::Uuid::parse_str(data["id"].as_str().unwrap()).unwrap();
    assert_eq!(id.get_version_num(), 4);
    assert_eq!(record.severity, Severity::Info);
    assert_eq!(record.status, 201);
    assert_eq!(record.message, "User created successfully");
    assert!(record.detail.is_none());
}

#[test]
fn controller_wraps_invalid_email_in_a_400_envelope() {
    let (status, body, record) = create(dto("bob", "bob.example.com"));
    assert_eq!(status, 400);
    let v: serde_json::Value = serde_json::from_str(&body).unwrap();
    let obj = v.as_object().unwrap();
    assert_eq!(obj["status"], 400);
    assert_eq!(obj["message"], "Failed to create user");
    assert_eq!(obj["error"], "Invalid email format");
    assert!(!obj.contains_key("data"));
    assert_eq!(record.severity, Severity::Error);
    assert_eq!(record.status, 400);
    assert_eq!(record.detail.as_deref(), Some("Invalid email format"));
}

#[test]
fn controller_wraps_short_username_in_a_400_envelope() {
    let (status, body, _) = create(dto("ab", "ab@example.com"));
    assert_eq!(status, 400);
    let v: serde_json::Value = serde_json::from_str(&body).unwrap();
    assert_eq!(v["error"], "Username must be at least 3 characters");
}

#[test]
fn rendered_identifier_matches_the_canonical_hyphenated_form() {
    let u = create_user(dto("carol", "carol@example.com")).unwrap();
    let body = u.to_json();
    let v: serde_json::Value = serde_json::from_str(&body).unwrap();
    let text = v["id"].as_str().unwrap();
    let expected = uuid::Uuid::from_u128(u.id).hyphenated().to_string();
    assert_eq!(text, expected);
    assert_eq!(text.len(), 36);
    assert_eq!(text.chars().nth(14), Some('4'));
}

#[test]
fn envelope_keeps_exactly_one_of_data_and_error() {
    let (success, _) = AppResponse::success((), "ok", 200);
    let v: serde_json::Value = serde_json::from_str(&success.to_json()).unwrap();
    let obj = v.as_object().unwrap();
    assert!(obj.contains_key("data"));
    assert!(!obj.contains_key("error"));

    let (failure, _) = AppResponse::error("boom", "failed", 500);
    let w: serde_json::Value = serde_json::from_str(&failure.to_json()).unwrap();
    let wobj = w.as_object().unwrap();
    assert!(wobj.contains_key("error"));
    assert!(!wobj.contains_key("data"));
    assert!(!wobj["error"].is_null());
    assert_eq!(wobj["error"], "boom");
}

#[test]
fn envelope_escapes_message_and_detail() {
    let detail = "a \"quoted\" \\ backslash\nnewline\ttab";
    let (failure, record) = AppResponse::error(detail, "line1\nline2", 500);
    let v: serde_json::Value = serde_json::from_str(&failure.to_json()).unwrap();
    assert_eq!(v["error"].as_str().unwrap(), detail);
    assert_eq!(v["message"].as_str().unwrap(), "line1\nline2");
    assert_eq!(record.detail.as_deref(), Some(detail));
}

#[test]
fn envelope_log_records_carry_the_send() {
    let (_, rec) = AppResponse::success((), "done", 201);
    assert_eq!(rec.severity, Severity::Info);
    assert_eq!(rec.source, "AppResponse::success");
    assert_eq!(rec.status, 201);
    let (_, erec) = AppResponse::error("why", "sad", 400);
    assert_eq!(erec.severity, Severity::Error);
    assert_eq!(erec.source, "AppResponse::error");
    assert_eq!(erec.status, 400);
}
