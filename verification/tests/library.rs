use unlock_mox_si_api::config::Config;
use unlock_mox_si_api::orchestrator::{outcome_message, respond, validate, PostRequest};
use unlock_mox_si_api::service::{command_body, CommandResult, Service};
use unlock_mox_si_api::sign::{compute_sign, i64_to_string, random_string, u64_to_string};

fn is_alnum(c: char) -> bool {
    ('A'..='Z').contains(&c) || ('a'..='z').contains(&c) || ('0'..='9').contains(&c)
}

#[test]
fn reject_when_no_action_requested() {
    let req = PostRequest { is_door_open: false, is_interphone_open: false };
    let (status, body) = respond(&req, None, None);
    assert_eq!(status, 400);
    assert_eq!(
        body.message,
        "invalid request. require \"is_door_open\" or \"is_interphone_open\" filed."
    );
    assert_eq!(body.result.door_open, "not open");
    assert_eq!(body.result.interphone_open, "not open");
}

#[test]
fn unrequested_action_reports_not_open() {
    let req = PostRequest { is_door_open: false, is_interphone_open: true };
    let ok = CommandResult { status_code: 100, message: String::new() };
    let (status, body) = respond(&req, Some(Ok(ok)), None);
    assert_eq!(status, 200);
    assert_eq!(body.message, "ok");
    assert_eq!(body.result.interphone_open, "open");
    assert_eq!(body.result.door_open, "not open");
}

#[test]
fn success_status_reports_open() {
    let res = Ok(CommandResult { status_code: 100, message: "ignored".to_string() });
    assert_eq!(outcome_message(res), "open");
}

#[test]
fn vendor_error_reports_message() {
    let res = Ok(CommandResult { status_code: 190, message: "device offline".to_string() });
    assert_eq!(outcome_message(res), "device offline");

    let req = PostRequest { is_door_open: true, is_interphone_open: false };
    let door = CommandResult { status_code: 190, message: "device offline".to_string() };
    let (status, body) = respond(&req, None, Some(Ok(door)));
    assert_eq!(status, 200);
    assert_eq!(body.result.door_open, "device offline");
    assert_eq!(body.result.interphone_open, "not open");
}

#[test]
fn transport_error_reports_text() {
    let res = Err("connection refused".to_string());
    assert_eq!(outcome_message(res), "connection refused");
}

#[test]
fn end_to_end_both_open() {
    let req = PostRequest { is_door_open: true, is_interphone_open: true };
    let door = CommandResult { status_code: 100, message: String::new() };
    let inter = CommandResult { status_code: 100, message: String::new() };
    let (status, body) = respond(&req, Some(Ok(inter)), Some(Ok(door)));
    assert_eq!(status, 200);
    assert_eq!(body.message, "ok");
    assert_eq!(body.result.door_open, "open");
    assert_eq!(body.result.interphone_open, "open");
}

#[test]
fn validate_requires_one_action() {
    assert!(!validate(&PostRequest { is_door_open: false, is_interphone_open: false }));
    assert!(validate(&PostRequest { is_door_open: true, is_interphone_open: false }));
    assert!(validate(&PostRequest { is_door_open: false, is_interphone_open: true }));
    assert!(validate(&PostRequest { is_door_open: true, is_interphone_open: true }));
}

#[test]
fn signing_golden_vector() {
    let sign = compute_sign(
        "secret456",
        "token123",
        1_700_000_000_000,
        "ABCDEFGHIJKLMNOPQRSTUVWX",
    );
    assert_eq!(sign, "8+FsHHlAcEoNvUj4ajXeLBSLKO3WpGffNmLhCgxPEe0=");
}

#[test]
fn signing_golden_vector_negative_timestamp() {
    let sign = compute_sign("b", "a", -5, "nnnnnnnnnnnnnnnnnnnnnnnn");
    assert_eq!(sign, "I58ktsD5ANnYiDMR6BD937drHDfHqhGPmbtN9EoiknE=");
}

#[test]
fn signing_deterministic_and_input_sensitive() {
    let a = compute_sign("s", "t", 12345, "AAAAAAAAAAAAAAAAAAAAAAAA");
    let b = compute_sign("s", "t", 12345, "AAAAAAAAAAAAAAAAAAAAAAAA");
    assert_eq!(a, b);
    let c = compute_sign("s", "t", 12345, "AAAAAAAAAAAAAAAAAAAAAAAB");
    assert_ne!(a, c);
}

#[test]
fn nonces_differ() {
    let a = random_string(24);
    let b = random_string(24);
    assert_eq!(a.len(), 24);
    assert_eq!(b.len(), 24);
    assert!(a.chars().all(is_alnum));
    assert!(b.chars().all(is_alnum));
    assert_ne!(a, b);
}

#[test]
fn decimal_formatting() {
    assert_eq!(u64_to_string(0), "0");
    assert_eq!(u64_to_string(42), "42");
    assert_eq!(i64_to_string(0), "0");
    assert_eq!(i64_to_string(1_700_000_000_000), "1700000000000");
    assert_eq!(i64_to_string(-5), "-5");
    assert_eq!(i64_to_string(i64::MAX), "9223372036854775807");
    assert_eq!(i64_to_string(i64::MIN), "-9223372036854775808");
}

#[test]
fn push_button_request_shape() {
    let service = Service::new("tok".to_string(), "sec".to_string());
    let cmd = service.push_button_request("dev1");
    assert_eq!(cmd.url, "https://api.switch-bot.com/v1.0/devices/dev1/commands");
    assert_eq!(cmd.authorization, "Bearer tok");
    assert_eq!(cmd.command, "press");
}

#[test]
fn open_lock_request_signed() {
    let service = Service::new("tok".to_string(), "sec".to_string());
    let cmd = service.open_lock_request("lock1");
    assert_eq!(cmd.url, "https://api.switch-bot.com/v1.1/devices/lock1/commands");
    assert_eq!(cmd.authorization, "tok");
    assert_eq!(cmd.command, "unlock");
    assert_eq!(cmd.nonce.len(), 24);
    assert!(cmd.nonce.chars().all(is_alnum));
    assert_eq!(cmd.t_str, cmd.t.to_string());
    assert_eq!(cmd.sign, compute_sign("sec", "tok", cmd.t, &cmd.nonce));
    assert_eq!(cmd.sign.len(), 44);
}

#[test]
fn command_body_shape() {
    let body = command_body("press");
    assert_eq!(body.command, "press");
    assert_eq!(body.parameter, "default");
    assert_eq!(body.command_type, "command");
}

#[test]
fn service_new_and_clone() {
    let service = Service::new("token".to_string(), "secret".to_string());
    assert_eq!(service.switch_bot_token, "token");
    assert_eq!(service.switch_bot_secret, "secret");
    let copy = service.clone();
    assert_eq!(copy.switch_bot_token, "token");
    assert_eq!(copy.switch_bot_secret, "secret");
}

#[test]
fn config_holds_values() {
    let config = Config {
        switch_bot_token: "t".to_string(),
        switch_bot_secret: "s".to_string(),
        interphone_bot_id: "i".to_string(),
        lock_bot_id: "l".to_string(),
    };
    assert_eq!(config.switch_bot_token, "t");
    assert_eq!(config.switch_bot_secret, "s");
    assert_eq!(config.interphone_bot_id, "i");
    assert_eq!(config.lock_bot_id, "l");
}
