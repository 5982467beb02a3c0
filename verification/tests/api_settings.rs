use lingyu::api::{bearer_token, is_valid_base_url, prepare_request, read_response, transcriptions_url};
use lingyu::settings::{
    history_text, prepare_setting, setting_key_allowed, stored_setting_value, valid_setting_prefixes,
    Transcription, HISTORY_LIMIT, MAX_SETTING_BYTES,
};

#[test]
fn base_url_scheme() {
    assert!(is_valid_base_url("http://localhost:1234/v1"));
    assert!(is_valid_base_url("https://api.openai.com/v1"));
    assert!(!is_valid_base_url("ftp://x"));
    assert!(!is_valid_base_url("HTTP://x"));
    assert!(!is_valid_base_url("localhost:1234"));
    assert!(!is_valid_base_url(""));
}

#[test]
fn endpoint_url() {
    assert_eq!(transcriptions_url("http://localhost:1234/v1"), "http://localhost:1234/v1/audio/transcriptions");
    assert_eq!(transcriptions_url("http://localhost:1234/v1/"), "http://localhost:1234/v1/audio/transcriptions");
    assert_eq!(transcriptions_url("https://x///"), "https://x/audio/transcriptions");
    assert_eq!(transcriptions_url(""), "/audio/transcriptions");
}

#[test]
fn empty_key_sends_no_bearer() {
    assert_eq!(bearer_token(""), None);
    assert_eq!(bearer_token("sk-1").as_deref(), Some("sk-1"));
}

#[test]
fn request_preparation() {
    let r = prepare_request("https://h/v1/", "", "whisper-1").unwrap();
    assert_eq!(r.url, "https://h/v1/audio/transcriptions");
    assert_eq!(r.bearer, None);
    assert_eq!(r.model, "whisper-1");
    let r = prepare_request("http://h", "k", "m").unwrap();
    assert_eq!(r.bearer.as_deref(), Some("k"));
    assert_eq!(prepare_request("h/v1", "k", "m").err().unwrap(), "无效的 API URL");
}

#[test]
fn response_with_text() {
    assert_eq!(read_response(200, "200 OK", br#"{"text":"hello"}"#).unwrap(), "hello");
    assert_eq!(read_response(201, "201 Created", r#"{"text":"你好","x":1}"#.as_bytes()).unwrap(), "你好");
}

#[test]
fn response_errors() {
    assert_eq!(read_response(404, "404 Not Found", b"nope").unwrap_err(), "API 错误 404 Not Found：nope");
    assert_eq!(read_response(500, "500 Internal Server Error", b"").unwrap_err(), "API 错误 500 Internal Server Error：");
    assert_eq!(read_response(200, "200 OK", br#"{"a":1}"#).unwrap_err(), r#"响应中没有 'text' 字段：{"a":1}"#);
    assert_eq!(read_response(200, "200 OK", br#"{"text":5}"#).unwrap_err(), r#"响应中没有 'text' 字段：{"text":5}"#);
    assert_eq!(read_response(200, "200 OK", b"not json").unwrap_err(), "JSON 解析错误：error decoding response body");
}

#[test]
fn setting_keys() {
    assert_eq!(valid_setting_prefixes().len(), 9);
    for p in valid_setting_prefixes() {
        assert!(setting_key_allowed(p));
    }
    assert!(setting_key_allowed("api_key_custom"));
    assert!(setting_key_allowed("window_x_extra"));
    assert!(!setting_key_allowed("api_key"));
    assert!(!setting_key_allowed("theme"));
    assert!(!setting_key_allowed(""));
}

#[test]
fn stored_values_are_cut_at_char_boundaries() {
    assert_eq!(MAX_SETTING_BYTES, 4096);
    assert_eq!(stored_setting_value("short"), "short");
    let long = "a".repeat(5000);
    assert_eq!(stored_setting_value(&long), "a".repeat(4096));
    let cjk = "你".repeat(2000);
    let stored = stored_setting_value(&cjk);
    assert_eq!(stored.len(), 4095);
    assert_eq!(stored, "你".repeat(1365));
    let mixed = format!("{}{}", "a".repeat(4094), "😀");
    assert_eq!(stored_setting_value(&mixed), "a".repeat(4094));
    let exact = "a".repeat(4096);
    assert_eq!(stored_setting_value(&exact), exact);
}

#[test]
fn settings_are_checked_before_storing() {
    assert_eq!(prepare_setting("window_x", "120").unwrap(), "120");
    assert_eq!(prepare_setting("theme", "dark").unwrap_err(), "未知键：theme");
    assert_eq!(prepare_setting("api_custom_key", &"k".repeat(5000)).unwrap().len(), 4096);
}

#[test]
fn history_listing() {
    assert_eq!(HISTORY_LIMIT, 50);
    let entries = vec![
        Transcription { _id: 2, text: "second".into(), created_at: "2024-01-01 10:00:01".into() },
        Transcription { _id: 1, text: "first".into(), created_at: "2024-01-01 10:00:00".into() },
    ];
    assert_eq!(
        history_text(Some(&entries)),
        "[2024-01-01 10:00:01] second\n\n[2024-01-01 10:00:00] first\n\n"
    );
    assert_eq!(history_text(Some(&Vec::new())), "");
    assert_eq!(history_text(None), "数据库可能已损坏");
}
