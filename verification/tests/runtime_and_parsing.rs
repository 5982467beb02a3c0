use lingyu::audio::encode_wav;
use lingyu::config::{Config, TranscriptionService};
use lingyu::local_stt::LocalWhisper;
use lingyu::session::{choose_backend, Backend, RuntimeSettings, RuntimeState};
use lingyu::text::parse_i32;

#[test]
fn parses_i32_like_std() {
    let cases = [
        "0", "42", "-42", "+7", "007", "-0", "2147483647", "2147483648", "-2147483648",
        "-2147483649", "", "-", "+", "+-1", " 1", "1 ", "1_000", "12a", "99999999999999999999",
        "-99999999999999999999", "٣",
    ];
    for c in cases {
        assert_eq!(parse_i32(c), c.parse::<i32>().ok(), "input {c:?}");
    }
}

#[test]
fn backend_choice() {
    assert_eq!(choose_backend(true, false), Ok(Backend::Api));
    assert_eq!(choose_backend(true, true), Ok(Backend::Api));
    assert_eq!(choose_backend(false, true), Ok(Backend::Local));
    assert_eq!(choose_backend(false, false), Err("本地引擎未就绪".to_string()));
}

#[test]
fn downloaded_engine_is_kept_for_the_selected_model() {
    let c = Config::from_environment(None, None, None, None, None, None);
    let settings = RuntimeSettings::resolve(Some("sensevoice-q8".into()), None, None, None, &c);
    let mut rt = RuntimeState::new(settings);
    assert!(rt.engine.is_none());
    assert_eq!(rt.backend(), Err("本地引擎未就绪".to_string()));
    let other = LocalWhisper::assemble("/b", "/m/sensevoice-small-f16.gguf", "/models", true);
    assert!(!rt.engine_loaded("sensevoice-f16", other));
    assert!(rt.engine.is_none());
    let w = LocalWhisper::assemble("/b", "/m/sensevoice-small-q8.gguf", "/models", true);
    assert!(rt.engine_loaded("sensevoice-q8", w));
    assert_eq!(rt.engine.as_ref().unwrap().model_path(), "/m/sensevoice-small-q8.gguf");
    assert_eq!(rt.backend(), Ok(Backend::Local));
    assert_eq!(rt.settings.active_service, TranscriptionService::Local);

    let api = RuntimeSettings::resolve(None, None, None, None, &c);
    let mut rt = RuntimeState::new(api);
    let w = LocalWhisper::assemble("/b", "/m/sensevoice-small-q8.gguf", "/models", true);
    assert!(!rt.engine_loaded("sensevoice-q8", w));
    assert_eq!(rt.backend(), Ok(Backend::Api));
}

#[test]
fn empty_recording_is_refused_at_any_rate() {
    assert_eq!(encode_wav(0, &Vec::new()).unwrap_err(), "未录制到音频");
    assert_eq!(encode_wav(u32::MAX, &Vec::new()).unwrap_err(), "未录制到音频");
}
