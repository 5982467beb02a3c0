use lingyu::config::{
    data_dir, find_local_model, funasr_binary, funasr_binary_path, funasr_binary_ready,
    local_model_presets, parse_always_on_top, vad_model_path, vad_ready, Config,
    TranscriptionService, DEFAULT_LOCAL_MODEL, VAD_MODEL_FILENAME, VAD_MODEL_URL,
};
use std::path::Path;

fn joined(a: &str, b: &str) -> String {
    Path::new(a).join(b).to_string_lossy().into_owned()
}

#[test]
fn presets_are_listed_in_menu_order() {
    let presets = local_model_presets();
    assert_eq!(presets.len(), 2);
    assert_eq!(presets[0].id, "sensevoice-q8");
    assert_eq!(presets[0].label, "SenseVoice Q8");
    assert_eq!(presets[0].file_name, "sensevoice-small-q8.gguf");
    assert_eq!(presets[0].size_label, "~242 MB");
    assert_eq!(presets[1].id, "sensevoice-f16");
    assert_eq!(presets[1].file_name, "sensevoice-small-f16.gguf");
    assert_eq!(presets[1].size_label, "~470 MB");
    assert!(presets[1].url.ends_with("sensevoice-small-f16.gguf"));
}

#[test]
fn find_local_model_by_id() {
    let q8 = find_local_model("sensevoice-q8").expect("q8 preset");
    assert_eq!(q8.file_name, "sensevoice-small-q8.gguf");
    let f16 = find_local_model("sensevoice-f16").expect("f16 preset");
    assert_eq!(f16.label, "SenseVoice F16");
    assert!(find_local_model("sensevoice").is_none());
    assert!(find_local_model("").is_none());
    assert!(find_local_model("SENSEVOICE-Q8").is_none());
}

#[test]
fn default_local_model_is_a_preset() {
    let p = find_local_model(DEFAULT_LOCAL_MODEL).expect("default preset");
    assert_eq!(p.id, DEFAULT_LOCAL_MODEL);
}

#[test]
fn always_on_top_parsing() {
    assert!(parse_always_on_top(None));
    assert!(parse_always_on_top(Some("true")));
    assert!(parse_always_on_top(Some("TRUE")));
    assert!(parse_always_on_top(Some("True")));
    assert!(parse_always_on_top(Some("1")));
    assert!(!parse_always_on_top(Some("0")));
    assert!(!parse_always_on_top(Some("yes")));
    assert!(!parse_always_on_top(Some("")));
    assert!(!parse_always_on_top(Some(" true")));
}

#[test]
fn config_defaults() {
    let c = Config::from_environment(None, None, None, None, None, Some("/data".to_string()));
    assert_eq!(c.api_base_url, "http://localhost:1234/v1");
    assert_eq!(c.api_key, None);
    assert_eq!(c.api_model, "whisper-1");
    assert!(c.always_on_top);
    assert_eq!(c.record_shortcut, "F10");
    let base = joined("/data", "lingyu");
    assert_eq!(c.db_path, joined(&base, "history.db"));
    assert_eq!(c.bin_dir, joined(&base, "bin"));
    assert_eq!(c.models_dir, joined(&base, "models"));
}

#[test]
fn config_from_values() {
    let c = Config::from_environment(
        Some("https://api.example.com/v1".to_string()),
        Some("sk-test".to_string()),
        Some("large".to_string()),
        Some("false".to_string()),
        Some("F9".to_string()),
        None,
    );
    assert_eq!(c.api_base_url, "https://api.example.com/v1");
    assert_eq!(c.api_key.as_deref(), Some("sk-test"));
    assert_eq!(c.api_model, "large");
    assert!(!c.always_on_top);
    assert_eq!(c.record_shortcut, "F9");
    assert_eq!(c.db_path, joined(&joined(".", "lingyu"), "history.db"));
}

#[test]
fn data_dir_falls_back_to_current_directory() {
    assert_eq!(data_dir(None), joined(".", "lingyu"));
    assert_eq!(data_dir(Some("/home/u/.local/share")), joined("/home/u/.local/share", "lingyu"));
}

#[test]
fn funasr_and_vad_locations() {
    let b = funasr_binary();
    assert_eq!(b.binary_name, "llama-funasr-sensevoice.exe");
    assert!(b.url.ends_with("funasr-llamacpp-windows-x64.zip"));
    assert_eq!(funasr_binary_path("/opt/ly/bin"), joined("/opt/ly/bin", "llama-funasr-sensevoice.exe"));
    assert_eq!(vad_model_path("/opt/ly/models"), joined("/opt/ly/models", "fsmn-vad.gguf"));
    assert_eq!(VAD_MODEL_FILENAME, "fsmn-vad.gguf");
    assert!(VAD_MODEL_URL.ends_with("/fsmn-vad.gguf"));
}

#[test]
fn readiness_of_missing_files() {
    assert!(!funasr_binary_ready("/nonexistent/lingyu/bin"));
    assert!(!vad_ready("/nonexistent/lingyu/models"));
}

#[test]
fn transcription_service_equality() {
    assert!(TranscriptionService::Api == TranscriptionService::Api);
    assert!(TranscriptionService::Api != TranscriptionService::Local);
}

#[test]
fn joined_paths_follow_std() {
    assert_eq!(funasr_binary_path("a"), joined("a", "llama-funasr-sensevoice.exe"));
    assert_ne!(funasr_binary_path("a"), "a");
    assert_ne!(funasr_binary_path("a"), "llama-funasr-sensevoice.exe");
}
