use lingyu::local_stt::{temp_wav_file_name, LocalWhisper, TempWavNames};
use lingyu::transcript::clean_transcript;
use std::path::Path;

fn joined(a: &str, b: &str) -> String {
    Path::new(a).join(b).to_string_lossy().into_owned()
}

#[test]
fn clean_strips_tags() {
    assert_eq!(clean_transcript("<|zh|><|NEUTRAL|><|Speech|><|woitn|>你好世界\n").unwrap(), "你好世界");
    assert_eq!(clean_transcript("a<b>c").unwrap(), "ac");
    assert_eq!(clean_transcript("x>y").unwrap(), "xy");
    assert_eq!(clean_transcript("<unclosed tag text").is_err(), true);
}

#[test]
fn clean_drops_log_lines() {
    let raw = "llama_model_loader: loaded\nmain: processing\n# comment\nLog start\n  hello there  \n\n";
    assert_eq!(clean_transcript(raw).unwrap(), "hello there");
}

#[test]
fn clean_keeps_inner_lines_and_spacing() {
    let raw = "first line\r\n   second line  \nthird";
    assert_eq!(clean_transcript(raw).unwrap(), "first line\n   second line  \nthird");
}

#[test]
fn clean_only_crlf_is_a_line_ending() {
    assert_eq!(clean_transcript("a\r\r\nb").unwrap(), "a\r\nb");
}

#[test]
fn clean_empty_result_is_an_error() {
    assert_eq!(clean_transcript("").unwrap_err(), "识别结果为空");
    assert_eq!(clean_transcript("<|nospeech|>\n").unwrap_err(), "识别结果为空");
    assert_eq!(clean_transcript(" \t\n llama_x\n").unwrap_err(), "识别结果为空");
}

#[test]
fn clean_output_has_no_tag_delimiters_and_is_trimmed() {
    let out = clean_transcript("  <|en|>Hello <b>world</b>\u{3000}\n").unwrap();
    assert_eq!(out, "Hello world");
    assert!(!out.contains('<') && !out.contains('>'));
}

#[test]
fn local_whisper_paths() {
    let w = LocalWhisper::new("/nonexistent/bin", "/m/sensevoice-small-q8.gguf", "/nonexistent/models").unwrap();
    assert_eq!(w.binary_path(), joined("/nonexistent/bin", "llama-funasr-sensevoice.exe"));
    assert_eq!(w.model_path(), "/m/sensevoice-small-q8.gguf");
    assert_eq!(w.vad_path(), None);
    let w2 = LocalWhisper::assemble("/b", "/m/x.gguf", "/models", true);
    assert_eq!(w2.vad_path(), Some(joined("/models", "fsmn-vad.gguf").as_str()));
}

#[test]
fn command_args_for_q8_without_vad() {
    let w = LocalWhisper::assemble("/b", "/m/sensevoice-small-q8.gguf", "/models", false);
    assert!(!w.keeps_tags());
    assert_eq!(w.command_args("/tmp/in.wav"), vec!["-m", "/m/sensevoice-small-q8.gguf", "-a", "/tmp/in.wav"]);
}

#[test]
fn command_args_for_f16_with_vad() {
    let w = LocalWhisper::assemble("/b", "/m/sensevoice-small-f16.gguf", "/models", true);
    assert!(w.keeps_tags());
    let vad = joined("/models", "fsmn-vad.gguf");
    assert_eq!(
        w.command_args("a.wav"),
        vec!["-m".to_string(), "/m/sensevoice-small-f16.gguf".into(), "-a".into(), "a.wav".into(), "--keep-tags".into(), "--vad".into(), vad]
    );
}

#[test]
fn f16_detection_matches_exact_file_name() {
    let custom = LocalWhisper::assemble("/b", "/models-f16/custom.gguf", "/m", false);
    assert!(!custom.keeps_tags());
    let other = LocalWhisper::assemble("/b", "/m/my-f16-model.gguf", "/m", false);
    assert!(!other.keeps_tags());
    let dir_named_like_model = LocalWhisper::assemble("/b", "/sensevoice-small-f16.gguf/", "/m", false);
    assert!(dir_named_like_model.keeps_tags());
    let root = LocalWhisper::assemble("/b", "/", "/m", false);
    assert!(!root.keeps_tags());
    let bare = LocalWhisper::assemble("/b", "sensevoice-small-f16.gguf", "/m", false);
    assert!(bare.keeps_tags());
}

#[test]
fn temp_file_names() {
    assert_eq!(temp_wav_file_name(0, 0), "lingyu_input_0_0.wav");
    assert_eq!(temp_wav_file_name(4321, 17), "lingyu_input_4321_17.wav");
    assert_eq!(temp_wav_file_name(u32::MAX, u64::MAX), format!("lingyu_input_{}_{}.wav", u32::MAX, u64::MAX));
    assert_ne!(temp_wav_file_name(12, 3), temp_wav_file_name(1, 23));
    assert_ne!(temp_wav_file_name(7, 1), temp_wav_file_name(7, 2));
}

#[test]
fn files_check_messages() {
    assert_eq!(LocalWhisper::check_files(false, true).unwrap_err(), "FunASR 二进制未找到");
    assert_eq!(LocalWhisper::check_files(false, false).unwrap_err(), "FunASR 二进制未找到");
    assert_eq!(LocalWhisper::check_files(true, false).unwrap_err(), "模型文件未找到");
    assert!(LocalWhisper::check_files(true, true).is_ok());
}

#[test]
fn run_output_is_read() {
    assert_eq!(LocalWhisper::read_output(false, b"ignored", b"boom").unwrap_err(), "FunASR 识别失败：boom");
    assert_eq!(LocalWhisper::read_output(false, b"", b"\xff").unwrap_err(), "FunASR 识别失败：\u{FFFD}");
    assert_eq!(LocalWhisper::read_output(true, "<|zh|>早上好\n".as_bytes(), b"").unwrap(), "早上好");
    assert_eq!(LocalWhisper::read_output(true, b"llama_x\n", b"").unwrap_err(), "识别结果为空");
}

#[test]
fn each_call_gets_its_own_temp_file() {
    let mut names = TempWavNames::new(4242);
    let a = names.next_name().unwrap();
    let b = names.next_name().unwrap();
    let c = names.next_name().unwrap();
    assert_eq!(a, "lingyu_input_4242_0.wav");
    assert_eq!(b, "lingyu_input_4242_1.wav");
    assert_eq!(c, "lingyu_input_4242_2.wav");
}
