use lingyu::hotkey::{
    find_shortcut, helper_timer_action, raw_key_event, shortcut_from_file, shortcut_index, shortcut_keys,
    shortcut_vk, HelperTimerAction, HELPER_EXIT_SIGNAL,
};
use lingyu::session::{
    choose_local_model, clipboard_feedback, clipboard_open_failed, clipboard_set_result, edge_action,
    first_run_plan, local_menu, local_step, window_placement, ClipboardStep, Edge, HotkeyPoll, LocalStep,
    Placement, RuntimeSettings, Session, StartDecision, State,
};
use lingyu::config::{Config, TranscriptionService};
use std::path::Path;

#[test]
fn function_keys_map_to_virtual_keys() {
    assert_eq!(shortcut_keys().len(), 12);
    assert_eq!(shortcut_vk("F1"), 0x70);
    assert_eq!(shortcut_vk("F6"), 0x75);
    assert_eq!(shortcut_vk("F10"), 0x79);
    assert_eq!(shortcut_vk("F12"), 0x7B);
    assert_eq!(shortcut_vk("F13"), 0x79);
    assert_eq!(shortcut_vk("f1"), 0x79);
    assert_eq!(shortcut_vk(""), 0x79);
    for (i, k) in shortcut_keys().iter().enumerate() {
        assert_eq!(shortcut_vk(k), 0x70 + i as u32);
        assert_eq!(shortcut_index(k), i);
        assert_eq!(find_shortcut(k), Some(i));
    }
}

#[test]
fn dialog_preselects_active_key() {
    assert_eq!(shortcut_index("F3"), 2);
    assert_eq!(shortcut_index("bogus"), 9);
    for name in ["F1", "F7", "F12", "bogus", ""] {
        assert_eq!(shortcut_vk(shortcut_keys()[shortcut_index(name)]), shortcut_vk(name));
    }
}

#[test]
fn shortcut_file_content() {
    assert_eq!(shortcut_from_file(Some(" F5\r\n")), "F5");
    assert_eq!(shortcut_from_file(Some("F11")), "F11");
    assert_eq!(shortcut_from_file(None), "F10");
    assert_eq!(shortcut_from_file(Some("")), "");
}

fn raw(dw_type: u32, flags: u16, vkey: u16) -> [u8; 64] {
    let mut b = [0u8; 64];
    b[0..4].copy_from_slice(&dw_type.to_le_bytes());
    b[26..28].copy_from_slice(&flags.to_le_bytes());
    b[30..32].copy_from_slice(&vkey.to_le_bytes());
    b
}

#[test]
fn raw_input_events() {
    let down = raw(1, 0, 0x79);
    let up = raw(1, 1, 0x79);
    assert_eq!(raw_key_event(&down, 40, 40, 36, 0x79), Some(true));
    assert_eq!(raw_key_event(&up, 40, 40, 36, 0x79), Some(false));
    assert_eq!(raw_key_event(&raw(1, 2, 0x79), 40, 40, 36, 0x79), Some(true));
    assert_eq!(raw_key_event(&down, 40, 40, 36, 0x70), None);
    assert_eq!(raw_key_event(&raw(0, 0, 0x79), 40, 40, 36, 0x79), None);
    assert_eq!(raw_key_event(&down, 40, 36, 40, 0x79), None);
    assert_eq!(raw_key_event(&down, 0xFFFF_FFFF, 40, 36, 0x79), None);
}

#[test]
fn helper_timer_decisions() {
    assert_eq!(helper_timer_action(HELPER_EXIT_SIGNAL, 0x70, 0x79), HelperTimerAction::Quit);
    assert_eq!(helper_timer_action(0, 0x70, 0x79), HelperTimerAction::Reregister(0x70));
    assert_eq!(helper_timer_action(1, 0x79, 0x79), HelperTimerAction::Keep);
}

#[test]
fn push_to_talk_cycle() {
    let mut s = Session::new();
    assert_eq!(s.request_start(), (StartDecision::Start, None));
    let f = s.recording_started(Ok(()), false);
    assert_eq!(f.status.as_deref(), Some("录音中..."));
    assert_eq!(s.state, State::Recording);
    assert_eq!(s.request_start().0, StartDecision::Busy);
    assert!(s.request_stop());
    let f = s.recording_stopped(Ok(()));
    assert_eq!(f.status.as_deref(), Some("识别中..."));
    assert_eq!(s.state, State::Processing);
    assert!(!s.request_stop());
    let o = s.transcription_finished(Ok("你好".to_string()));
    assert_eq!(s.state, State::Idle);
    assert_eq!(o.copy.as_deref(), Some("你好"));
    assert_eq!(o.save.as_deref(), Some("你好"));
    assert_eq!(o.log, None);
    assert!(!o.error_status);
    assert_eq!(o.hide_after_secs, 2);
}

#[test]
fn recording_refused_while_downloading() {
    let mut s = Session::new();
    s.set_downloading(true);
    let (d, status) = s.request_start();
    assert_eq!(d, StartDecision::Downloading);
    assert_eq!(status.as_deref(), Some("模型下载中，请稍候..."));
    s.set_downloading(false);
    assert_eq!(s.request_start().0, StartDecision::Start);
}

#[test]
fn recorder_failures() {
    let mut s = Session::new();
    let f = s.recording_started(Err("没有输入设备".to_string()), true);
    assert_eq!(s.state, State::Idle);
    assert_eq!(f.status.as_deref(), Some("错误，看日志"));
    assert_eq!(f.log.as_deref(), Some("全局热键录音失败：没有输入设备"));
    let f = s.recording_started(Err("x".to_string()), false);
    assert_eq!(f.log.as_deref(), Some("录音失败：x"));
    s.recording_started(Ok(()), false);
    let f = s.recording_stopped(Err("未录制到音频".to_string()));
    assert_eq!(s.state, State::Idle);
    assert_eq!(f.status.as_deref(), Some("未录制到音频"));
}

#[test]
fn failed_transcription() {
    let mut s = Session::new();
    s.recording_started(Ok(()), false);
    s.recording_stopped(Ok(()));
    let o = s.transcription_finished(Err("本地引擎未就绪".to_string()));
    assert_eq!(s.state, State::Idle);
    assert_eq!(o.copy, None);
    assert_eq!(o.save, None);
    assert_eq!(o.log.as_deref(), Some("识别失败：本地引擎未就绪"));
    assert!(o.error_status);
    assert_eq!(o.hide_after_secs, 4);
}

#[test]
fn clipboard_result_does_not_affect_history() {
    let mut s = Session::new();
    s.recording_started(Ok(()), false);
    s.recording_stopped(Ok(()));
    let o = s.transcription_finished(Ok("text".to_string()));
    assert_eq!(o.save.as_deref(), Some("text"));
    let f = clipboard_feedback(Err("打开剪贴板失败：busy".to_string()));
    assert_eq!(f.status.as_deref(), Some("错误，看日志"));
    assert_eq!(f.log.as_deref(), Some("复制到剪贴板失败：打开剪贴板失败：busy"));
    assert_eq!(clipboard_feedback(Ok(())).status.as_deref(), Some("已复制"));
}

#[test]
fn cancel_recording() {
    let mut s = Session::new();
    assert!(!s.cancel_recording());
    s.recording_started(Ok(()), false);
    assert!(s.cancel_recording());
    assert_eq!(s.state, State::Idle);
}

#[test]
fn hotkey_poll_edges() {
    let mut p = HotkeyPoll::new();
    assert_eq!(p.tick(false, false, false), (true, Edge::Unchanged));
    assert_eq!(p.tick(true, true, false), (false, Edge::Pressed));
    assert_eq!(p.tick(true, false, true), (false, Edge::Unchanged));
    assert_eq!(p.tick(true, false, false), (false, Edge::Released));
    assert_eq!(p.tick, 4);
    for _ in 0..14 {
        p.tick(false, false, false);
    }
    assert_eq!(p.tick, 18);
    assert_eq!(p.tick(true, false, false).0, false);
    let mut q = HotkeyPoll { was_down: false, tick: 16 };
    assert_eq!(q.tick(false, false, false).0, false);
    assert_eq!(q.tick, 17);
    let mut w = HotkeyPoll { was_down: false, tick: u32::MAX };
    w.tick(false, false, false);
    assert_eq!(w.tick, 0);
}

#[test]
fn edge_actions() {
    assert_eq!(edge_action(Edge::Pressed, State::Idle), Edge::Pressed);
    assert_eq!(edge_action(Edge::Pressed, State::Processing), Edge::Unchanged);
    assert_eq!(edge_action(Edge::Released, State::Recording), Edge::Released);
    assert_eq!(edge_action(Edge::Released, State::Idle), Edge::Unchanged);
    assert_eq!(edge_action(Edge::Unchanged, State::Recording), Edge::Unchanged);
}

#[test]
fn clipboard_retries() {
    let delays: Vec<u64> = (0..4)
        .map(|a| match clipboard_open_failed(a, "locked") {
            ClipboardStep::RetryAfterMs(ms) => ms,
            ClipboardStep::Fail(_) => panic!("gave up too early"),
        })
        .collect();
    assert_eq!(delays, vec![100, 100, 100, 100]);
    match clipboard_open_failed(4, "locked") {
        ClipboardStep::Fail(e) => assert_eq!(e, "打开剪贴板失败：locked"),
        ClipboardStep::RetryAfterMs(_) => panic!("sixth attempt"),
    }
    assert_eq!(clipboard_set_result(Err("x".into())).unwrap_err(), "复制到剪贴板失败：x");
    assert!(clipboard_set_result(Ok(())).is_ok());
}

#[test]
fn first_run_messages() {
    assert!(first_run_plan(true, true).is_none());
    let mut p = first_run_plan(false, false).unwrap();
    assert!(p.need_binary && p.need_vad);
    assert_eq!(p.binary_done(Err("HTTP 404 Not Found".into())), None);
    assert_eq!(p.vad_done(Ok(())), None);
    let mut q = first_run_plan(false, false).unwrap();
    assert_eq!(q.binary_done(Ok(())).as_deref(), Some("FunASR 引擎就绪 ✓"));
    assert_eq!(q.vad_done(Ok(())).as_deref(), Some("所有依赖就绪 ✓"));
    assert_eq!(q.vad_done(Err("保存失败：x".into())), None);
    let r = first_run_plan(true, false).unwrap();
    assert!(!r.need_binary && r.need_vad);
    assert_eq!(r.vad_done(Ok(())).as_deref(), Some("所有依赖就绪 ✓"));
}

#[test]
fn runtime_settings_resolution() {
    let c = Config::from_environment(None, Some("env-key".into()), None, None, None, Some("/d".into()));
    let r = RuntimeSettings::resolve(None, None, None, None, &c);
    assert_eq!(r.active_service, TranscriptionService::Api);
    assert_eq!(r.active_provider, "sensevoice-q8");
    assert_eq!(r.api_base_url, "http://localhost:1234/v1");
    assert_eq!(r.api_key.as_deref(), Some("env-key"));
    assert_eq!(r.api_key_or_empty(), "env-key");
    assert_eq!(r.api_model, "whisper-1");
    let r = RuntimeSettings::resolve(Some("sensevoice-f16".into()), Some("https://s".into()), Some("saved".into()), Some("m2".into()), &c);
    assert_eq!(r.active_service, TranscriptionService::Local);
    assert_eq!(r.active_provider, "sensevoice-f16");
    assert_eq!(r.api_base_url, "https://s");
    assert_eq!(r.api_key.as_deref(), Some("saved"));
    assert_eq!(r.api_model, "m2");
    let r = RuntimeSettings::resolve(Some("local".into()), None, None, None, &c);
    assert_eq!(r.active_service, TranscriptionService::Local);
    let r = RuntimeSettings::resolve(Some("openai".into()), None, None, None, &c);
    assert_eq!(r.active_service, TranscriptionService::Api);
    assert_eq!(r.active_provider, "openai");
    let c2 = Config::from_environment(None, None, None, None, None, None);
    assert_eq!(RuntimeSettings::resolve(None, None, None, None, &c2).api_key_or_empty(), "");
}

#[test]
fn local_model_choice() {
    let c = choose_local_model("sensevoice-f16", "/models").unwrap();
    assert_eq!(c.id, "sensevoice-f16");
    assert_eq!(c.model_path, Path::new("/models").join("sensevoice-small-f16.gguf").to_string_lossy());
    assert!(c.url.ends_with("sensevoice-small-f16.gguf"));
    assert!(choose_local_model("whisper", "/models").is_none());
    assert_eq!(local_step(false, true), LocalStep::EngineMissing);
    assert_eq!(local_step(true, true), LocalStep::Load);
    assert_eq!(local_step(true, false), LocalStep::Download);
}

#[test]
fn local_menu_entries() {
    let m = local_menu(true);
    assert_eq!(m.len(), 2);
    assert_eq!(m[0].label, "SenseVoice Q8 (~242 MB)");
    assert_eq!(m[0].action.as_deref(), Some("app.transcription-mode::sensevoice-q8"));
    assert_eq!(m[1].label, "SenseVoice F16 (~470 MB)");
    let n = local_menu(false);
    assert_eq!(n.len(), 1);
    assert_eq!(n[0].label, "本地引擎未安装");
    assert_eq!(n[0].action, None);
}

#[test]
fn window_positions() {
    assert_eq!(window_placement(Some("10"), Some("-20"), Some((1920, 1080))), Placement::Saved(10, -20));
    assert_eq!(window_placement(Some("10"), None, Some((1920, 1080))), Placement::BottomRight(1820, 960));
    assert_eq!(window_placement(Some("x"), Some("5"), Some((800, 600))), Placement::BottomRight(700, 480));
    assert_eq!(window_placement(None, None, None), Placement::Default);
}
