use socorin::startup::{dismissed_on_blur, keeps_running, on_close_requested, CloseAction, WindowRole};
use socorin::platform::is_wayland_session;
use socorin::startup::{cli_action, registers_login_item, CliAction};

fn args(list: &[&str]) -> Vec<String> {
    std::iter::once("socorin".to_string()).chain(list.iter().map(|s| s.to_string())).collect()
}

#[test]
fn capture_triggers_are_ignored_until_the_user_allows_them() {
    for flag in ["--capture", "--capture-full", "--record", "--record-full"] {
        assert_eq!(cli_action(&args(&[flag]), false, true), CliAction::Refused);
        assert_eq!(cli_action(&args(&[flag]), false, false), CliAction::Refused);
    }
}

#[test]
fn allowed_triggers_reach_the_capture_and_record_entry_points() {
    assert_eq!(cli_action(&args(&["--capture"]), true, false), CliAction::CaptureRegion);
    assert_eq!(cli_action(&args(&["--capture-full"]), true, false), CliAction::CaptureFullscreen);
    assert_eq!(cli_action(&args(&["--record"]), true, false), CliAction::RecordRegion);
    assert_eq!(cli_action(&args(&["--record-full"]), true, false), CliAction::RecordFullscreen);
    // The first flag in the fixed order wins.
    assert_eq!(cli_action(&args(&["--record", "--capture"]), true, false), CliAction::CaptureRegion);
}

#[test]
fn housekeeping_flags_work_without_the_switch() {
    assert_eq!(cli_action(&args(&["--cancel"]), false, false), CliAction::CancelCapture);
    assert_eq!(cli_action(&args(&["--stop-record"]), false, false), CliAction::StopRecording);
    assert_eq!(cli_action(&args(&["--minimized"]), false, true), CliAction::Nothing);
    assert_eq!(cli_action(&args(&[]), false, true), CliAction::ShowSettings);
    assert_eq!(cli_action(&args(&[]), false, false), CliAction::Nothing);
    // A trigger next to a housekeeping flag is still refused while off.
    assert_eq!(cli_action(&args(&["--cancel", "--record"]), false, false), CliAction::Refused);
}

#[test]
fn the_login_item_follows_the_setting_at_startup() {
    assert!(!registers_login_item(false, None));
    assert!(registers_login_item(true, None));
    assert!(!registers_login_item(true, Some("disk-image")));
}

#[test]
fn wayland_is_detected_from_the_session_type() {
    assert!(is_wayland_session(true, Some("wayland")));
    assert!(is_wayland_session(true, Some("Wayland")));
    assert!(!is_wayland_session(true, Some("x11")));
    assert!(!is_wayland_session(true, None));
    assert!(!is_wayland_session(false, Some("wayland")));
}

#[test]
fn closing_windows_keeps_the_tray_app_alive() {
    assert_eq!(on_close_requested(WindowRole::Main), CloseAction::Hide);
    assert_eq!(on_close_requested(WindowRole::Welcome), CloseAction::CloseAndMarkWelcomeShown);
    assert_eq!(on_close_requested(WindowRole::Update), CloseAction::Close);
    assert_eq!(on_close_requested(WindowRole::Other), CloseAction::Close);
    assert!(dismissed_on_blur(WindowRole::Update));
    assert!(!dismissed_on_blur(WindowRole::Main));
    assert!(keeps_running(None));
    assert!(!keeps_running(Some(0)));
}
