use socorin::settings::loaded;
use socorin::patch::{update_next, UpdateStep};
use socorin::patch::{merge, setting_key, update_plan, SettingKey, SettingUpdate, UpdatePlan};
use socorin::settings::{
    mark_welcome_shown, normalise, normalise_color, resolve_save_dir, trim_string, AfterCapture, Settings,
    DEFAULT_COLOR, MAX_STROKE,
};
use socorin::prefix::DEFAULT_PREFIX;

const HOME_SHOTS: &str = "/home/me/Pictures/Screenshots";

#[test]
fn normalise_fills_in_and_clamps() {
    let mut s = Settings {
        save_dir: "  ".into(),
        file_prefix: "../x".into(),
        ffmpeg_path: " /opt/ffmpeg ".into(),
        annotation_color: " #ABCDEF ".into(),
        annotation_stroke: 0,
        ..Settings::default()
    };
    normalise(&mut s, HOME_SHOTS);
    assert_eq!(s.save_dir, HOME_SHOTS);
    assert_eq!(s.file_prefix, "x");
    assert_eq!(s.ffmpeg_path, "/opt/ffmpeg");
    assert_eq!(s.annotation_color, "#abcdef");
    assert_eq!(s.annotation_stroke, 1);

    s.annotation_color = "red".into();
    s.annotation_stroke = 200;
    normalise(&mut s, HOME_SHOTS);
    assert_eq!(s.annotation_color, DEFAULT_COLOR);
    assert_eq!(s.annotation_stroke, MAX_STROKE);
}

#[test]
fn normalise_keeps_what_is_already_fine() {
    let mut s = Settings {
        save_dir: " /data/shots ".into(),
        update_available: " 1.2.3 ".into(),
        annotation_stroke: 4,
        ..Settings::default()
    };
    normalise(&mut s, HOME_SHOTS);
    // A configured folder is kept as written (it is trimmed where it is used).
    assert_eq!(s.save_dir, " /data/shots ");
    assert_eq!(s.update_available, "1.2.3");
    assert_eq!(s.annotation_stroke, 4);
    assert_eq!(s.file_prefix, DEFAULT_PREFIX);
    assert_eq!(s.hotkey, "CmdOrCtrl+Shift+A");
    let first = format!("{:?}", s);
    normalise(&mut s, HOME_SHOTS);
    assert_eq!(format!("{:?}", s), first);
}

#[test]
fn colours_must_be_six_hex_digits() {
    assert_eq!(normalise_color("#A1b2C3"), "#a1b2c3");
    assert_eq!(normalise_color("#12345"), DEFAULT_COLOR);
    assert_eq!(normalise_color("#1234567"), DEFAULT_COLOR);
    assert_eq!(normalise_color("123456#"), DEFAULT_COLOR);
    assert_eq!(normalise_color("#12345g"), DEFAULT_COLOR);
    assert_eq!(normalise_color("#ééé"), DEFAULT_COLOR);
    assert_eq!(normalise_color("\t#FFFFFF\n"), "#ffffff");
}

#[test]
fn defaults_turn_on_login_and_update_checks_only() {
    let d = Settings::default();
    assert!(d.autostart);
    assert!(d.check_updates);
    assert!(!d.auto_update);
    assert!(!d.cli_triggers);
    assert!(d.copy_on_save);
    assert_eq!(d.after_capture, AfterCapture::Editor);
    assert_eq!(d.annotation_stroke, 3);
    assert_eq!(d.annotation_color, "#ff3b30");
    assert_eq!(d.file_prefix, "Socorin");
    assert_eq!((d.update_checked_at, d.update_available.as_str(), d.last_version.as_str()), (0, "", ""));
}

#[test]
fn the_save_folder_falls_back_to_the_default() {
    assert_eq!(resolve_save_dir("  ", HOME_SHOTS), HOME_SHOTS);
    assert_eq!(resolve_save_dir(" /data ", HOME_SHOTS), "/data");
    assert_eq!(trim_string("\u{2003} a b \u{2029}"), "a b");
}

#[test]
fn the_welcome_is_marked_once() {
    let mut s = Settings::default();
    assert!(mark_welcome_shown(&mut s));
    assert!(s.welcome_shown);
    assert!(!mark_welcome_shown(&mut s));
    assert!(s.welcome_shown);
}

#[test]
fn keys_are_the_camel_case_names() {
    assert_eq!(setting_key("hotkey"), Some(SettingKey::Hotkey));
    assert_eq!(setting_key("afterCapture"), Some(SettingKey::AfterCapture));
    assert_eq!(setting_key("annotationStroke"), Some(SettingKey::AnnotationStroke));
    assert_eq!(setting_key("ffmpegPath"), Some(SettingKey::FfmpegPath));
    assert_eq!(setting_key("lastVersion"), Some(SettingKey::LastVersion));
    assert_eq!(setting_key("after_capture"), None);
    assert_eq!(setting_key("Hotkey"), None);
    assert_eq!(setting_key(""), None);
}

#[test]
fn merge_changes_only_the_given_settings() {
    let base = Settings { annotation_color: "#123456".into(), ..Settings::default() };
    let merged = merge(
        base,
        vec![
            SettingUpdate::Hotkey("F6".into()),
            SettingUpdate::AfterCapture(AfterCapture::Clipboard),
            SettingUpdate::AnnotationStroke(9),
            SettingUpdate::AnnotationStroke(2),
        ],
    );
    assert_eq!(merged.hotkey, "F6");
    assert_eq!(merged.after_capture, AfterCapture::Clipboard);
    assert_eq!(merged.annotation_stroke, 2);
    assert_eq!(merged.annotation_color, "#123456");
    assert_eq!(merged.file_prefix, "Socorin");
    assert!(merged.autostart);
    let same = merge(Settings::default(), vec![]);
    assert_eq!(format!("{:?}", same), format!("{:?}", Settings::default()));
}

#[test]
fn an_update_says_what_else_to_do() {
    let s = Settings { ffmpeg_path: "/opt/ffmpeg".into(), autostart: false, ..Settings::default() };
    assert_eq!(
        update_plan(&vec![SettingKey::FfmpegPath, SettingKey::Hotkey, SettingKey::Autostart], &s),
        UpdatePlan { check_ffmpeg: true, register_hotkeys: true, login_item: Some(false) }
    );
    let empty = Settings::default();
    assert_eq!(
        update_plan(&vec![SettingKey::FfmpegPath, SettingKey::RecordHotkey], &empty),
        UpdatePlan { check_ffmpeg: false, register_hotkeys: false, login_item: None }
    );
    assert_eq!(
        update_plan(&vec![SettingKey::FullscreenHotkey], &empty),
        UpdatePlan { check_ffmpeg: false, register_hotkeys: true, login_item: None }
    );
}

#[test]
fn an_update_registers_hotkeys_then_the_login_item_then_saves() {
    let plan = UpdatePlan { check_ffmpeg: false, register_hotkeys: true, login_item: Some(false) };
    assert!(matches!(update_next(plan, None, false, None), UpdateStep::RegisterHotkeys));
    match update_next(plan, Some(Err("cannot register Nope+".into())), false, None) {
        UpdateStep::RestoreHotkeys(e) => assert_eq!(e, "cannot register Nope+"),
        other => panic!("{other:?}"),
    }
    assert!(matches!(update_next(plan, Some(Ok(())), false, None), UpdateStep::SetLoginItem(false)));
    assert!(matches!(update_next(plan, Some(Ok(())), true, None), UpdateStep::Save));
    assert!(matches!(update_next(plan, Some(Ok(())), true, Some(Ok(()))), UpdateStep::Commit));
    match update_next(plan, Some(Ok(())), true, Some(Err("disk full".into()))) {
        UpdateStep::Fail(e) => assert_eq!(e, "disk full"),
        other => panic!("{other:?}"),
    }
    let plain = UpdatePlan { check_ffmpeg: false, register_hotkeys: false, login_item: None };
    assert!(matches!(update_next(plain, None, false, None), UpdateStep::Save));
}

#[test]
fn loads_defaults_without_a_file() {
    let s = loaded(None, HOME_SHOTS);
    assert_eq!(s.hotkey, "CmdOrCtrl+Shift+A");
    assert_eq!(s.save_dir, HOME_SHOTS);
    let from_file = Settings { autostart: false, file_prefix: " ..Shot.. ".into(), ..Settings::default() };
    let s = loaded(Some(from_file), HOME_SHOTS);
    assert!(!s.autostart);
    assert_eq!(s.file_prefix, "Shot");
}

/// Runs an update the way the app does, feeding back the given outcomes.
fn run_update(plan: UpdatePlan, hotkeys: Result<(), String>, saved: Result<(), String>) -> Vec<UpdateStep> {
    let (mut h, mut login, mut s) = (None, false, None);
    let mut steps = Vec::new();
    loop {
        let step = update_next(plan, h.clone(), login, s.clone());
        let done = matches!(step, UpdateStep::RestoreHotkeys(_) | UpdateStep::Commit | UpdateStep::Fail(_));
        match &step {
            UpdateStep::RegisterHotkeys => h = Some(hotkeys.clone()),
            UpdateStep::SetLoginItem(_) => login = true,
            UpdateStep::Save => s = Some(saved.clone()),
            _ => {}
        }
        steps.push(step);
        if done || steps.len() > 10 {
            return steps;
        }
    }
}

#[test]
fn every_update_ends_once_and_writes_only_accepted_hotkeys() {
    for register_hotkeys in [false, true] {
        for login_item in [None, Some(true)] {
            for hotkeys_ok in [false, true] {
                for saved_ok in [false, true] {
                    let plan = UpdatePlan { check_ffmpeg: false, register_hotkeys, login_item };
                    let hotkeys = if hotkeys_ok { Ok(()) } else { Err("taken".to_string()) };
                    let saved = if saved_ok { Ok(()) } else { Err("disk full".to_string()) };
                    let steps = run_update(plan, hotkeys, saved);
                    let ends = |s: &UpdateStep| matches!(s, UpdateStep::RestoreHotkeys(_) | UpdateStep::Commit | UpdateStep::Fail(_));
                    assert!(steps.len() <= 4);
                    assert!(steps[..steps.len() - 1].iter().all(|s| !ends(s)));
                    let refused = register_hotkeys && !hotkeys_ok;
                    let last = steps.last().unwrap();
                    if refused {
                        assert!(matches!(last, UpdateStep::RestoreHotkeys(e) if e == "taken"));
                    } else if saved_ok {
                        assert!(matches!(last, UpdateStep::Commit));
                    } else {
                        assert!(matches!(last, UpdateStep::Fail(e) if e == "disk full"));
                    }
                    assert_eq!(steps.iter().any(|s| matches!(s, UpdateStep::Save)), !refused);
                }
            }
        }
    }
}
