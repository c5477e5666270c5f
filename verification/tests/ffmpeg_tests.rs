use socorin::ffmpeg::{
    check_ffmpeg, configured_ffmpeg, ffmpeg_candidates, ffmpeg_search_places, is_ffmpeg_name, keep_places, Platform,
    SearchEnv,
};
use std::path::Path;

#[test]
fn a_configured_ffmpeg_is_checked_by_name_then_place() {
    assert_eq!(configured_ffmpeg("/opt/bin/ffmpeg", true).unwrap(), "/opt/bin/ffmpeg");
    assert_eq!(configured_ffmpeg("/opt/bin/FFmpeg.EXE", true).unwrap(), "/opt/bin/FFmpeg.EXE");
    for wrong in ["/opt/bin/sh", "/opt/bin/ffmpeg.sh", "/opt/bin", "/opt/bin/ffmpeg-dir"] {
        let err = configured_ffmpeg(wrong, true).unwrap_err();
        assert!(err.contains("not an ffmpeg"), "{wrong}: {err}");
        assert!(err.starts_with(wrong));
    }
    let err = configured_ffmpeg("/opt/missing/ffmpeg", false).unwrap_err();
    assert!(err.contains("not found"), "{err}");
    let err = configured_ffmpeg("ffmpeg", true).unwrap_err();
    assert!(err.contains("not found"), "relative names are not searched: {err}");
    assert_eq!(
        configured_ffmpeg("bin/ffmpeg", true).unwrap_err(),
        "ffmpeg not found at bin/ffmpeg (Settings → Recording); leave the field empty to search for it."
    );
}

/// The stem and extension come from `std::path::Path` on this platform.
#[test]
fn ffmpeg_names_agree_with_std_paths() {
    let cases = [
        "ffmpeg", "/usr/bin/ffmpeg", "/usr/bin/ffmpeg/", "/usr/bin/ffmpeg/.", "/usr/bin/ffmpeg/..", "ffmpeg.exe",
        "FFMPEG", "ffmpeg.EXE", "ffmpeg.", "ffmpeg..exe", ".ffmpeg", ".ffmpeg.exe", "ffmpeg.exe.exe", "/", "", ".",
        "..", "a/../ffmpeg", "ffmpeg//", "./ffmpeg", "ffmpeg.tar.gz", "ffmpegx", "ffmpe", "ﬀmpeg", "ffmpeg.ex",
        "/x/ffmpeg.exe/./", "ffmpeg\\x",
    ];
    for c in cases {
        let p = Path::new(c);
        let named = p.file_stem().map(|s| s.eq_ignore_ascii_case("ffmpeg")).unwrap_or(false)
            && p.extension().map_or(true, |e| e.eq_ignore_ascii_case("exe"));
        let accepted = named && p.is_absolute();
        assert_eq!(configured_ffmpeg(c, true).is_ok(), accepted, "{c:?}");
        if !named {
            assert!(configured_ffmpeg(c, true).unwrap_err().contains("not an ffmpeg"), "{c:?}");
        }
    }
}

#[test]
fn the_check_takes_the_platform_parts() {
    // A Windows path, as `std::path` takes it apart on Windows.
    let c = "C:\\tools\\ffmpeg.exe";
    assert_eq!(check_ffmpeg(c, Some("ffmpeg"), Some("exe"), true, true).unwrap(), c);
    assert!(check_ffmpeg(c, Some("ffmpeg"), Some("exe"), true, false).unwrap_err().contains("not found"));
    assert!(check_ffmpeg(c, Some("ffmpeg"), Some("exe"), false, true).unwrap_err().contains("not found"));
    assert!(check_ffmpeg(c, Some("ffmpeg"), Some("sh"), true, true).unwrap_err().contains("not an ffmpeg"));
    assert!(check_ffmpeg(c, None, None, true, true).unwrap_err().contains("not an ffmpeg"));
    assert!(is_ffmpeg_name(Some("FFmpeg"), None));
    assert!(is_ffmpeg_name(Some("ffmpeg"), Some("EXE")));
    assert!(!is_ffmpeg_name(Some("ffmpeg"), Some("")));
    assert!(!is_ffmpeg_name(Some("ffmpeg-x"), None));
}

fn no_env() -> SearchEnv {
    SearchEnv { program_files: None, program_w6432: None, program_files_x86: None, program_data: None, system_drive: None }
}

fn flat(places: Vec<socorin::ffmpeg::SearchPlace>) -> Vec<(String, Vec<String>)> {
    places.into_iter().map(|p| (p.base, p.parts)).collect()
}

fn s(v: &[&str]) -> Vec<String> {
    v.iter().map(|x| x.to_string()).collect()
}

#[test]
fn ffmpeg_is_looked_for_in_the_usual_places_then_on_path() {
    let dirs = s(&["/opt/bin", "relative/bin", "/home/me/bin/", ""]);
    assert_eq!(
        flat(ffmpeg_search_places(Platform::Linux, &no_env(), &dirs)),
        vec![
            ("/usr/bin".to_string(), s(&["ffmpeg"])),
            ("/usr/local/bin".to_string(), s(&["ffmpeg"])),
            ("/snap/bin".to_string(), s(&["ffmpeg"])),
            ("/var/lib/flatpak/exports/bin".to_string(), s(&["ffmpeg"])),
            ("/opt/bin".to_string(), s(&["ffmpeg"])),
            ("/home/me/bin/".to_string(), s(&["ffmpeg"])),
        ]
    );
    assert!(flat(ffmpeg_search_places(Platform::MacOs, &no_env(), &s(&["relative"]))).is_empty());
}

#[test]
fn windows_looks_under_the_program_folders() {
    let env = SearchEnv {
        program_files: Some("C:\\Program Files".into()),
        program_w6432: None,
        program_files_x86: Some("C:\\Program Files (x86)".into()),
        program_data: Some("C:\\ProgramData".into()),
        system_drive: Some("C:".into()),
    };
    let dirs = s(&["C:\\bin", "bin", "D:\\tools"]);
    let candidates = ffmpeg_candidates(Platform::Windows, &env, &dirs);
    assert_eq!(
        flat(keep_places(&candidates, &vec![true; 7])),
        vec![
            ("C:\\Program Files".to_string(), s(&["ffmpeg", "bin", "ffmpeg.exe"])),
            ("C:\\Program Files (x86)".to_string(), s(&["ffmpeg", "bin", "ffmpeg.exe"])),
            ("C:\\ProgramData".to_string(), s(&["chocolatey", "bin", "ffmpeg.exe"])),
            ("C:\\ffmpeg\\bin".to_string(), s(&["ffmpeg.exe"])),
            ("C:\\bin".to_string(), s(&["ffmpeg.exe"])),
            ("bin".to_string(), s(&["ffmpeg.exe"])),
            ("D:\\tools".to_string(), s(&["ffmpeg.exe"])),
        ]
    );
    // As `Path::is_absolute` judges them on Windows.
    let absolute = vec![true, true, true, true, true, false, true];
    assert_eq!(
        flat(keep_places(&candidates, &absolute)),
        vec![
            ("C:\\Program Files".to_string(), s(&["ffmpeg", "bin", "ffmpeg.exe"])),
            ("C:\\Program Files (x86)".to_string(), s(&["ffmpeg", "bin", "ffmpeg.exe"])),
            ("C:\\ProgramData".to_string(), s(&["chocolatey", "bin", "ffmpeg.exe"])),
            ("C:\\ffmpeg\\bin".to_string(), s(&["ffmpeg.exe"])),
            ("C:\\bin".to_string(), s(&["ffmpeg.exe"])),
            ("D:\\tools".to_string(), s(&["ffmpeg.exe"])),
        ]
    );
}

/// Install variables set to a path that is not absolute here supply no place.
#[test]
fn relative_install_variables_are_skipped() {
    let env = SearchEnv {
        program_files: Some("/opt/programs".into()),
        program_w6432: Some("programs".into()),
        program_files_x86: None,
        program_data: Some("data".into()),
        system_drive: Some("C:".into()),
    };
    let places = flat(ffmpeg_search_places(Platform::Windows, &env, &s(&["/opt/bin", "bin"])));
    let expected_here: Vec<(String, Vec<String>)> = [
        ("/opt/programs", vec!["ffmpeg", "bin", "ffmpeg.exe"]),
        ("programs", vec!["ffmpeg", "bin", "ffmpeg.exe"]),
        ("data", vec!["chocolatey", "bin", "ffmpeg.exe"]),
        ("C:\\ffmpeg\\bin", vec!["ffmpeg.exe"]),
        ("/opt/bin", vec!["ffmpeg.exe"]),
        ("bin", vec!["ffmpeg.exe"]),
    ]
    .into_iter()
    .filter(|(base, _)| Path::new(base).is_absolute())
    .map(|(base, parts)| (base.to_string(), s(&parts)))
    .collect();
    assert_eq!(places, expected_here);
    assert!(places.iter().all(|(base, _)| Path::new(base).is_absolute()));
    assert!(!places.iter().any(|(base, _)| base == "programs" || base == "data" || base == "bin"));
}
