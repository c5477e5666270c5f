use socorin::prefix::{sanitise_prefix, DEFAULT_PREFIX, MAX_PREFIX_LEN};

#[test]
fn keeps_ordinary_prefixes() {
    assert_eq!(sanitise_prefix("Socorin"), "Socorin");
    assert_eq!(sanitise_prefix("Screenshot"), "Screenshot");
    assert_eq!(sanitise_prefix("  shot v1.2 "), "shot v1.2");
    assert_eq!(sanitise_prefix("ảnh màn hình"), "ảnh màn hình");
}

#[test]
fn cannot_leave_the_save_folder() {
    assert_eq!(sanitise_prefix("../../Desktop/x"), "Desktopx");
    assert_eq!(sanitise_prefix(".."), DEFAULT_PREFIX);
    assert_eq!(sanitise_prefix("/etc/passwd"), "etcpasswd");
    assert_eq!(sanitise_prefix("C:\\Users\\me"), "CUsersme");
    assert_eq!(sanitise_prefix("..\\..\\x"), "x");
}

#[test]
fn drops_hidden_and_windows_reserved_characters() {
    assert_eq!(sanitise_prefix(".hidden"), "hidden");
    assert_eq!(sanitise_prefix("a<b>c:d\"e|f?g*h"), "abcdefgh");
    assert_eq!(sanitise_prefix("tab\there\n"), "tabhere");
    assert_eq!(sanitise_prefix(""), DEFAULT_PREFIX);
    assert_eq!(sanitise_prefix("   "), DEFAULT_PREFIX);
}

#[test]
fn is_bounded() {
    assert_eq!(sanitise_prefix(&"x".repeat(500)).len(), 64);
}

#[test]
fn the_bound_counts_kept_characters_not_bytes() {
    // Dropped characters do not use up the bound; multi-byte ones count once.
    let raw = format!("{}{}", "/".repeat(100), "é".repeat(70));
    let out = sanitise_prefix(&raw);
    assert_eq!(out.chars().count(), MAX_PREFIX_LEN);
    assert_eq!(out, "é".repeat(64));
}

#[test]
fn trimming_happens_after_the_bound() {
    // The 64 kept characters end in spaces, which are then trimmed.
    let raw = format!("{}{}{}", "a".repeat(60), " ".repeat(10), "b");
    assert_eq!(sanitise_prefix(&raw), "a".repeat(60));
}

#[test]
fn unicode_whitespace_and_control_characters() {
    assert_eq!(sanitise_prefix("\u{3000}name\u{a0}"), "name");
    assert_eq!(sanitise_prefix("na\u{85}me\u{7f}"), "name");
    assert_eq!(sanitise_prefix("\u{1f}x\u{9f}"), "x");
    // Zero-width space is not White_Space: it stays.
    assert_eq!(sanitise_prefix("\u{200b}x"), "\u{200b}x");
}

#[test]
fn dots_and_spaces_go_from_both_ends_together() {
    assert_eq!(sanitise_prefix(". .x"), "x");
    assert_eq!(sanitise_prefix("x. . "), "x");
    assert_eq!(sanitise_prefix(" . .. . "), DEFAULT_PREFIX);
    assert_eq!(sanitise_prefix("a . b"), "a . b");
    for raw in [". .x", ". .. .", " .\u{3000}.hidden. ", "x. ."] {
        let once = sanitise_prefix(raw);
        assert!(!once.starts_with('.') && !once.ends_with('.'), "{raw:?}: {once:?}");
        assert_eq!(sanitise_prefix(&once), once);
    }
}

#[test]
fn a_plain_prefix_is_kept_and_sanitising_is_stable() {
    for raw in ["Shot", "a b", "x.y", "../weird/../name", " spaced ", ". .x", ".x"] {
        let once = sanitise_prefix(raw);
        assert_eq!(sanitise_prefix(&once), once);
    }
}

/// Whether `sub` is `s` with some characters left out.
fn is_subsequence(sub: &str, s: &str) -> bool {
    let mut rest = s.chars();
    sub.chars().all(|c| rest.any(|d| d == c))
}

#[test]
fn sanitising_only_leaves_characters_out() {
    for raw in [" a/b:c. ", "..\\..\\x", "shot v1.2", "<<my|file>>", "\u{7}bell", "ảnh/màn", "..", "   ", ""] {
        let r = sanitise_prefix(raw);
        assert!(r == DEFAULT_PREFIX || is_subsequence(&r, raw), "{raw:?} -> {r:?}");
    }
    assert_eq!(sanitise_prefix(" a/b:c. "), "abc");
    assert_eq!(sanitise_prefix("<<my|file>>"), "myfile");
}
