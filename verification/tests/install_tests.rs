use socorin::install::{
    install_issue_for, install_issue_message, DISK_IMAGE, OVERLAY_LEVEL, RECORDER_LEVEL, TRANSLOCATED,
};

#[test]
fn detects_where_permissions_cannot_stick() {
    assert_eq!(install_issue_for("/Applications/Socorin.app/Contents/MacOS/socorin"), None);
    assert_eq!(install_issue_for("/Users/me/dev/target/release/socorin"), None);
    assert_eq!(install_issue_for("/Volumes/Socorin/Socorin.app/Contents/MacOS/socorin"), Some("disk-image"));
    assert_eq!(
        install_issue_for("/private/var/folders/xx/T/AppTranslocation/1F2E/d/Socorin.app/Contents/MacOS/socorin"),
        Some("translocated")
    );
}

#[test]
fn translocation_wins_over_a_volume_and_needs_both_slashes() {
    assert_eq!(install_issue_for("/Volumes/X/AppTranslocation/a"), Some(TRANSLOCATED));
    assert_eq!(install_issue_for("/x/AppTranslocation"), None);
    assert_eq!(install_issue_for("Volumes/x"), None);
    assert_eq!(install_issue_for("/Volumes/"), Some(DISK_IMAGE));
    assert_eq!(install_issue_for(""), None);
}

#[test]
fn a_normal_install_has_no_issue_and_the_messages_name_the_place() {
    // A binary built under target/, as the test binary is.
    assert_eq!(install_issue_for("/home/me/socorin/target/debug/deps/install_tests-0f1e2d3c"), None);
    let msg = install_issue_message("translocated");
    assert!(msg.contains("Gatekeeper"));
    let msg = install_issue_message("disk-image");
    assert!(msg.contains("disk image"));
}

#[test]
fn the_message_tells_what_to_do() {
    assert_eq!(
        install_issue_message("translocated"),
        "Socorin is running from a temporary copy made by Gatekeeper, so macOS cannot grant it the Screen Recording permission. Quit, drag Socorin.app into the Applications folder, eject the disk image and start it from there."
    );
    assert!(install_issue_message("anything").starts_with("Socorin is running from the disk image (or an external volume), so"));
}

#[test]
fn window_levels_are_ordered_over_the_system_dimming() {
    assert!(RECORDER_LEVEL > OVERLAY_LEVEL);
    assert!(RECORDER_LEVEL > 1499);
}
