//! Where the running copy of the app lives, and what that means for the
//! Screen Recording permission on macOS; the window levels of the overlays.
use vstd::prelude::*;
use crate::text::{contains_seq, occurs_at, seq_contains, seq_starts_with, starts_with};

verus! {

/// NSScreenSaverWindowLevel: above the menu bar, the Dock and fullscreen apps.
pub const OVERLAY_LEVEL: isize = 1000;

/// `screencapture -v` dims everything but the recorded area with windows at
/// level 1499; the recording bar sits just above them so it stays readable
/// and clickable.
pub const RECORDER_LEVEL: isize = 1500;

pub const TRANSLOCATED: &'static str = "translocated";

pub const DISK_IMAGE: &'static str = "disk-image";

/// Why a copy of the app at `exe_path` cannot be granted (or keep)
/// permissions: a Gatekeeper translocation folder, or a mounted volume.
pub open spec fn install_issue_of(exe_path: Seq<char>) -> Option<Seq<char>> {
    if contains_seq(exe_path, "/AppTranslocation/"@) {
        Some(TRANSLOCATED@)
    } else if starts_with(exe_path, "/Volumes/"@) {
        Some(DISK_IMAGE@)
    } else {
        None
    }
}

/// `"translocated"` when Gatekeeper runs a temporary relocated copy,
/// `"disk-image"` when the app runs from a mounted image or external volume,
/// `None` otherwise.
pub fn install_issue_for(exe_path: &str) -> (r: Option<&'static str>)
    ensures
        r is Some <==> install_issue_of(exe_path@) is Some,
        r matches Some(s) ==> Some(s@) == install_issue_of(exe_path@),
{
    if seq_contains(exe_path, "/AppTranslocation/") {
        Some(TRANSLOCATED)
    } else if seq_starts_with(exe_path, "/Volumes/") {
        Some(DISK_IMAGE)
    } else {
        None
    }
}

pub open spec fn issue_place(issue: Seq<char>) -> Seq<char> {
    if issue == TRANSLOCATED@ {
        "a temporary copy made by Gatekeeper"@
    } else {
        "the disk image (or an external volume)"@
    }
}

pub open spec fn install_issue_text(issue: Seq<char>) -> Seq<char> {
    "Socorin is running from "@ + issue_place(issue)
        + ", so macOS cannot grant it the Screen Recording permission. Quit, drag Socorin.app into the Applications folder, eject the disk image and start it from there."@
}

/// The message that tells the user to move the app into Applications.
pub fn install_issue_message(issue: &str) -> (r: String)
    ensures
        r@ == install_issue_text(issue@),
{
    let place = if crate::text::str_eq(issue, TRANSLOCATED) {
        "a temporary copy made by Gatekeeper"
    } else {
        "the disk image (or an external volume)"
    };
    let mut msg = "Socorin is running from ".to_owned();
    msg.append(place);
    msg.append(
        ", so macOS cannot grant it the Screen Recording permission. Quit, drag Socorin.app into the Applications folder, eject the disk image and start it from there.",
    );
    msg
}

/// The recording bar stays above the overlays and above the dimming windows
/// that `screencapture -v` puts at level 1499.
pub proof fn lemma_window_levels_ordered()
    ensures
        RECORDER_LEVEL > OVERLAY_LEVEL,
        RECORDER_LEVEL > 1499,
{
}

/// Whether no character of `s` from `i` on is `c`.
spec fn lacks_from(s: Seq<char>, c: char, i: int) -> bool
    decreases s.len() - i,
{
    i >= s.len() || (s[i] != c && lacks_from(s, c, i + 1))
}

proof fn lemma_lacks_from(s: Seq<char>, c: char, i: int, j: int)
    requires
        0 <= i <= j < s.len(),
        lacks_from(s, c, i),
    ensures
        s[j] != c,
    decreases j - i,
{
    if i < j {
        lemma_lacks_from(s, c, i + 1, j);
    }
}

/// The message says where the app runs (a Gatekeeper copy exactly when it
/// is translocated, else the disk image), and always asks to move it into the
/// Applications folder for the Screen Recording permission.
pub proof fn lemma_install_issue_text(issue: Seq<char>)
    ensures
        contains_seq(install_issue_text(issue), "Gatekeeper"@) <==> issue == TRANSLOCATED@,
        issue != TRANSLOCATED@ ==> contains_seq(
            install_issue_text(issue),
            "the disk image (or an external volume)"@,
        ),
        contains_seq(install_issue_text(issue), "Screen Recording permission"@),
        contains_seq(install_issue_text(issue), "Applications folder"@),
{
    reveal_strlit("Socorin is running from ");
    reveal_strlit("a temporary copy made by Gatekeeper");
    reveal_strlit("the disk image (or an external volume)");
    reveal_strlit(
        ", so macOS cannot grant it the Screen Recording permission. Quit, drag Socorin.app into the Applications folder, eject the disk image and start it from there.",
    );
    reveal_strlit("Gatekeeper");
    reveal_strlit("Screen Recording permission");
    reveal_strlit("Applications folder");
    let m = install_issue_text(issue);
    let k: int = 24 + issue_place(issue).len() as int;
    assert(m.subrange(k + 31, k + 58) =~= "Screen Recording permission"@);
    assert(occurs_at(m, "Screen Recording permission"@, k + 31));
    assert(m.subrange(k + 92, k + 111) =~= "Applications folder"@);
    assert(occurs_at(m, "Applications folder"@, k + 92));
    if issue == TRANSLOCATED@ {
        assert(m.subrange(49, 59) =~= "Gatekeeper"@);
        assert(occurs_at(m, "Gatekeeper"@, 49));
    } else {
        assert(m.subrange(24, 62) =~= "the disk image (or an external volume)"@);
        assert(occurs_at(m, "the disk image (or an external volume)"@, 24));
        assert(m.len() == 220);
        reveal_with_fuel(lacks_from, 12);
        assert(lacks_from(m, 'G', 210));
        assert(lacks_from(m, 'G', 200));
        assert(lacks_from(m, 'G', 190));
        assert(lacks_from(m, 'G', 180));
        assert(lacks_from(m, 'G', 170));
        assert(lacks_from(m, 'G', 160));
        assert(lacks_from(m, 'G', 150));
        assert(lacks_from(m, 'G', 140));
        assert(lacks_from(m, 'G', 130));
        assert(lacks_from(m, 'G', 120));
        assert(lacks_from(m, 'G', 110));
        assert(lacks_from(m, 'G', 100));
        assert(lacks_from(m, 'G', 90));
        assert(lacks_from(m, 'G', 80));
        assert(lacks_from(m, 'G', 70));
        assert(lacks_from(m, 'G', 60));
        assert(lacks_from(m, 'G', 50));
        assert(lacks_from(m, 'G', 40));
        assert(lacks_from(m, 'G', 30));
        assert(lacks_from(m, 'G', 20));
        assert(lacks_from(m, 'G', 10));
        assert(lacks_from(m, 'G', 0));
        if contains_seq(m, "Gatekeeper"@) {
            let at = choose|at: int| occurs_at(m, "Gatekeeper"@, at);
            assert(m.subrange(at, at + 10)[0] == 'G');
            lemma_lacks_from(m, 'G', 0, at);
        }
    }
}

} // verus!
