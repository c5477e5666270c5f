//! What a launch of the app does with its command line, and whether it
//! registers itself as a login item.
//!
//! `--capture` / `--capture-full` trigger a capture, `--record` /
//! `--record-full` / `--stop-record` a recording (handy for binding a
//! desktop-environment shortcut on Wayland, where global hotkeys are not
//! available); `--minimized` (autostart) stays in the tray; anything else on
//! a second launch shows the settings window.
//!
//! The capture / record triggers only work once the user has enabled them in
//! Settings: this app holds the Screen Recording permission, and without the
//! switch any local program could launch it with `--capture-full` to get a
//! screenshot it is not allowed to take itself.
use vstd::prelude::*;
use crate::text::str_eq;

verus! {

/// What the app tells the user when a trigger arrives while they are off.
pub const CLI_TRIGGERS_OFF: &'static str = "Command-line triggers are off. Turn on \"Allow command-line triggers\" under System to use them.";

/// What a launch does with its arguments.
#[derive(Debug, Clone, Copy, PartialEq, Eq, Structural)]
pub enum CliAction {
    /// A trigger arrived while triggers are off: the settings window is shown
    /// with `CLI_TRIGGERS_OFF`, and nothing is captured or recorded.
    Refused,
    CaptureRegion,
    CaptureFullscreen,
    CancelCapture,
    RecordRegion,
    RecordFullscreen,
    StopRecording,
    ShowSettings,
    Nothing,
}

pub open spec fn has_flag(args: Seq<Seq<char>>, flag: Seq<char>) -> bool {
    exists|i: int| 0 <= i < args.len() && args[i] == flag
}

/// The arguments ask for a capture or a recording to start.
pub open spec fn wants_trigger(args: Seq<Seq<char>>) -> bool {
    has_flag(args, "--capture"@) || has_flag(args, "--capture-full"@) || has_flag(args, "--record"@)
        || has_flag(args, "--record-full"@)
}

pub open spec fn cli_action_of(args: Seq<Seq<char>>, cli_triggers: bool, second_instance: bool) -> CliAction {
    if wants_trigger(args) && !cli_triggers {
        CliAction::Refused
    } else if has_flag(args, "--capture"@) {
        CliAction::CaptureRegion
    } else if has_flag(args, "--capture-full"@) {
        CliAction::CaptureFullscreen
    } else if has_flag(args, "--cancel"@) {
        CliAction::CancelCapture
    } else if has_flag(args, "--record"@) {
        CliAction::RecordRegion
    } else if has_flag(args, "--record-full"@) {
        CliAction::RecordFullscreen
    } else if has_flag(args, "--stop-record"@) {
        CliAction::StopRecording
    } else if second_instance && !has_flag(args, "--minimized"@) {
        CliAction::ShowSettings
    } else {
        CliAction::Nothing
    }
}

pub open spec fn arg_views(args: Seq<String>) -> Seq<Seq<char>> {
    args.map_values(|a: String| a@)
}

/// Whether one of `args` (the program name included) is `flag`.
pub fn has_arg(args: &Vec<String>, flag: &str) -> (r: bool)
    ensures
        r == has_flag(arg_views(args@), flag@),
{
    let mut i: usize = 0;
    while i < args.len()
        invariant
            i <= args.len(),
            forall|j: int| 0 <= j < i ==> args@[j]@ != flag@,
        decreases args.len() - i,
    {
        if str_eq(args[i].as_str(), flag) {
            assert(arg_views(args@)[i as int] == flag@);
            return true;
        }
        i = i + 1;
    }
    assert forall|j: int| 0 <= j < args@.len() implies arg_views(args@)[j] != flag@ by {
        assert(arg_views(args@)[j] == args@[j]@);
    }
    false
}

/// What a launch with `args` does; `cli_triggers` is the setting that allows
/// the capture and record triggers, `second_instance` whether the app was
/// already running.
pub fn cli_action(args: &Vec<String>, cli_triggers: bool, second_instance: bool) -> (r: CliAction)
    ensures
        r == cli_action_of(arg_views(args@), cli_triggers, second_instance),
{
    let wants = has_arg(args, "--capture") || has_arg(args, "--capture-full") || has_arg(args, "--record") || has_arg(
        args,
        "--record-full",
    );
    if wants && !cli_triggers {
        CliAction::Refused
    } else if has_arg(args, "--capture") {
        CliAction::CaptureRegion
    } else if has_arg(args, "--capture-full") {
        CliAction::CaptureFullscreen
    } else if has_arg(args, "--cancel") {
        CliAction::CancelCapture
    } else if has_arg(args, "--record") {
        CliAction::RecordRegion
    } else if has_arg(args, "--record-full") {
        CliAction::RecordFullscreen
    } else if has_arg(args, "--stop-record") {
        CliAction::StopRecording
    } else if second_instance && !has_arg(args, "--minimized") {
        CliAction::ShowSettings
    } else {
        CliAction::Nothing
    }
}

/// Whether the app registers itself as a login item at startup: when the
/// setting says so, and not from a copy that macOS cannot grant permissions
/// (a disk image or a translocated copy would only start a stale copy at
/// login). Switching the setting off is handled where it is saved, so nothing
/// is removed here.
pub fn registers_login_item(autostart: bool, install_issue: Option<&str>) -> (r: bool)
    ensures
        r == (autostart && install_issue is None),
{
    autostart && install_issue.is_none()
}

// ---------------------------------------------------------------------------
// Windows and the event loop
// ---------------------------------------------------------------------------

/// The windows whose closing or focus the app handles.
#[derive(Debug, Clone, Copy, PartialEq, Eq, Structural)]
pub enum WindowRole {
    /// The settings window.
    Main,
    /// The first-launch welcome dialog.
    Welcome,
    /// The update popover.
    Update,
    Other,
}

/// What happens when the user asks to close a window.
#[derive(Debug, Clone, Copy, PartialEq, Eq, Structural)]
pub enum CloseAction {
    /// The close is prevented and the window hidden, so the app keeps living
    /// in the tray.
    Hide,
    /// The window closes, and the welcome counts as shown: closed by other
    /// means than OK, it still does not nag again.
    CloseAndMarkWelcomeShown,
    /// The window closes.
    Close,
}

pub fn on_close_requested(role: WindowRole) -> (r: CloseAction)
    ensures
        r == (match role {
            WindowRole::Main => CloseAction::Hide,
            WindowRole::Welcome => CloseAction::CloseAndMarkWelcomeShown,
            _ => CloseAction::Close,
        }),
{
    match role {
        WindowRole::Main => CloseAction::Hide,
        WindowRole::Welcome => CloseAction::CloseAndMarkWelcomeShown,
        _ => CloseAction::Close,
    }
}

/// Whether a window that lost the focus goes away: the update popover does,
/// when the user clicks elsewhere.
pub fn dismissed_on_blur(role: WindowRole) -> (r: bool)
    ensures
        r == (role == WindowRole::Update),
{
    role == WindowRole::Update
}

/// Whether a request to exit is refused: closing the last window (no exit
/// code) must not quit a tray app; an explicit exit goes through.
pub fn keeps_running(exit_code: Option<i32>) -> (r: bool)
    ensures
        r == (exit_code is None),
{
    exit_code.is_none()
}

// ---------------------------------------------------------------------------
// Laws
// ---------------------------------------------------------------------------

/// While the command-line triggers are off, no launch starts a capture or a
/// recording, whatever its arguments.
pub proof fn lemma_triggers_need_the_switch(args: Seq<Seq<char>>, second_instance: bool)
    ensures
        ({
            let a = cli_action_of(args, false, second_instance);
            a != CliAction::CaptureRegion && a != CliAction::CaptureFullscreen && a
                != CliAction::RecordRegion && a != CliAction::RecordFullscreen
        }),
{
}

/// Arguments without a capture or record trigger (`--cancel`,
/// `--stop-record`, `--minimized`, nothing) do the same whether the switch is
/// on or off.
pub proof fn lemma_housekeeping_ignores_the_switch(args: Seq<Seq<char>>, second_instance: bool)
    requires
        !wants_trigger(args),
    ensures
        cli_action_of(args, true, second_instance) == cli_action_of(args, false, second_instance),
{
}

/// With the switch on, a trigger is never refused.
pub proof fn lemma_allowed_triggers_are_not_refused(args: Seq<Seq<char>>, second_instance: bool)
    ensures
        cli_action_of(args, true, second_instance) != CliAction::Refused,
{
}

} // verus!
