//! Partial updates of the settings. Each window only owns a few settings, so
//! a full replace would let a stale copy clobber what another window just
//! saved: an update names the settings it changes (by their camelCase keys,
//! as the webviews send them) and leaves the others alone.
use vstd::prelude::*;
use crate::settings::{AfterCapture, Settings};
use crate::text::str_eq;

verus! {

/// One setting, named by its key.
#[derive(Debug, Clone, Copy, PartialEq, Eq, Structural)]
pub enum SettingKey {
    Hotkey,
    FullscreenHotkey,
    RecordHotkey,
    SaveDir,
    AfterCapture,
    CopyOnSave,
    Autostart,
    CliTriggers,
    FilePrefix,
    FfmpegPath,
    WelcomeShown,
    AnnotationColor,
    AnnotationStroke,
    CheckUpdates,
    AutoUpdate,
    UpdateCheckedAt,
    UpdateAvailable,
    LastVersion,
}

/// A new value for one setting.
#[derive(Debug)]
pub enum SettingUpdate {
    Hotkey(String),
    FullscreenHotkey(String),
    RecordHotkey(String),
    SaveDir(String),
    AfterCapture(AfterCapture),
    CopyOnSave(bool),
    Autostart(bool),
    CliTriggers(bool),
    FilePrefix(String),
    FfmpegPath(String),
    WelcomeShown(bool),
    AnnotationColor(String),
    AnnotationStroke(u8),
    CheckUpdates(bool),
    AutoUpdate(bool),
    UpdateCheckedAt(u64),
    UpdateAvailable(String),
    LastVersion(String),
}

/// The camelCase key of each setting.
pub open spec fn key_of_name(name: Seq<char>) -> Option<SettingKey> {
    if name == "hotkey"@ {
        Some(SettingKey::Hotkey)
    } else if name == "fullscreenHotkey"@ {
        Some(SettingKey::FullscreenHotkey)
    } else if name == "recordHotkey"@ {
        Some(SettingKey::RecordHotkey)
    } else if name == "saveDir"@ {
        Some(SettingKey::SaveDir)
    } else if name == "afterCapture"@ {
        Some(SettingKey::AfterCapture)
    } else if name == "copyOnSave"@ {
        Some(SettingKey::CopyOnSave)
    } else if name == "autostart"@ {
        Some(SettingKey::Autostart)
    } else if name == "cliTriggers"@ {
        Some(SettingKey::CliTriggers)
    } else if name == "filePrefix"@ {
        Some(SettingKey::FilePrefix)
    } else if name == "ffmpegPath"@ {
        Some(SettingKey::FfmpegPath)
    } else if name == "welcomeShown"@ {
        Some(SettingKey::WelcomeShown)
    } else if name == "annotationColor"@ {
        Some(SettingKey::AnnotationColor)
    } else if name == "annotationStroke"@ {
        Some(SettingKey::AnnotationStroke)
    } else if name == "checkUpdates"@ {
        Some(SettingKey::CheckUpdates)
    } else if name == "autoUpdate"@ {
        Some(SettingKey::AutoUpdate)
    } else if name == "updateCheckedAt"@ {
        Some(SettingKey::UpdateCheckedAt)
    } else if name == "updateAvailable"@ {
        Some(SettingKey::UpdateAvailable)
    } else if name == "lastVersion"@ {
        Some(SettingKey::LastVersion)
    } else {
        None
    }
}

/// The setting that a camelCase key names; `None` for a key that names no
/// setting (such a key changes nothing).
pub fn setting_key(name: &str) -> (r: Option<SettingKey>)
    ensures
        r == key_of_name(name@),
{
    if str_eq(name, "hotkey") {
        Some(SettingKey::Hotkey)
    } else if str_eq(name, "fullscreenHotkey") {
        Some(SettingKey::FullscreenHotkey)
    } else if str_eq(name, "recordHotkey") {
        Some(SettingKey::RecordHotkey)
    } else if str_eq(name, "saveDir") {
        Some(SettingKey::SaveDir)
    } else if str_eq(name, "afterCapture") {
        Some(SettingKey::AfterCapture)
    } else if str_eq(name, "copyOnSave") {
        Some(SettingKey::CopyOnSave)
    } else if str_eq(name, "autostart") {
        Some(SettingKey::Autostart)
    } else if str_eq(name, "cliTriggers") {
        Some(SettingKey::CliTriggers)
    } else if str_eq(name, "filePrefix") {
        Some(SettingKey::FilePrefix)
    } else if str_eq(name, "ffmpegPath") {
        Some(SettingKey::FfmpegPath)
    } else if str_eq(name, "welcomeShown") {
        Some(SettingKey::WelcomeShown)
    } else if str_eq(name, "annotationColor") {
        Some(SettingKey::AnnotationColor)
    } else if str_eq(name, "annotationStroke") {
        Some(SettingKey::AnnotationStroke)
    } else if str_eq(name, "checkUpdates") {
        Some(SettingKey::CheckUpdates)
    } else if str_eq(name, "autoUpdate") {
        Some(SettingKey::AutoUpdate)
    } else if str_eq(name, "updateCheckedAt") {
        Some(SettingKey::UpdateCheckedAt)
    } else if str_eq(name, "updateAvailable") {
        Some(SettingKey::UpdateAvailable)
    } else if str_eq(name, "lastVersion") {
        Some(SettingKey::LastVersion)
    } else {
        None
    }
}

impl SettingUpdate {
    pub open spec fn spec_key(self) -> SettingKey {
        match self {
            SettingUpdate::Hotkey(_) => SettingKey::Hotkey,
            SettingUpdate::FullscreenHotkey(_) => SettingKey::FullscreenHotkey,
            SettingUpdate::RecordHotkey(_) => SettingKey::RecordHotkey,
            SettingUpdate::SaveDir(_) => SettingKey::SaveDir,
            SettingUpdate::AfterCapture(_) => SettingKey::AfterCapture,
            SettingUpdate::CopyOnSave(_) => SettingKey::CopyOnSave,
            SettingUpdate::Autostart(_) => SettingKey::Autostart,
            SettingUpdate::CliTriggers(_) => SettingKey::CliTriggers,
            SettingUpdate::FilePrefix(_) => SettingKey::FilePrefix,
            SettingUpdate::FfmpegPath(_) => SettingKey::FfmpegPath,
            SettingUpdate::WelcomeShown(_) => SettingKey::WelcomeShown,
            SettingUpdate::AnnotationColor(_) => SettingKey::AnnotationColor,
            SettingUpdate::AnnotationStroke(_) => SettingKey::AnnotationStroke,
            SettingUpdate::CheckUpdates(_) => SettingKey::CheckUpdates,
            SettingUpdate::AutoUpdate(_) => SettingKey::AutoUpdate,
            SettingUpdate::UpdateCheckedAt(_) => SettingKey::UpdateCheckedAt,
            SettingUpdate::UpdateAvailable(_) => SettingKey::UpdateAvailable,
            SettingUpdate::LastVersion(_) => SettingKey::LastVersion,
        }
    }

    /// The setting that this update changes.
    pub fn key(&self) -> (r: SettingKey)
        ensures
            r == self.spec_key(),
    {
        match self {
            SettingUpdate::Hotkey(_) => SettingKey::Hotkey,
            SettingUpdate::FullscreenHotkey(_) => SettingKey::FullscreenHotkey,
            SettingUpdate::RecordHotkey(_) => SettingKey::RecordHotkey,
            SettingUpdate::SaveDir(_) => SettingKey::SaveDir,
            SettingUpdate::AfterCapture(_) => SettingKey::AfterCapture,
            SettingUpdate::CopyOnSave(_) => SettingKey::CopyOnSave,
            SettingUpdate::Autostart(_) => SettingKey::Autostart,
            SettingUpdate::CliTriggers(_) => SettingKey::CliTriggers,
            SettingUpdate::FilePrefix(_) => SettingKey::FilePrefix,
            SettingUpdate::FfmpegPath(_) => SettingKey::FfmpegPath,
            SettingUpdate::WelcomeShown(_) => SettingKey::WelcomeShown,
            SettingUpdate::AnnotationColor(_) => SettingKey::AnnotationColor,
            SettingUpdate::AnnotationStroke(_) => SettingKey::AnnotationStroke,
            SettingUpdate::CheckUpdates(_) => SettingKey::CheckUpdates,
            SettingUpdate::AutoUpdate(_) => SettingKey::AutoUpdate,
            SettingUpdate::UpdateCheckedAt(_) => SettingKey::UpdateCheckedAt,
            SettingUpdate::UpdateAvailable(_) => SettingKey::UpdateAvailable,
            SettingUpdate::LastVersion(_) => SettingKey::LastVersion,
        }
    }
}

/// The value of setting `k` in `s`, as an update that would set it.
pub open spec fn read(s: Settings, k: SettingKey) -> SettingUpdate {
    match k {
        SettingKey::Hotkey => SettingUpdate::Hotkey(s.hotkey),
        SettingKey::FullscreenHotkey => SettingUpdate::FullscreenHotkey(s.fullscreen_hotkey),
        SettingKey::RecordHotkey => SettingUpdate::RecordHotkey(s.record_hotkey),
        SettingKey::SaveDir => SettingUpdate::SaveDir(s.save_dir),
        SettingKey::AfterCapture => SettingUpdate::AfterCapture(s.after_capture),
        SettingKey::CopyOnSave => SettingUpdate::CopyOnSave(s.copy_on_save),
        SettingKey::Autostart => SettingUpdate::Autostart(s.autostart),
        SettingKey::CliTriggers => SettingUpdate::CliTriggers(s.cli_triggers),
        SettingKey::FilePrefix => SettingUpdate::FilePrefix(s.file_prefix),
        SettingKey::FfmpegPath => SettingUpdate::FfmpegPath(s.ffmpeg_path),
        SettingKey::WelcomeShown => SettingUpdate::WelcomeShown(s.welcome_shown),
        SettingKey::AnnotationColor => SettingUpdate::AnnotationColor(s.annotation_color),
        SettingKey::AnnotationStroke => SettingUpdate::AnnotationStroke(s.annotation_stroke),
        SettingKey::CheckUpdates => SettingUpdate::CheckUpdates(s.check_updates),
        SettingKey::AutoUpdate => SettingUpdate::AutoUpdate(s.auto_update),
        SettingKey::UpdateCheckedAt => SettingUpdate::UpdateCheckedAt(s.update_checked_at),
        SettingKey::UpdateAvailable => SettingUpdate::UpdateAvailable(s.update_available),
        SettingKey::LastVersion => SettingUpdate::LastVersion(s.last_version),
    }
}

/// `s` with the one setting that `u` names replaced by its value.
pub open spec fn apply_spec(s: Settings, u: SettingUpdate) -> Settings {
    match u {
        SettingUpdate::Hotkey(v) => Settings { hotkey: v, ..s },
        SettingUpdate::FullscreenHotkey(v) => Settings { fullscreen_hotkey: v, ..s },
        SettingUpdate::RecordHotkey(v) => Settings { record_hotkey: v, ..s },
        SettingUpdate::SaveDir(v) => Settings { save_dir: v, ..s },
        SettingUpdate::AfterCapture(v) => Settings { after_capture: v, ..s },
        SettingUpdate::CopyOnSave(v) => Settings { copy_on_save: v, ..s },
        SettingUpdate::Autostart(v) => Settings { autostart: v, ..s },
        SettingUpdate::CliTriggers(v) => Settings { cli_triggers: v, ..s },
        SettingUpdate::FilePrefix(v) => Settings { file_prefix: v, ..s },
        SettingUpdate::FfmpegPath(v) => Settings { ffmpeg_path: v, ..s },
        SettingUpdate::WelcomeShown(v) => Settings { welcome_shown: v, ..s },
        SettingUpdate::AnnotationColor(v) => Settings { annotation_color: v, ..s },
        SettingUpdate::AnnotationStroke(v) => Settings { annotation_stroke: v, ..s },
        SettingUpdate::CheckUpdates(v) => Settings { check_updates: v, ..s },
        SettingUpdate::AutoUpdate(v) => Settings { auto_update: v, ..s },
        SettingUpdate::UpdateCheckedAt(v) => Settings { update_checked_at: v, ..s },
        SettingUpdate::UpdateAvailable(v) => Settings { update_available: v, ..s },
        SettingUpdate::LastVersion(v) => Settings { last_version: v, ..s },
    }
}

/// `s` with the updates applied in order.
pub open spec fn merged(s: Settings, us: Seq<SettingUpdate>) -> Settings
    decreases us.len(),
{
    if us.len() == 0 {
        s
    } else {
        apply_spec(merged(s, us.drop_last()), us.last())
    }
}

/// The last update in `us` that names `k`, if any.
pub open spec fn last_for(us: Seq<SettingUpdate>, k: SettingKey) -> Option<SettingUpdate>
    decreases us.len(),
{
    if us.len() == 0 {
        None
    } else if us.last().spec_key() == k {
        Some(us.last())
    } else {
        last_for(us.drop_last(), k)
    }
}

/// Replaces the one setting that `u` names.
pub fn apply_update(s: &mut Settings, u: SettingUpdate)
    ensures
        *final(s) == apply_spec(*old(s), u),
{
    match u {
        SettingUpdate::Hotkey(v) => s.hotkey = v,
        SettingUpdate::FullscreenHotkey(v) => s.fullscreen_hotkey = v,
        SettingUpdate::RecordHotkey(v) => s.record_hotkey = v,
        SettingUpdate::SaveDir(v) => s.save_dir = v,
        SettingUpdate::AfterCapture(v) => s.after_capture = v,
        SettingUpdate::CopyOnSave(v) => s.copy_on_save = v,
        SettingUpdate::Autostart(v) => s.autostart = v,
        SettingUpdate::CliTriggers(v) => s.cli_triggers = v,
        SettingUpdate::FilePrefix(v) => s.file_prefix = v,
        SettingUpdate::FfmpegPath(v) => s.ffmpeg_path = v,
        SettingUpdate::WelcomeShown(v) => s.welcome_shown = v,
        SettingUpdate::AnnotationColor(v) => s.annotation_color = v,
        SettingUpdate::AnnotationStroke(v) => s.annotation_stroke = v,
        SettingUpdate::CheckUpdates(v) => s.check_updates = v,
        SettingUpdate::AutoUpdate(v) => s.auto_update = v,
        SettingUpdate::UpdateCheckedAt(v) => s.update_checked_at = v,
        SettingUpdate::UpdateAvailable(v) => s.update_available = v,
        SettingUpdate::LastVersion(v) => s.last_version = v,
    }
}

/// Applies a partial update on top of `base`: the settings that `updates`
/// name take their (last) new value, all others keep theirs.
pub fn merge(base: Settings, updates: Vec<SettingUpdate>) -> (r: Settings)
    ensures
        r == merged(base, updates@),
{
    let ghost all = updates@;
    let mut s = base;
    for u in it: updates
        invariant
            it.seq() == all,
            s == merged(base, all.take(it.index() as int)),
    {
        proof {
            let k = it.index() as int;
            assert(all.take(k + 1).drop_last() =~= all.take(k));
            assert(all.take(k + 1).last() == all[k]);
        }
        apply_update(&mut s, u);
    }
    proof {
        assert(all.take(all.len() as int) =~= all);
    }
    s
}

proof fn lemma_read_apply(s: Settings, u: SettingUpdate, k: SettingKey)
    ensures
        read(apply_spec(s, u), k) == (if u.spec_key() == k {
            u
        } else {
            read(s, k)
        }),
{
}

/// A partial update changes exactly the settings it names: each of them takes
/// the last value given for it, and every other setting keeps its value.
pub proof fn lemma_merge_changes_only_named(base: Settings, us: Seq<SettingUpdate>, k: SettingKey)
    ensures
        read(merged(base, us), k) == match last_for(us, k) {
            Some(u) => u,
            None => read(base, k),
        },
    decreases us.len(),
{
    if us.len() > 0 {
        lemma_merge_changes_only_named(base, us.drop_last(), k);
        lemma_read_apply(merged(base, us.drop_last()), us.last(), k);
    }
}

/// What else an update of the settings has to do besides storing them.
#[derive(Debug, Clone, Copy, PartialEq, Eq, Structural)]
pub struct UpdatePlan {
    /// The ffmpeg path was given and is not empty: it has to name an ffmpeg
    /// (the recorder runs whatever it names).
    pub check_ffmpeg: bool,
    /// A capture hotkey was given: the hotkeys are validated by registering
    /// them, and rolled back on failure.
    pub register_hotkeys: bool,
    /// The launch-at-login switch was given: the login item is registered
    /// (`Some(true)`) or removed (`Some(false)`).
    pub login_item: Option<bool>,
}

pub fn has_key(keys: &Vec<SettingKey>, k: SettingKey) -> (r: bool)
    ensures
        r == keys@.contains(k),
{
    let mut i: usize = 0;
    while i < keys.len()
        invariant
            i <= keys.len(),
            forall|j: int| 0 <= j < i ==> keys@[j] != k,
        decreases keys.len() - i,
    {
        if keys[i] == k {
            return true;
        }
        i = i + 1;
    }
    false
}

/// The steps an update that named `keys` and produced `updated` (merged and
/// normalised) takes before it is stored.
pub fn update_plan(keys: &Vec<SettingKey>, updated: &Settings) -> (r: UpdatePlan)
    ensures
        r.check_ffmpeg == (keys@.contains(SettingKey::FfmpegPath) && updated.ffmpeg_path@.len() > 0),
        r.register_hotkeys == (keys@.contains(SettingKey::Hotkey) || keys@.contains(
            SettingKey::FullscreenHotkey,
        )),
        r.login_item == (if keys@.contains(SettingKey::Autostart) {
            Some(updated.autostart)
        } else {
            None
        }),
{
    let check_ffmpeg = has_key(keys, SettingKey::FfmpegPath) && updated.ffmpeg_path.as_str().unicode_len() > 0;
    let register_hotkeys = has_key(keys, SettingKey::Hotkey) || has_key(keys, SettingKey::FullscreenHotkey);
    let login_item = if has_key(keys, SettingKey::Autostart) {
        Some(updated.autostart)
    } else {
        None
    };
    UpdatePlan { check_ffmpeg, register_hotkeys, login_item }
}

/// The next step of an update of the settings, once it is merged,
/// normalised and validated (`plan` comes from `update_plan`).
#[derive(Debug)]
pub enum UpdateStep {
    /// Register the new hotkeys (this validates them).
    RegisterHotkeys,
    /// Registering failed: register the previous hotkeys again, then fail
    /// with this error; nothing is stored.
    RestoreHotkeys(String),
    /// Register (`true`) or remove (`false`) the login item. Its failure is
    /// only logged.
    SetLoginItem(bool),
    /// Write the settings file.
    Save,
    /// The file is written: the new settings become the current ones.
    Commit,
    /// Writing failed: fail with this error; the current settings stay.
    Fail(String),
}

/// What the update does next, given the outcomes of its outside steps so far:
/// `hotkeys` of registering the new hotkeys, `login_item_done` whether the
/// login item was set, and `saved` of writing the file.
pub open spec fn update_next_of(
    plan: UpdatePlan,
    hotkeys: Option<Result<(), String>>,
    login_item_done: bool,
    saved: Option<Result<(), String>>,
) -> UpdateStep {
    if plan.register_hotkeys && hotkeys is None {
        UpdateStep::RegisterHotkeys
    } else if hotkeys is Some && hotkeys.unwrap() is Err {
        UpdateStep::RestoreHotkeys(hotkeys.unwrap()->Err_0)
    } else if plan.login_item is Some && !login_item_done {
        UpdateStep::SetLoginItem(plan.login_item.unwrap())
    } else {
        match saved {
            None => UpdateStep::Save,
            Some(Ok(_)) => UpdateStep::Commit,
            Some(Err(e)) => UpdateStep::Fail(e),
        }
    }
}

pub fn update_next(
    plan: UpdatePlan,
    hotkeys: Option<Result<(), String>>,
    login_item_done: bool,
    saved: Option<Result<(), String>>,
) -> (r: UpdateStep)
    ensures
        r == update_next_of(plan, hotkeys, login_item_done, saved),
{
    if plan.register_hotkeys && hotkeys.is_none() {
        return UpdateStep::RegisterHotkeys;
    }
    match hotkeys {
        Some(Err(e)) => return UpdateStep::RestoreHotkeys(e),
        _ => {},
    }
    match plan.login_item {
        Some(b) => if !login_item_done {
            return UpdateStep::SetLoginItem(b);
        },
        None => {},
    }
    match saved {
        None => UpdateStep::Save,
        Some(Ok(())) => UpdateStep::Commit,
        Some(Err(e)) => UpdateStep::Fail(e),
    }
}

/// An update changes the current settings only after its file was written,
/// and never after its hotkeys were refused; it writes nothing before its
/// hotkeys were registered.
pub proof fn lemma_commit_only_after_saving(
    plan: UpdatePlan,
    hotkeys: Option<Result<(), String>>,
    login_item_done: bool,
    saved: Option<Result<(), String>>,
)
    ensures
        ({
            let r = update_next_of(plan, hotkeys, login_item_done, saved);
            &&& r is Commit ==> (saved matches Some(Ok(_))) && !(hotkeys matches Some(Err(_)))
            &&& r is Save || r is Commit ==> !(plan.register_hotkeys && hotkeys is None)
            &&& r is Save || r is Commit ==> (plan.login_item is None || login_item_done)
        }),
{
}

/// Whether a step ends the update: it fails (`RestoreHotkeys`, `Fail`) or
/// commits.
pub open spec fn ends_update(step: UpdateStep) -> bool {
    step is RestoreHotkeys || step is Commit || step is Fail
}

/// The outcomes known after `step`, when registering the new hotkeys comes
/// out as `hotkeys` and writing the file as `saved`.
pub open spec fn progress_after(
    p: (Option<Result<(), String>>, bool, Option<Result<(), String>>),
    step: UpdateStep,
    hotkeys: Result<(), String>,
    saved: Result<(), String>,
) -> (Option<Result<(), String>>, bool, Option<Result<(), String>>) {
    match step {
        UpdateStep::RegisterHotkeys => (Some(hotkeys), p.1, p.2),
        UpdateStep::SetLoginItem(_) => (p.0, true, p.2),
        UpdateStep::Save => (p.0, p.1, Some(saved)),
        _ => p,
    }
}

/// The steps from progress `p` on, at most `fuel` of them, up to and
/// including the one that ends the update.
pub open spec fn run_from(
    plan: UpdatePlan,
    p: (Option<Result<(), String>>, bool, Option<Result<(), String>>),
    hotkeys: Result<(), String>,
    saved: Result<(), String>,
    fuel: nat,
) -> Seq<UpdateStep>
    decreases fuel,
{
    if fuel == 0 {
        Seq::empty()
    } else {
        let step = update_next_of(plan, p.0, p.1, p.2);
        if ends_update(step) {
            seq![step]
        } else {
            seq![step] + run_from(plan, progress_after(p, step, hotkeys, saved), hotkeys, saved, (fuel - 1) as nat)
        }
    }
}

/// The steps that an update takes, from the first to the one that ends it,
/// when `update_next` is asked after each outside step and registering the
/// new hotkeys comes out as `hotkeys`, writing the file as `saved`.
pub open spec fn update_run(plan: UpdatePlan, hotkeys: Result<(), String>, saved: Result<(), String>) -> Seq<
    UpdateStep,
> {
    run_from(plan, (None, false, None), hotkeys, saved, 4)
}

/// How an update ends: refused hotkeys are restored and fail it; otherwise
/// it commits when the file was written and fails when it was not.
pub open spec fn update_end_of(plan: UpdatePlan, hotkeys: Result<(), String>, saved: Result<(), String>) -> UpdateStep {
    if plan.register_hotkeys && hotkeys is Err {
        UpdateStep::RestoreHotkeys(hotkeys->Err_0)
    } else {
        match saved {
            Ok(_) => UpdateStep::Commit,
            Err(e) => UpdateStep::Fail(e),
        }
    }
}

/// Every update ends, once: its last step is the one `update_end_of` names
/// and no step before it ends the update, so nothing follows a failure and
/// the new settings become current only at its end, when both the hotkeys
/// and the file were accepted. The file is written exactly when the hotkeys
/// were not refused, and the hotkeys are registered first when they changed.
pub proof fn lemma_update_run(plan: UpdatePlan, hotkeys: Result<(), String>, saved: Result<(), String>)
    ensures
        ({
            let run = update_run(plan, hotkeys, saved);
            &&& run.len() > 0
            &&& run.last() == update_end_of(plan, hotkeys, saved)
            &&& forall|i: int| 0 <= i < run.len() - 1 ==> !ends_update(#[trigger] run[i])
            &&& run.contains(UpdateStep::Save) <==> !(plan.register_hotkeys && hotkeys is Err)
            &&& plan.register_hotkeys ==> run[0] == UpdateStep::RegisterHotkeys
        }),
{
    reveal_with_fuel(run_from, 5);
    let run = update_run(plan, hotkeys, saved);
    let p0: (Option<Result<(), String>>, bool, Option<Result<(), String>>) = (None, false, None);
    if plan.register_hotkeys {
        let p1 = progress_after(p0, UpdateStep::RegisterHotkeys, hotkeys, saved);
        if hotkeys is Err {
            assert(run =~= seq![UpdateStep::RegisterHotkeys, UpdateStep::RestoreHotkeys(hotkeys->Err_0)]);
        } else if plan.login_item is Some {
            let p2 = progress_after(p1, UpdateStep::SetLoginItem(plan.login_item.unwrap()), hotkeys, saved);
            let p3 = progress_after(p2, UpdateStep::Save, hotkeys, saved);
            assert(run =~= seq![
                UpdateStep::RegisterHotkeys,
                UpdateStep::SetLoginItem(plan.login_item.unwrap()),
                UpdateStep::Save,
                update_end_of(plan, hotkeys, saved),
            ]);
            assert(run[2] == UpdateStep::Save);
        } else {
            assert(run =~= seq![UpdateStep::RegisterHotkeys, UpdateStep::Save, update_end_of(plan, hotkeys, saved)]);
            assert(run[1] == UpdateStep::Save);
        }
    } else if plan.login_item is Some {
        assert(run =~= seq![
            UpdateStep::SetLoginItem(plan.login_item.unwrap()),
            UpdateStep::Save,
            update_end_of(plan, hotkeys, saved),
        ]);
        assert(run[1] == UpdateStep::Save);
    } else {
        assert(run =~= seq![UpdateStep::Save, update_end_of(plan, hotkeys, saved)]);
        assert(run[0] == UpdateStep::Save);
    }
}

/// The camelCase name under which the settings file and the webviews carry
/// each setting (the field names of `Settings` in camelCase).
pub open spec fn camel_name(k: SettingKey) -> Seq<char> {
    match k {
        SettingKey::Hotkey => "hotkey"@,
        SettingKey::FullscreenHotkey => "fullscreenHotkey"@,
        SettingKey::RecordHotkey => "recordHotkey"@,
        SettingKey::SaveDir => "saveDir"@,
        SettingKey::AfterCapture => "afterCapture"@,
        SettingKey::CopyOnSave => "copyOnSave"@,
        SettingKey::Autostart => "autostart"@,
        SettingKey::CliTriggers => "cliTriggers"@,
        SettingKey::FilePrefix => "filePrefix"@,
        SettingKey::FfmpegPath => "ffmpegPath"@,
        SettingKey::WelcomeShown => "welcomeShown"@,
        SettingKey::AnnotationColor => "annotationColor"@,
        SettingKey::AnnotationStroke => "annotationStroke"@,
        SettingKey::CheckUpdates => "checkUpdates"@,
        SettingKey::AutoUpdate => "autoUpdate"@,
        SettingKey::UpdateCheckedAt => "updateCheckedAt"@,
        SettingKey::UpdateAvailable => "updateAvailable"@,
        SettingKey::LastVersion => "lastVersion"@,
    }
}

/// Every setting is named by its camelCase key, and a key that names a
/// setting is that setting's camelCase name: no setting of an update is
/// ignored, and no other key changes one.
pub proof fn lemma_every_setting_has_its_key(k: SettingKey, name: Seq<char>)
    ensures
        key_of_name(camel_name(k)) == Some(k),
        key_of_name(name) == Some(k) ==> name == camel_name(k),
{
    reveal_strlit("hotkey");
    reveal_strlit("fullscreenHotkey");
    reveal_strlit("recordHotkey");
    reveal_strlit("saveDir");
    reveal_strlit("afterCapture");
    reveal_strlit("copyOnSave");
    reveal_strlit("autostart");
    reveal_strlit("cliTriggers");
    reveal_strlit("filePrefix");
    reveal_strlit("ffmpegPath");
    reveal_strlit("welcomeShown");
    reveal_strlit("annotationColor");
    reveal_strlit("annotationStroke");
    reveal_strlit("checkUpdates");
    reveal_strlit("autoUpdate");
    reveal_strlit("updateCheckedAt");
    reveal_strlit("updateAvailable");
    reveal_strlit("lastVersion");
    match k {
        SettingKey::Hotkey => {

        },
        SettingKey::FullscreenHotkey => {
            assert("fullscreenHotkey"@.len() != "hotkey"@.len());
        },
        SettingKey::RecordHotkey => {
            assert("recordHotkey"@.len() != "hotkey"@.len());
            assert("recordHotkey"@.len() != "fullscreenHotkey"@.len());
        },
        SettingKey::SaveDir => {
            assert("saveDir"@.len() != "hotkey"@.len());
            assert("saveDir"@.len() != "fullscreenHotkey"@.len());
            assert("saveDir"@.len() != "recordHotkey"@.len());
        },
        SettingKey::AfterCapture => {
            assert("afterCapture"@.len() != "hotkey"@.len());
            assert("afterCapture"@.len() != "fullscreenHotkey"@.len());
            assert("afterCapture"@[0] != "recordHotkey"@[0]);
            assert("afterCapture"@.len() != "saveDir"@.len());
        },
        SettingKey::CopyOnSave => {
            assert("copyOnSave"@.len() != "hotkey"@.len());
            assert("copyOnSave"@.len() != "fullscreenHotkey"@.len());
            assert("copyOnSave"@.len() != "recordHotkey"@.len());
            assert("copyOnSave"@.len() != "saveDir"@.len());
            assert("copyOnSave"@.len() != "afterCapture"@.len());
        },
        SettingKey::Autostart => {
            assert("autostart"@.len() != "hotkey"@.len());
            assert("autostart"@.len() != "fullscreenHotkey"@.len());
            assert("autostart"@.len() != "recordHotkey"@.len());
            assert("autostart"@.len() != "saveDir"@.len());
            assert("autostart"@.len() != "afterCapture"@.len());
            assert("autostart"@.len() != "copyOnSave"@.len());
        },
        SettingKey::CliTriggers => {
            assert("cliTriggers"@.len() != "hotkey"@.len());
            assert("cliTriggers"@.len() != "fullscreenHotkey"@.len());
            assert("cliTriggers"@.len() != "recordHotkey"@.len());
            assert("cliTriggers"@.len() != "saveDir"@.len());
            assert("cliTriggers"@.len() != "afterCapture"@.len());
            assert("cliTriggers"@.len() != "copyOnSave"@.len());
            assert("cliTriggers"@.len() != "autostart"@.len());
        },
        SettingKey::FilePrefix => {
            assert("filePrefix"@.len() != "hotkey"@.len());
            assert("filePrefix"@.len() != "fullscreenHotkey"@.len());
            assert("filePrefix"@.len() != "recordHotkey"@.len());
            assert("filePrefix"@.len() != "saveDir"@.len());
            assert("filePrefix"@.len() != "afterCapture"@.len());
            assert("filePrefix"@[0] != "copyOnSave"@[0]);
            assert("filePrefix"@.len() != "autostart"@.len());
            assert("filePrefix"@.len() != "cliTriggers"@.len());
        },
        SettingKey::FfmpegPath => {
            assert("ffmpegPath"@.len() != "hotkey"@.len());
            assert("ffmpegPath"@.len() != "fullscreenHotkey"@.len());
            assert("ffmpegPath"@.len() != "recordHotkey"@.len());
            assert("ffmpegPath"@.len() != "saveDir"@.len());
            assert("ffmpegPath"@.len() != "afterCapture"@.len());
            assert("ffmpegPath"@[0] != "copyOnSave"@[0]);
            assert("ffmpegPath"@.len() != "autostart"@.len());
            assert("ffmpegPath"@.len() != "cliTriggers"@.len());
            assert("ffmpegPath"@[1] != "filePrefix"@[1]);
        },
        SettingKey::WelcomeShown => {
            assert("welcomeShown"@.len() != "hotkey"@.len());
            assert("welcomeShown"@.len() != "fullscreenHotkey"@.len());
            assert("welcomeShown"@[0] != "recordHotkey"@[0]);
            assert("welcomeShown"@.len() != "saveDir"@.len());
            assert("welcomeShown"@[0] != "afterCapture"@[0]);
            assert("welcomeShown"@.len() != "copyOnSave"@.len());
            assert("welcomeShown"@.len() != "autostart"@.len());
            assert("welcomeShown"@.len() != "cliTriggers"@.len());
            assert("welcomeShown"@.len() != "filePrefix"@.len());
            assert("welcomeShown"@.len() != "ffmpegPath"@.len());
        },
        SettingKey::AnnotationColor => {
            assert("annotationColor"@.len() != "hotkey"@.len());
            assert("annotationColor"@.len() != "fullscreenHotkey"@.len());
            assert("annotationColor"@.len() != "recordHotkey"@.len());
            assert("annotationColor"@.len() != "saveDir"@.len());
            assert("annotationColor"@.len() != "afterCapture"@.len());
            assert("annotationColor"@.len() != "copyOnSave"@.len());
            assert("annotationColor"@.len() != "autostart"@.len());
            assert("annotationColor"@.len() != "cliTriggers"@.len());
            assert("annotationColor"@.len() != "filePrefix"@.len());
            assert("annotationColor"@.len() != "ffmpegPath"@.len());
            assert("annotationColor"@.len() != "welcomeShown"@.len());
        },
        SettingKey::AnnotationStroke => {
            assert("annotationStroke"@.len() != "hotkey"@.len());
            assert("annotationStroke"@[0] != "fullscreenHotkey"@[0]);
            assert("annotationStroke"@.len() != "recordHotkey"@.len());
            assert("annotationStroke"@.len() != "saveDir"@.len());
            assert("annotationStroke"@.len() != "afterCapture"@.len());
            assert("annotationStroke"@.len() != "copyOnSave"@.len());
            assert("annotationStroke"@.len() != "autostart"@.len());
            assert("annotationStroke"@.len() != "cliTriggers"@.len());
            assert("annotationStroke"@.len() != "filePrefix"@.len());
            assert("annotationStroke"@.len() != "ffmpegPath"@.len());
            assert("annotationStroke"@.len() != "welcomeShown"@.len());
            assert("annotationStroke"@.len() != "annotationColor"@.len());
        },
        SettingKey::CheckUpdates => {
            assert("checkUpdates"@.len() != "hotkey"@.len());
            assert("checkUpdates"@.len() != "fullscreenHotkey"@.len());
            assert("checkUpdates"@[0] != "recordHotkey"@[0]);
            assert("checkUpdates"@.len() != "saveDir"@.len());
            assert("checkUpdates"@[0] != "afterCapture"@[0]);
            assert("checkUpdates"@.len() != "copyOnSave"@.len());
            assert("checkUpdates"@.len() != "autostart"@.len());
            assert("checkUpdates"@.len() != "cliTriggers"@.len());
            assert("checkUpdates"@.len() != "filePrefix"@.len());
            assert("checkUpdates"@.len() != "ffmpegPath"@.len());
            assert("checkUpdates"@[0] != "welcomeShown"@[0]);
            assert("checkUpdates"@.len() != "annotationColor"@.len());
            assert("checkUpdates"@.len() != "annotationStroke"@.len());
        },
        SettingKey::AutoUpdate => {
            assert("autoUpdate"@.len() != "hotkey"@.len());
            assert("autoUpdate"@.len() != "fullscreenHotkey"@.len());
            assert("autoUpdate"@.len() != "recordHotkey"@.len());
            assert("autoUpdate"@.len() != "saveDir"@.len());
            assert("autoUpdate"@.len() != "afterCapture"@.len());
            assert("autoUpdate"@[0] != "copyOnSave"@[0]);
            assert("autoUpdate"@.len() != "autostart"@.len());
            assert("autoUpdate"@.len() != "cliTriggers"@.len());
            assert("autoUpdate"@[0] != "filePrefix"@[0]);
            assert("autoUpdate"@[0] != "ffmpegPath"@[0]);
            assert("autoUpdate"@.len() != "welcomeShown"@.len());
            assert("autoUpdate"@.len() != "annotationColor"@.len());
            assert("autoUpdate"@.len() != "annotationStroke"@.len());
            assert("autoUpdate"@.len() != "checkUpdates"@.len());
        },
        SettingKey::UpdateCheckedAt => {
            assert("updateCheckedAt"@.len() != "hotkey"@.len());
            assert("updateCheckedAt"@.len() != "fullscreenHotkey"@.len());
            assert("updateCheckedAt"@.len() != "recordHotkey"@.len());
            assert("updateCheckedAt"@.len() != "saveDir"@.len());
            assert("updateCheckedAt"@.len() != "afterCapture"@.len());
            assert("updateCheckedAt"@.len() != "copyOnSave"@.len());
            assert("updateCheckedAt"@.len() != "autostart"@.len());
            assert("updateCheckedAt"@.len() != "cliTriggers"@.len());
            assert("updateCheckedAt"@.len() != "filePrefix"@.len());
            assert("updateCheckedAt"@.len() != "ffmpegPath"@.len());
            assert("updateCheckedAt"@.len() != "welcomeShown"@.len());
            assert("updateCheckedAt"@[0] != "annotationColor"@[0]);
            assert("updateCheckedAt"@.len() != "annotationStroke"@.len());
            assert("updateCheckedAt"@.len() != "checkUpdates"@.len());
            assert("updateCheckedAt"@.len() != "autoUpdate"@.len());
        },
        SettingKey::UpdateAvailable => {
            assert("updateAvailable"@.len() != "hotkey"@.len());
            assert("updateAvailable"@.len() != "fullscreenHotkey"@.len());
            assert("updateAvailable"@.len() != "recordHotkey"@.len());
            assert("updateAvailable"@.len() != "saveDir"@.len());
            assert("updateAvailable"@.len() != "afterCapture"@.len());
            assert("updateAvailable"@.len() != "copyOnSave"@.len());
            assert("updateAvailable"@.len() != "autostart"@.len());
            assert("updateAvailable"@.len() != "cliTriggers"@.len());
            assert("updateAvailable"@.len() != "filePrefix"@.len());
            assert("updateAvailable"@.len() != "ffmpegPath"@.len());
            assert("updateAvailable"@.len() != "welcomeShown"@.len());
            assert("updateAvailable"@[0] != "annotationColor"@[0]);
            assert("updateAvailable"@.len() != "annotationStroke"@.len());
            assert("updateAvailable"@.len() != "checkUpdates"@.len());
            assert("updateAvailable"@.len() != "autoUpdate"@.len());
            assert("updateAvailable"@[6] != "updateCheckedAt"@[6]);
        },
        SettingKey::LastVersion => {
            assert("lastVersion"@.len() != "hotkey"@.len());
            assert("lastVersion"@.len() != "fullscreenHotkey"@.len());
            assert("lastVersion"@.len() != "recordHotkey"@.len());
            assert("lastVersion"@.len() != "saveDir"@.len());
            assert("lastVersion"@.len() != "afterCapture"@.len());
            assert("lastVersion"@.len() != "copyOnSave"@.len());
            assert("lastVersion"@.len() != "autostart"@.len());
            assert("lastVersion"@[0] != "cliTriggers"@[0]);
            assert("lastVersion"@.len() != "filePrefix"@.len());
            assert("lastVersion"@.len() != "ffmpegPath"@.len());
            assert("lastVersion"@.len() != "welcomeShown"@.len());
            assert("lastVersion"@.len() != "annotationColor"@.len());
            assert("lastVersion"@.len() != "annotationStroke"@.len());
            assert("lastVersion"@.len() != "checkUpdates"@.len());
            assert("lastVersion"@.len() != "autoUpdate"@.len());
            assert("lastVersion"@.len() != "updateCheckedAt"@.len());
            assert("lastVersion"@.len() != "updateAvailable"@.len());
        },
    }
}

} // verus!
