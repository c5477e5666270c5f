//! Persistent user settings: their defaults, how they are normalised, and
//! how a partial update is applied.
use vstd::prelude::*;
use crate::prefix::{
    is_plain_prefix, lemma_sanitise_idempotent, lemma_sanitised_is_plain, lemma_trim_by_part,
    sanitise_prefix, sanitised, DEFAULT_PREFIX,
};
use crate::text::{
    ascii_lower, chars_of, hex_code, is_hex, is_hex_digit, lemma_hex_digits, is_ws, lower_seq, string_of, to_ascii_lower, trim,
    trim_bounds, TrimSet,
};

verus! {

pub const DEFAULT_COLOR: &'static str = "#ff3b30";

pub const DEFAULT_STROKE: u8 = 3;

pub const MAX_STROKE: u8 = 5;

pub const DEFAULT_HOTKEY: &'static str = "CmdOrCtrl+Shift+A";

/// What happens right after a region is selected.
#[derive(Debug, Clone, Copy, PartialEq, Eq, Structural)]
pub enum AfterCapture {
    /// Open the annotation editor (default).
    Editor,
    /// Copy straight to the clipboard.
    Clipboard,
    /// Save straight to the save directory.
    Save,
}

#[derive(Debug, Clone)]
pub struct Settings {
    /// Global shortcut for region capture, e.g. "CmdOrCtrl+Shift+A".
    pub hotkey: String,
    /// Global shortcut for full-screen capture. Empty = disabled.
    pub fullscreen_hotkey: String,
    /// Global shortcut that starts a region recording / stops the running
    /// one. Empty = disabled.
    pub record_hotkey: String,
    /// Directory where quick-saved screenshots go.
    pub save_dir: String,
    /// What happens right after a region is selected.
    pub after_capture: AfterCapture,
    /// Also copy to clipboard whenever a file is saved.
    pub copy_on_save: bool,
    /// Launch at login. On by default, until the user switches it off.
    pub autostart: bool,
    /// Honour `--capture`, `--capture-full`, `--record` and `--record-full`
    /// on the command line. Off by default: any local program could otherwise
    /// make this app, which holds the screen-recording permission, capture the
    /// screen on its behalf.
    pub cli_triggers: bool,
    /// File name prefix for saved screenshots.
    pub file_prefix: String,
    /// The ffmpeg binary used for recording; empty = look for it.
    pub ffmpeg_path: String,
    /// The first-launch welcome dialog has been dismissed.
    pub welcome_shown: bool,
    /// Last annotation colour (#rrggbb), remembered across captures.
    pub annotation_color: String,
    /// Last annotation stroke level (1..=5), remembered across captures.
    pub annotation_stroke: u8,
    /// Look for a newer version once a day. On by default.
    pub check_updates: bool,
    /// Install a newer version as soon as the daily check finds one.
    pub auto_update: bool,
    /// Unix time (seconds) of the last successful update check, 0 = never.
    pub update_checked_at: u64,
    /// Newer version the last check found ("" = none).
    pub update_available: String,
    /// Version that ran last time.
    pub last_version: String,
}

/// The settings of a first launch.
pub open spec fn is_default(s: Settings) -> bool {
    &&& s.hotkey@ == DEFAULT_HOTKEY@
    &&& s.fullscreen_hotkey@ == Seq::<char>::empty()
    &&& s.record_hotkey@ == Seq::<char>::empty()
    &&& s.save_dir@ == Seq::<char>::empty()
    &&& s.after_capture == AfterCapture::Editor
    &&& s.copy_on_save
    &&& s.autostart
    &&& !s.cli_triggers
    &&& s.file_prefix@ == DEFAULT_PREFIX@
    &&& s.ffmpeg_path@ == Seq::<char>::empty()
    &&& !s.welcome_shown
    &&& s.annotation_color@ == DEFAULT_COLOR@
    &&& s.annotation_stroke == DEFAULT_STROKE
    &&& s.check_updates
    &&& !s.auto_update
    &&& s.update_checked_at == 0
    &&& s.update_available@ == Seq::<char>::empty()
    &&& s.last_version@ == Seq::<char>::empty()
}

impl Default for Settings {
    fn default() -> (r: Settings)
        ensures
            is_default(r),
    {
        Settings {
            hotkey: DEFAULT_HOTKEY.to_owned(),
            fullscreen_hotkey: String::new(),
            record_hotkey: String::new(),
            save_dir: String::new(),
            after_capture: AfterCapture::Editor,
            copy_on_save: true,
            autostart: true,
            cli_triggers: false,
            file_prefix: DEFAULT_PREFIX.to_owned(),
            ffmpeg_path: String::new(),
            welcome_shown: false,
            annotation_color: DEFAULT_COLOR.to_owned(),
            annotation_stroke: DEFAULT_STROKE,
            check_updates: true,
            auto_update: false,
            update_checked_at: 0,
            update_available: String::new(),
            last_version: String::new(),
        }
    }
}

/// Two settings values that hold the same texts and values.
pub open spec fn same_settings(a: Settings, b: Settings) -> bool {
    &&& a.hotkey@ == b.hotkey@
    &&& a.fullscreen_hotkey@ == b.fullscreen_hotkey@
    &&& a.record_hotkey@ == b.record_hotkey@
    &&& a.save_dir@ == b.save_dir@
    &&& a.after_capture == b.after_capture
    &&& a.copy_on_save == b.copy_on_save
    &&& a.autostart == b.autostart
    &&& a.cli_triggers == b.cli_triggers
    &&& a.file_prefix@ == b.file_prefix@
    &&& a.ffmpeg_path@ == b.ffmpeg_path@
    &&& a.welcome_shown == b.welcome_shown
    &&& a.annotation_color@ == b.annotation_color@
    &&& a.annotation_stroke == b.annotation_stroke
    &&& a.check_updates == b.check_updates
    &&& a.auto_update == b.auto_update
    &&& a.update_checked_at == b.update_checked_at
    &&& a.update_available@ == b.update_available@
    &&& a.last_version@ == b.last_version@
}

/// `std::sync::Mutex`, known to Verus only as an opaque type: it carries the
/// current settings between the threads of the app.
#[verifier::external_type_specification]
#[verifier::external_body]
#[verifier::reject_recursive_types(T)]
pub struct ExMutex<T: ?Sized>(std::sync::Mutex<T>);

/// The current settings, shared by the windows and threads of the app.
pub struct SettingsState(pub std::sync::Mutex<Settings>);

// ---------------------------------------------------------------------------
// Normalising
// ---------------------------------------------------------------------------

/// A `#rrggbb` colour.
pub open spec fn is_color(c: Seq<char>) -> bool {
    &&& c.len() == 7
    &&& c[0] == '#'
    &&& forall|i: int| 1 <= i < 7 ==> is_hex(#[trigger] c[i])
}

/// The colour that `normalise` keeps for `c`: trimmed and lower-cased when it
/// is then a `#rrggbb` colour, else the default colour.
pub open spec fn normal_color(c: Seq<char>) -> Seq<char> {
    let l = lower_seq(trim(c));
    if is_color(l) {
        l
    } else {
        DEFAULT_COLOR@
    }
}

pub open spec fn clamp_stroke(level: u8) -> u8 {
    if level < 1 {
        1
    } else if level > MAX_STROKE {
        MAX_STROKE
    } else {
        level
    }
}

/// The save folder setting after normalising: the default when it is blank.
pub open spec fn normal_save_dir(dir: Seq<char>, default_dir: Seq<char>) -> Seq<char> {
    if trim(dir).len() == 0 {
        default_dir
    } else {
        dir
    }
}

/// `new` is `old` with everything empty or out of range filled in.
pub open spec fn normalised(old: Settings, default_dir: Seq<char>, new: Settings) -> bool {
    &&& new.hotkey@ == old.hotkey@
    &&& new.fullscreen_hotkey@ == old.fullscreen_hotkey@
    &&& new.record_hotkey@ == old.record_hotkey@
    &&& new.save_dir@ == normal_save_dir(old.save_dir@, default_dir)
    &&& new.after_capture == old.after_capture
    &&& new.copy_on_save == old.copy_on_save
    &&& new.autostart == old.autostart
    &&& new.cli_triggers == old.cli_triggers
    &&& new.file_prefix@ == sanitised(old.file_prefix@)
    &&& new.ffmpeg_path@ == trim(old.ffmpeg_path@)
    &&& new.welcome_shown == old.welcome_shown
    &&& new.annotation_color@ == normal_color(old.annotation_color@)
    &&& new.annotation_stroke == clamp_stroke(old.annotation_stroke)
    &&& new.check_updates == old.check_updates
    &&& new.auto_update == old.auto_update
    &&& new.update_checked_at == old.update_checked_at
    &&& new.update_available@ == trim(old.update_available@)
    &&& new.last_version@ == old.last_version@
}

/// `str::trim`, into a new string.
pub fn trim_string(s: &str) -> (r: String)
    ensures
        r@ == trim(s@),
{
    let v = chars_of(s);
    assert(v@.subrange(0, v@.len() as int) =~= v@);
    let (lo, hi) = trim_bounds(&v, 0, v.len(), TrimSet::Whitespace);
    string_of(&v, lo, hi)
}

/// Whether `v` is a `#rrggbb` colour.
fn color_ok(v: &Vec<char>) -> (r: bool)
    ensures
        r == is_color(v@),
{
    if v.len() != 7 || v[0] != '#' {
        return false;
    }
    let mut i: usize = 1;
    while i < 7
        invariant
            v.len() == 7,
            1 <= i <= 7,
            forall|j: int| 1 <= j < i ==> is_hex(#[trigger] v@[j]),
        decreases 7 - i,
    {
        if !is_hex_digit(v[i]) {
            return false;
        }
        i = i + 1;
    }
    true
}

/// The colour setting after normalising.
pub fn normalise_color(c: &str) -> (r: String)
    ensures
        r@ == normal_color(c@),
{
    let v = chars_of(c);
    assert(v@.subrange(0, v@.len() as int) =~= v@);
    let (lo, hi) = trim_bounds(&v, 0, v.len(), TrimSet::Whitespace);
    let mut l: Vec<char> = Vec::new();
    let mut i = lo;
    while i < hi
        invariant
            lo <= i <= hi <= v.len(),
            l@ =~= lower_seq(v@.subrange(lo as int, i as int)),
        decreases hi - i,
    {
        l.push(to_ascii_lower(v[i]));
        i = i + 1;
    }
    if color_ok(&l) {
        assert(l@.subrange(0, 7) =~= l@);
        string_of(&l, 0, l.len())
    } else {
        DEFAULT_COLOR.to_owned()
    }
}

/// The stroke level, clamped into `1..=MAX_STROKE`.
pub fn normalise_stroke(level: u8) -> (r: u8)
    ensures
        r == clamp_stroke(level),
{
    if level < 1 {
        1
    } else if level > MAX_STROKE {
        MAX_STROKE
    } else {
        level
    }
}

/// Fills in anything empty or out of range: a blank save folder becomes
/// `default_save_dir`, the prefix is sanitised, the ffmpeg path and the
/// announced version are trimmed, a colour that is not `#rrggbb` becomes the
/// default colour (a valid one is lower-cased), and the stroke level is
/// clamped into `1..=MAX_STROKE`.
pub fn normalise(settings: &mut Settings, default_save_dir: &str)
    ensures
        normalised(*old(settings), default_save_dir@, *final(settings)),
{
    let dir = trim_string(settings.save_dir.as_str());
    if dir.as_str().unicode_len() == 0 {
        settings.save_dir = default_save_dir.to_owned();
    }
    settings.file_prefix = sanitise_prefix(settings.file_prefix.as_str());
    settings.ffmpeg_path = trim_string(settings.ffmpeg_path.as_str());
    settings.annotation_color = normalise_color(settings.annotation_color.as_str());
    settings.annotation_stroke = normalise_stroke(settings.annotation_stroke);
    settings.update_available = trim_string(settings.update_available.as_str());
}

/// The settings at launch: those read from the settings file (`parsed`, with
/// every missing key at its default), or the defaults when there is no file
/// or it does not hold settings; normalised either way.
pub fn loaded(parsed: Option<Settings>, default_save_dir: &str) -> (r: Settings)
    ensures
        match parsed {
            Some(s) => normalised(s, default_save_dir@, r),
            None => exists|d: Settings| is_default(d) && normalised(d, default_save_dir@, r),
        },
{
    let mut s = match parsed {
        Some(s) => s,
        None => Settings::default(),
    };
    let ghost before = s;
    normalise(&mut s, default_save_dir);
    assert(normalised(before, default_save_dir@, s));
    s
}

/// The folder quick saves and recordings go to: the configured one, trimmed,
/// or `default_dir` when it is blank.
pub fn resolve_save_dir(configured: &str, default_dir: &str) -> (r: String)
    ensures
        r@ == (if trim(configured@).len() == 0 {
            default_dir@
        } else {
            trim(configured@)
        }),
{
    let t = trim_string(configured);
    if t.as_str().unicode_len() == 0 {
        default_dir.to_owned()
    } else {
        t
    }
}

/// Records that the welcome dialog was dismissed; returns whether anything
/// changed (and so has to be stored).
pub fn mark_welcome_shown(settings: &mut Settings) -> (changed: bool)
    ensures
        changed == !old(settings).welcome_shown,
        final(settings).welcome_shown,
        same_settings(*final(settings), Settings { welcome_shown: true, ..*old(settings) }),
{
    if settings.welcome_shown {
        return false;
    }
    settings.welcome_shown = true;
    true
}

// ---------------------------------------------------------------------------
// Laws of normalising
// ---------------------------------------------------------------------------

/// Settings as `normalise` leaves them.
pub open spec fn is_normal(s: Settings) -> bool {
    &&& is_plain_prefix(s.file_prefix@)
    &&& is_color(s.annotation_color@)
    &&& s.annotation_color@ == lower_seq(s.annotation_color@)
    &&& 1 <= s.annotation_stroke <= MAX_STROKE
    &&& trim(s.ffmpeg_path@) == s.ffmpeg_path@
    &&& trim(s.update_available@) == s.update_available@
}

proof fn lemma_trim_idempotent(s: Seq<char>)
    ensures
        trim(trim(s)) == trim(s),
{
    lemma_trim_by_part(s, TrimSet::Whitespace);
    let t = trim(s);
    if t.len() > 0 {
        assert(!is_ws(t[0]) && !is_ws(t.last()));
    }
}

proof fn lemma_lower_idempotent(s: Seq<char>)
    ensures
        lower_seq(lower_seq(s)) == lower_seq(s),
{
    assert(lower_seq(lower_seq(s)) =~= lower_seq(s));
}

proof fn lemma_default_color()
    ensures
        is_color(DEFAULT_COLOR@),
        lower_seq(DEFAULT_COLOR@) == DEFAULT_COLOR@,
        trim(DEFAULT_COLOR@) == DEFAULT_COLOR@,
{
    reveal_strlit("#ff3b30");
    assert(lower_seq(DEFAULT_COLOR@) =~= DEFAULT_COLOR@);
}

proof fn lemma_normal_color(c: Seq<char>)
    ensures
        is_color(normal_color(c)),
        lower_seq(normal_color(c)) == normal_color(c),
        normal_color(normal_color(c)) == normal_color(c),
{
    lemma_default_color();
    let l = lower_seq(trim(c));
    lemma_lower_idempotent(trim(c));
    if is_color(l) {
        assert(!is_ws(l[0]) && !is_ws(l.last()));
        assert(trim(l) == l);
    }
}

/// Whatever settings `normalise` gets, it leaves a plain prefix, a lower-case
/// `#rrggbb` colour, a stroke level in `1..=MAX_STROKE`, and a trimmed ffmpeg
/// path and announced version.
pub proof fn lemma_normalise_is_normal(old: Settings, default_dir: Seq<char>, new: Settings)
    requires
        normalised(old, default_dir, new),
    ensures
        is_normal(new),
{
    lemma_sanitised_is_plain(old.file_prefix@);
    lemma_normal_color(old.annotation_color@);
    lemma_trim_idempotent(old.ffmpeg_path@);
    lemma_trim_idempotent(old.update_available@);
}

/// Normalising twice gives what normalising once gave.
pub proof fn lemma_normalise_idempotent(
    s0: Settings,
    default_dir: Seq<char>,
    s1: Settings,
    s2: Settings,
)
    requires
        normalised(s0, default_dir, s1),
        normalised(s1, default_dir, s2),
    ensures
        same_settings(s1, s2),
{
    lemma_sanitise_idempotent(s0.file_prefix@);
    lemma_normal_color(s0.annotation_color@);
    lemma_trim_idempotent(s0.ffmpeg_path@);
    lemma_trim_idempotent(s0.update_available@);
}

/// `#` and six ASCII hex digits (in either case).
pub open spec fn hex_colour_text(t: Seq<char>) -> bool {
    &&& t.len() == 7
    &&& t[0] == '#'
    &&& forall|i: int| 1 <= i < 7 ==> hex_code(#[trigger] t[i])
}

/// A colour that is `#rrggbb` once trimmed, with digits of either case, is
/// kept, trimmed and lower-cased; anything else becomes the default colour.
pub proof fn lemma_hex_colours_are_kept(c: Seq<char>)
    ensures
        hex_colour_text(trim(c)) ==> normal_color(c) == lower_seq(trim(c)),
        !hex_colour_text(trim(c)) ==> normal_color(c) == DEFAULT_COLOR@,
{
    let t = trim(c);
    let l = lower_seq(t);
    if hex_colour_text(t) {
        assert forall|i: int| 1 <= i < 7 implies is_hex(#[trigger] l[i]) by {
            lemma_hex_digits(t[i]);
            lemma_hex_digits(l[i]);
        }
        assert(is_color(l));
    } else if is_color(l) {
        assert forall|i: int| 1 <= i < 7 implies hex_code(#[trigger] t[i]) by {
            lemma_hex_digits(t[i]);
            lemma_hex_digits(l[i]);
            assert(l[i] == ascii_lower(t[i]));
        }
        assert(ascii_lower(t[0]) == '#');
        assert(hex_colour_text(t));
    }
}

} // verus!
