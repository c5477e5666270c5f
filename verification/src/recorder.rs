//! The decisions of screen recording: one recording at a time; starting
//! again while one runs is refused; a stop or cancel that arrives while a
//! recording is still starting is honoured as soon as the encoder exists;
//! stopping finalises the file and reveals it, copies it to the clipboard, or
//! discards it.
//!
//! The encoder process, the windows and the clock stay with the caller: it
//! performs each step that these functions decide and reports back.
use vstd::prelude::*;

verus! {

pub const ALREADY_RECORDING: &'static str = "already recording";

pub const NOT_RECORDING: &'static str = "not recording";

pub const NO_VIDEO_WRITTEN: &'static str = "recording failed: no video was written (is screen recording allowed?)";

pub const AREA_TOO_SMALL: &'static str = "the area to record is too small";

/// What to do with the file when a recording stops.
#[derive(Debug, Clone, Copy, PartialEq, Eq, Structural)]
pub enum Outcome {
    /// Keep it and reveal it in the file manager.
    Reveal,
    /// Keep it and put the file on the clipboard, ready to paste into a chat.
    Copy,
    /// Delete it.
    Discard,
}

/// Payload of `recording:stopped`.
#[derive(Debug, Clone, Copy, PartialEq, Eq, Structural)]
pub struct Stopped {
    pub copied: bool,
}

/// What the floating bar shows.
#[derive(Debug, Clone)]
pub struct RecordingStatus {
    pub recording: bool,
    /// Unix time in ms when the recording started (0 when idle).
    pub started_ms: u64,
    pub path: String,
}

/// The running recording: where the encoder writes, and since when.
#[derive(Debug)]
pub struct ActiveRecording {
    pub path: String,
    pub started_ms: u64,
}

/// The recording state: the running recording, whether one is starting (between
/// showing the bar and spawning the encoder), and whether a stop or cancel
/// arrived while it was starting.
#[derive(Debug)]
pub struct Recorder {
    pub active: Option<ActiveRecording>,
    pub starting: bool,
    pub abort: bool,
}

/// The recording state as plain values.
pub struct RecorderView {
    pub active: Option<(Seq<char>, u64)>,
    pub starting: bool,
    pub abort: bool,
}

impl View for Recorder {
    type V = RecorderView;

    open spec fn view(&self) -> RecorderView {
        RecorderView {
            active: match self.active {
                Some(a) => Some((a.path@, a.started_ms)),
                None => None,
            },
            starting: self.starting,
            abort: self.abort,
        }
    }
}

/// The state before any recording.
pub open spec fn idle() -> RecorderView {
    RecorderView { active: None, starting: false, abort: false }
}

/// Starting: refused (`None`) while a recording runs or starts; otherwise the
/// state in which the recording is starting and no stop has arrived yet.
pub open spec fn start_step(v: RecorderView) -> Option<RecorderView> {
    if v.active is Some || v.starting {
        None
    } else {
        Some(RecorderView { starting: true, abort: false, ..v })
    }
}

/// The encoder is running for the recording at `path`, started at `ms`.
pub open spec fn encoder_step(v: RecorderView, path: Seq<char>, ms: u64) -> RecorderView {
    RecorderView { active: Some((path, ms)), ..v }
}

/// The start is over (whether it succeeded or not).
pub open spec fn finish_start_step(v: RecorderView) -> RecorderView {
    RecorderView { starting: false, ..v }
}

/// How a stop request is answered.
pub enum StopAnswer {
    /// The running recording, taken out of the state: it is to be finalised.
    Stop((Seq<char>, u64)),
    /// A recording is starting: it is cancelled as soon as its encoder exists.
    Deferred,
    /// Nothing to stop.
    NotRecording,
}

pub open spec fn stop_answer(v: RecorderView) -> StopAnswer {
    match v.active {
        Some(a) => StopAnswer::Stop(a),
        None => if v.starting {
            StopAnswer::Deferred
        } else {
            StopAnswer::NotRecording
        },
    }
}

pub open spec fn stop_step(v: RecorderView) -> RecorderView {
    match v.active {
        Some(a) => RecorderView { active: None, ..v },
        None => if v.starting {
            RecorderView { abort: true, ..v }
        } else {
            v
        },
    }
}

impl Recorder {
    /// No recording, none starting.
    pub fn new() -> (r: Recorder)
        ensures
            r@ == idle(),
    {
        Recorder { active: None, starting: false, abort: false }
    }

    pub fn is_recording(&self) -> (r: bool)
        ensures
            r == (self@.active is Some),
    {
        self.active.is_some()
    }

    /// What the floating bar shows.
    pub fn status(&self) -> (r: RecordingStatus)
        ensures
            r.recording == (self@.active is Some),
            r.started_ms == (match self@.active {
                Some(a) => a.1,
                None => 0,
            }),
            r.path@ == (match self@.active {
                Some(a) => a.0,
                None => Seq::<char>::empty(),
            }),
    {
        match &self.active {
            Some(a) => RecordingStatus { recording: true, started_ms: a.started_ms, path: a.path.clone() },
            None => RecordingStatus { recording: false, started_ms: 0, path: String::new() },
        }
    }

    /// Marks a recording as starting, or refuses with "already recording"
    /// while one runs or starts (the state is then unchanged).
    pub fn begin_start(&mut self) -> (r: Result<(), String>)
        ensures
            match start_step(old(self)@) {
                Some(v) => r is Ok && final(self)@ == v,
                None => r matches Err(e) && e@ == ALREADY_RECORDING@ && final(self)@ == old(self)@,
            },
    {
        if self.active.is_some() || self.starting {
            return Err(ALREADY_RECORDING.to_owned());
        }
        self.starting = true;
        self.abort = false;
        Ok(())
    }

    /// Whether a stop or cancel arrived while the recording was starting.
    pub fn abort_requested(&self) -> (r: bool)
        ensures
            r == self@.abort,
    {
        self.abort
    }

    /// The encoder runs: the recording is now the running one. Returns whether
    /// a stop or cancel arrived meanwhile, in which case the recording is to
    /// be stopped and discarded right away.
    pub fn encoder_started(&mut self, active: ActiveRecording) -> (discard: bool)
        ensures
            final(self)@ == encoder_step(old(self)@, active.path@, active.started_ms),
            discard == old(self)@.abort,
    {
        self.active = Some(active);
        self.abort
    }

    /// The start is over, whether it succeeded or not.
    pub fn finish_start(&mut self)
        ensures
            final(self)@ == finish_start_step(old(self)@),
    {
        self.starting = false;
    }

    /// A stop request: takes the running recording out of the state
    /// (`Ok(Some(..))`); while one starts, notes that it is to be cancelled as
    /// soon as it exists (`Ok(None)`); with nothing running or starting,
    /// answers "not recording".
    pub fn begin_stop(&mut self) -> (r: Result<Option<ActiveRecording>, String>)
        ensures
            final(self)@ == stop_step(old(self)@),
            match stop_answer(old(self)@) {
                StopAnswer::Stop(a) => r matches Ok(Some(x)) && x.path@ == a.0 && x.started_ms == a.1,
                StopAnswer::Deferred => r matches Ok(None),
                StopAnswer::NotRecording => r matches Err(e) && e@ == NOT_RECORDING@,
            },
    {
        match self.active.take() {
            Some(a) => Ok(Some(a)),
            None => {
                if self.starting {
                    self.abort = true;
                    Ok(None)
                } else {
                    Err(NOT_RECORDING.to_owned())
                }
            },
        }
    }

    /// The toggle of the hotkey, the tray and the command line: a running
    /// recording is stopped, otherwise a new one begins.
    pub fn toggle(&self) -> (r: Toggle)
        ensures
            r == (if self@.active is Some {
                Toggle::Stop
            } else {
                Toggle::Begin
            }),
    {
        if self.active.is_some() {
            Toggle::Stop
        } else {
            Toggle::Begin
        }
    }
}

/// What the recording toggle does.
#[derive(Debug, Clone, Copy, PartialEq, Eq, Structural)]
pub enum Toggle {
    Stop,
    Begin,
}

/// Whether the recording bar stays up while the encoder finishes: only when
/// the file is to be copied (the bar then says "Copied" for a moment).
pub fn keeps_bar_while_stopping(outcome: Outcome) -> (r: bool)
    ensures
        r == (outcome == Outcome::Copy),
{
    outcome == Outcome::Copy
}

/// What becomes of the file once the encoder has exited.
#[derive(Debug, Clone, Copy, PartialEq, Eq, Structural)]
pub enum Finalise {
    /// Cancelled: the file is deleted and nothing is kept.
    Discard,
    /// No video was written: the file is deleted and the stop fails.
    Failed,
    /// The file is kept; `copy` says whether it goes to the clipboard.
    Keep { copy: bool },
}

/// `file_size` is the size of the file at the recording's path when it is a
/// regular file (a symlink planted there counts as nothing), else 0.
pub fn after_encoder(outcome: Outcome, file_size: u64) -> (r: Finalise)
    ensures
        r == (if outcome == Outcome::Discard {
            Finalise::Discard
        } else if file_size == 0 {
            Finalise::Failed
        } else {
            Finalise::Keep { copy: outcome == Outcome::Copy }
        }),
{
    if outcome == Outcome::Discard {
        Finalise::Discard
    } else if file_size == 0 {
        Finalise::Failed
    } else {
        Finalise::Keep { copy: outcome == Outcome::Copy }
    }
}

/// How a kept recording is reported.
#[derive(Debug)]
pub struct KeptReport {
    /// The file is on the clipboard.
    pub copied: bool,
    /// The file is revealed in the file manager (when it was not copied).
    pub reveal: bool,
    /// The message shown when the copy failed.
    pub copy_error: Option<String>,
}

pub open spec fn copy_error_text(e: Seq<char>) -> Seq<char> {
    "Saved, but could not copy it to the clipboard: "@ + e
}

/// `copy` is the result of putting the file on the clipboard, when it was
/// tried.
pub fn kept_report(copy: Option<Result<(), String>>) -> (r: KeptReport)
    ensures
        r.copied == (copy matches Some(Ok(_))),
        r.reveal == !r.copied,
        match copy {
            Some(Err(e)) => r.copy_error matches Some(m) && m@ == copy_error_text(e@),
            _ => r.copy_error is None,
        },
{
    match copy {
        Some(Ok(())) => KeptReport { copied: true, reveal: false, copy_error: None },
        Some(Err(e)) => {
            let mut m = "Saved, but could not copy it to the clipboard: ".to_owned();
            m.append(e.as_str());
            KeptReport { copied: false, reveal: true, copy_error: Some(m) }
        },
        None => KeptReport { copied: false, reveal: true, copy_error: None },
    }
}

/// A frame dimension in physical pixels made fit for yuv420p, which needs
/// even sizes: at least 2, rounded down to an even number.
pub fn even_size(px: i64) -> (r: i64)
    ensures
        r == (if px < 2 {
            2
        } else {
            px / 2 * 2
        }),
        r % 2 == 0,
        2 <= r,
        px >= 2 ==> r <= px < r + 2,
{
    if px < 2 {
        2
    } else {
        px / 2 * 2
    }
}

// ---------------------------------------------------------------------------
// Laws
// ---------------------------------------------------------------------------

/// One recording at a time: while a recording runs or starts, starting again
/// is refused and changes nothing.
pub proof fn lemma_one_recording_at_a_time(v: RecorderView)
    requires
        v.active is Some || v.starting,
    ensures
        start_step(v) is None,
{
}

/// With nothing running or starting, a stop is answered "not recording" and
/// changes nothing; a stop of the running recording leaves none running.
pub proof fn lemma_stop_answers(v: RecorderView)
    ensures
        v.active is None && !v.starting ==> stop_answer(v) is NotRecording && stop_step(v) == v,
        v.active is Some ==> stop_answer(v) is Stop && stop_step(v).active is None,
{
}

/// A stop that arrives while a recording starts is honoured once the encoder
/// exists: the start reports that the recording is to be discarded, the stop
/// that follows takes it out, and afterwards nothing runs or starts, so a new
/// recording can start.
pub proof fn lemma_stop_while_starting_is_honoured(v: RecorderView, path: Seq<char>, ms: u64)
    requires
        v.active is None,
        !v.starting,
    ensures
        ({
            let v1 = start_step(v).unwrap();
            let v2 = stop_step(v1);
            let v3 = encoder_step(v2, path, ms);
            let v4 = stop_step(v3);
            let v5 = finish_start_step(v4);
            &&& start_step(v) is Some
            &&& stop_answer(v1) is Deferred
            &&& v3.abort
            &&& stop_answer(v3) == StopAnswer::Stop((path, ms))
            &&& v5.active is None && !v5.starting
            &&& start_step(v5) is Some
        }),
{
}

/// A start that ends without a recording (refused area, failed spawn, or a
/// cancel before the encoder existed) leaves the recorder free to start again.
pub proof fn lemma_failed_start_frees_the_recorder(v: RecorderView)
    requires
        v.active is None,
        !v.starting,
    ensures
        start_step(finish_start_step(start_step(v).unwrap())) is Some,
{
}

/// A start that is accepted begins with no stop noted, whatever earlier,
/// cancelled recordings left behind: its encoder, once running, is not
/// discarded unless a stop arrives for this start, and the recording is
/// then the running one.
pub proof fn lemma_accepted_start_has_no_stop(v: RecorderView, path: Seq<char>, ms: u64)
    ensures
        start_step(v) is Some <==> (v.active is None && !v.starting),
        start_step(v) matches Some(w) ==> {
            &&& !w.abort
            &&& w.starting
            &&& w.active is None
            &&& !encoder_step(w, path, ms).abort
            &&& encoder_step(w, path, ms).active == Some((path, ms))
        },
{
}

/// A recording cancelled while it started does not cancel the next one: after
/// a start, a stop while starting, the encoder (discarded), its stop and the
/// end of the start, a new start whose encoder runs keeps running.
pub proof fn lemma_cancel_does_not_carry_over(v: RecorderView, p1: Seq<char>, m1: u64, p2: Seq<char>, m2: u64)
    requires
        v.active is None,
        !v.starting,
    ensures
        ({
            let v1 = stop_step(start_step(v).unwrap());
            let v2 = finish_start_step(stop_step(encoder_step(v1, p1, m1)));
            let w = start_step(v2).unwrap();
            &&& encoder_step(v1, p1, m1).abort
            &&& start_step(v2) is Some
            &&& !w.abort
            &&& !encoder_step(w, p2, m2).abort
            &&& stop_answer(encoder_step(w, p2, m2)) == StopAnswer::Stop((p2, m2))
        }),
{
}

} // verus!
