use socorin::recorder::{
    after_encoder, even_size, keeps_bar_while_stopping, kept_report, ActiveRecording, Finalise, Outcome, Recorder,
    Toggle,
};

fn recording(r: &mut Recorder, path: &str) {
    r.active = Some(ActiveRecording { path: path.to_string(), started_ms: 1_700_000_000_000 });
}

#[test]
fn status_reflects_the_running_recording() {
    let mut r = Recorder::new();
    let idle = r.status();
    assert!(!idle.recording && idle.started_ms == 0 && idle.path.is_empty());
    assert!(!r.is_recording());
    assert_eq!(r.begin_stop().unwrap_err(), "not recording");

    recording(&mut r, "/shots/clip.mov");
    let live = r.status();
    assert!(live.recording);
    assert_eq!(live.started_ms, 1_700_000_000_000);
    assert!(live.path.ends_with("clip.mov"));
    assert!(r.is_recording());
    assert_eq!(r.begin_start().unwrap_err(), "already recording");
}

#[test]
fn a_stop_while_starting_is_honoured_once_the_encoder_exists() {
    let mut r = Recorder::new();
    r.begin_start().unwrap();
    assert!(r.starting);
    assert!(r.begin_stop().unwrap().is_none());
    assert!(r.abort);
    assert!(r.abort_requested());
    // The start sees the flag and cancels instead of recording.
    let discard = r.encoder_started(ActiveRecording { path: "/shots/a.mp4".into(), started_ms: 5 });
    assert!(discard);
    let taken = r.begin_stop().unwrap().unwrap();
    assert_eq!(taken.path, "/shots/a.mp4");
    r.finish_start();
    assert!(!r.is_recording());
    assert!(r.begin_start().is_ok());
}

#[test]
fn starting_twice_is_refused() {
    let mut r = Recorder::new();
    r.begin_start().unwrap();
    assert_eq!(r.begin_start().unwrap_err(), "already recording");
    assert!(!r.encoder_started(ActiveRecording { path: "x".into(), started_ms: 1 }));
    r.finish_start();
    assert_eq!(r.begin_start().unwrap_err(), "already recording");
    assert_eq!(r.toggle(), Toggle::Stop);
    r.begin_stop().unwrap();
    assert_eq!(r.toggle(), Toggle::Begin);
}

#[test]
fn what_happens_to_the_file() {
    assert_eq!(after_encoder(Outcome::Discard, 100), Finalise::Discard);
    assert_eq!(after_encoder(Outcome::Discard, 0), Finalise::Discard);
    assert_eq!(after_encoder(Outcome::Reveal, 0), Finalise::Failed);
    assert_eq!(after_encoder(Outcome::Copy, 0), Finalise::Failed);
    assert_eq!(after_encoder(Outcome::Reveal, 10), Finalise::Keep { copy: false });
    assert_eq!(after_encoder(Outcome::Copy, 10), Finalise::Keep { copy: true });
    assert!(keeps_bar_while_stopping(Outcome::Copy));
    assert!(!keeps_bar_while_stopping(Outcome::Reveal));
    assert!(!keeps_bar_while_stopping(Outcome::Discard));
}

#[test]
fn a_failed_copy_still_reveals_the_file() {
    let ok = kept_report(Some(Ok(())));
    assert!(ok.copied && !ok.reveal && ok.copy_error.is_none());
    let err = kept_report(Some(Err("no pasteboard".into())));
    assert!(!err.copied && err.reveal);
    assert_eq!(err.copy_error.unwrap(), "Saved, but could not copy it to the clipboard: no pasteboard");
    let reveal = kept_report(None);
    assert!(!reveal.copied && reveal.reveal && reveal.copy_error.is_none());
}

#[test]
fn frame_sizes_are_even() {
    assert_eq!(even_size(62), 62);
    assert_eq!(even_size(63), 62);
    assert_eq!(even_size(1), 2);
    assert_eq!(even_size(-5), 2);
    assert_eq!(even_size(2), 2);
}
