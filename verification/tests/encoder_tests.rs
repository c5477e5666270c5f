use socorin::encoder::{
    decimal, encoder_wait, ffmpeg_args, first_existing, screencapture_args, EncoderPoll, EncoderWait, ENCODER_DEADLINE_MS,
    SCREENCAPTURE,
};
use socorin::ffmpeg::Platform;

#[test]
fn integers_are_written_in_decimal() {
    for n in [0i64, 7, 10, 62, 1234567890, -1, -10, -220, i64::MAX, i64::MIN] {
        assert_eq!(decimal(n), n.to_string());
    }
}

#[test]
fn x11_recording_grabs_the_display_at_the_offset() {
    let args = ffmpeg_args(Platform::Linux, ":0", 220, 140, 62, 80, "/shots/a.mp4");
    assert_eq!(
        args,
        vec![
            "-hide_banner", "-loglevel", "error", "-y", "-f", "x11grab", "-framerate", "30", "-video_size", "62x80",
            "-i", ":0+220,140", "-c:v", "libx264", "-preset", "veryfast", "-pix_fmt", "yuv420p", "-movflags",
            "+faststart", "/shots/a.mp4",
        ]
    );
}

#[test]
fn windows_recording_uses_gdigrab() {
    let args = ffmpeg_args(Platform::Windows, "", -1920, 0, 1920, 1080, "C:\\shots\\a.mp4");
    assert_eq!(
        args,
        vec![
            "-hide_banner", "-loglevel", "error", "-y", "-f", "gdigrab", "-framerate", "30", "-offset_x", "-1920",
            "-offset_y", "0", "-video_size", "1920x1080", "-i", "desktop", "-c:v", "libx264", "-preset", "veryfast",
            "-pix_fmt", "yuv420p", "-movflags", "+faststart", "C:\\shots\\a.mp4",
        ]
    );
}

#[test]
fn the_encoder_gets_twenty_seconds() {
    assert_eq!(encoder_wait(EncoderPoll::Exited, 0), EncoderWait::Done);
    assert_eq!(encoder_wait(EncoderPoll::Exited, 60_000), EncoderWait::Done);
    assert_eq!(encoder_wait(EncoderPoll::Running, 19_950), EncoderWait::Poll);
    assert_eq!(encoder_wait(EncoderPoll::Running, ENCODER_DEADLINE_MS), EncoderWait::Kill);
    assert_eq!(encoder_wait(EncoderPoll::Unknown, 0), EncoderWait::Kill);
}

#[test]
fn the_first_existing_binary_is_run() {
    assert_eq!(first_existing(&vec![false, true, true]), Some(1));
    assert_eq!(first_existing(&vec![false, false]), None);
    assert_eq!(first_existing(&vec![]), None);
}

#[test]
fn screencapture_records_the_rounded_rectangle() {
    assert_eq!(
        screencapture_args(110, 70, 30, 40, "/tmp/Socorin 1.mov"),
        vec!["-v", "-x", "-R", "110,70,30,40", "/tmp/Socorin 1.mov"]
    );
    assert_eq!(screencapture_args(-1280, -3, 640, 480, "o.mov")[3], "-1280,-3,640,480");
    assert_eq!(SCREENCAPTURE, "/usr/sbin/screencapture");
}
