use recmi::pipeline::{encoder_command, frame_pause_nanos, FRAMES_PER_SECOND};
use recmi::timestamp::MAX_NAMED_SECS;
use recmi::recorder::{capture_step, first_primary, MonitorInfo, Recorder, RecorderState, StartAction, StartEvent};

fn monitor(primary: Option<bool>, width: u32, height: u32) -> MonitorInfo {
    MonitorInfo { primary, width: Ok(width), height: Ok(height) }
}

fn finish_err(a: &StartAction) -> Option<String> {
    match a {
        StartAction::Finish(Err(e)) => Some(e.clone()),
        _ => None,
    }
}

fn is_finish_ok(a: &StartAction) -> bool {
    matches!(a, StartAction::Finish(Ok(())))
}

fn hide_of(a: &StartAction) -> Option<(u32, u32, String)> {
    match a {
        StartAction::HideWindow { width, height, output_filename } => {
            Some((*width, *height, output_filename.clone()))
        }
        _ => None,
    }
}

fn launch_of(a: &StartAction) -> Option<(u32, u32, String)> {
    match a {
        StartAction::Launch { width, height, output_filename } => {
            Some((*width, *height, output_filename.clone()))
        }
        _ => None,
    }
}

fn recording_name(r: &Recorder) -> Option<String> {
    match r.state() {
        RecorderState::Recording { output_filename, .. } => Some(output_filename.clone()),
        _ => None,
    }
}

#[test]
fn new_recorder_is_idle() {
    let r = Recorder::new();
    assert!(!r.is_recording());
    assert_eq!(r.elapsed_secs(), 0);
    assert!(matches!(r.state(), RecorderState::Idle));
}

#[test]
fn request_when_idle_asks_for_monitors() {
    let mut r = Recorder::new();
    assert!(matches!(r.start(StartEvent::Requested), StartAction::ListMonitors));
    assert!(matches!(r.state(), RecorderState::Idle));
}

#[test]
fn failed_listing_reports_the_error() {
    let mut r = Recorder::new();
    let a = r.start(StartEvent::MonitorsListed(Err("no display".to_string())));
    assert_eq!(finish_err(&a).unwrap(), "Failed to list monitors: no display");
    assert!(matches!(r.state(), RecorderState::Idle));
}

#[test]
fn empty_listing_reports_no_monitors() {
    let mut r = Recorder::new();
    let a = r.start(StartEvent::MonitorsListed(Ok(vec![])));
    assert_eq!(finish_err(&a).unwrap(), "No active monitors found");
}

#[test]
fn primary_monitor_is_recorded_at_its_size_after_hiding() {
    let mut r = Recorder::new();
    let ms = vec![monitor(Some(false), 800, 600), monitor(Some(true), 1920, 1080), monitor(Some(true), 1280, 720)];
    let a = r.start(StartEvent::MonitorsListed(Ok(ms)));
    assert!(launch_of(&a).is_none());
    let (w, h, name) = hide_of(&a).unwrap();
    assert_eq!((w, h), (1920, 1080));
    assert_eq!(name.len(), 23);
    assert!(name.ends_with(".mp4"));
    assert!(!r.is_recording());
    let a = r.start(StartEvent::WindowHidden { width: w, height: h, output_filename: name.clone() });
    assert_eq!(launch_of(&a).unwrap(), (1920, 1080, name));
    assert!(!r.is_recording());
}

#[test]
fn unknown_primary_flag_counts_as_not_primary() {
    let ms = vec![monitor(None, 800, 600), monitor(Some(true), 1024, 768)];
    assert_eq!(first_primary(&ms), Some(1));
    let ms = vec![monitor(None, 800, 600), monitor(Some(false), 1024, 768)];
    assert_eq!(first_primary(&ms), None);
}

#[test]
fn no_primary_asks_for_a_second_listing() {
    let mut r = Recorder::new();
    let ms = vec![monitor(Some(false), 800, 600), monitor(None, 1024, 768)];
    assert!(matches!(r.start(StartEvent::MonitorsListed(Ok(ms))), StartAction::ListMonitorsAgain));
}

#[test]
fn second_listing_uses_its_first_monitor() {
    let mut r = Recorder::new();
    let ms = vec![monitor(Some(false), 1366, 768), monitor(Some(false), 1024, 768)];
    let a = r.start(StartEvent::MonitorsRelisted(Ok(ms)));
    let (w, h, _) = hide_of(&a).unwrap();
    assert_eq!((w, h), (1366, 768));
}

#[test]
fn failed_or_empty_second_listing_reports_primary_unavailable() {
    let mut r = Recorder::new();
    let a = r.start(StartEvent::MonitorsRelisted(Ok(vec![])));
    assert_eq!(finish_err(&a).unwrap(), "Primary monitor unavailable");
    let a = r.start(StartEvent::MonitorsRelisted(Err("gone".to_string())));
    assert_eq!(finish_err(&a).unwrap(), "Primary monitor unavailable");
}

#[test]
fn size_errors_are_reported_width_first() {
    let mut r = Recorder::new();
    let m = MonitorInfo { primary: Some(true), width: Err("w failed".to_string()), height: Err("h failed".to_string()) };
    let a = r.start(StartEvent::MonitorsListed(Ok(vec![m])));
    assert_eq!(finish_err(&a).unwrap(), "w failed");
    let m = MonitorInfo { primary: Some(true), width: Ok(10), height: Err("h failed".to_string()) };
    let a = r.start(StartEvent::MonitorsListed(Ok(vec![m])));
    assert_eq!(finish_err(&a).unwrap(), "h failed");
}

#[test]
fn launched_starts_recording_and_stop_saves_the_file() {
    let mut r = Recorder::new();
    let a = r.start(StartEvent::Launched("2026-08-17_19-52-31.mp4".to_string()));
    assert!(is_finish_ok(&a));
    assert!(r.is_recording());
    assert_eq!(recording_name(&r).unwrap(), "2026-08-17_19-52-31.mp4");
    assert!(r.elapsed_secs() < 60);
    r.stop();
    assert!(!r.is_recording());
    assert_eq!(r.elapsed_secs(), 0);
    match r.state() {
        RecorderState::Finished { saved_path } => assert_eq!(saved_path, "2026-08-17_19-52-31.mp4"),
        _ => panic!("not finished"),
    }
}

#[test]
fn request_while_recording_succeeds_at_once() {
    let mut r = Recorder::new();
    r.start(StartEvent::Launched("a.mp4".to_string()));
    assert!(is_finish_ok(&r.start(StartEvent::Requested)));
    assert_eq!(recording_name(&r).unwrap(), "a.mp4");
}

#[test]
fn stop_when_idle_changes_nothing_and_twice_is_once() {
    let mut r = Recorder::new();
    r.stop();
    assert!(matches!(r.state(), RecorderState::Idle));
    r.start(StartEvent::Launched("b.mp4".to_string()));
    r.stop();
    r.stop();
    match r.state() {
        RecorderState::Finished { saved_path } => assert_eq!(saved_path, "b.mp4"),
        _ => panic!("not finished"),
    }
}

#[test]
fn encoder_command_line() {
    let argv = encoder_command(1920, 1080, "2026-08-17_19-52-31.mp4");
    let expected = [
        "ffmpeg", "-f", "rawvideo", "-pixel_format", "rgba", "-video_size", "1920x1080",
        "-framerate", "30", "-i", "pipe:0", "-c:v", "libx264", "-pix_fmt", "yuv420p",
        "-preset", "ultrafast", "-y", "2026-08-17_19-52-31.mp4",
    ];
    assert_eq!(argv, expected.iter().map(|s| s.to_string()).collect::<Vec<String>>());
    assert_eq!(FRAMES_PER_SECOND, 30);
}

#[test]
fn frame_pause_fills_the_frame() {
    assert_eq!(frame_pause_nanos(33_333_333, 10_000_000), 23_333_333);
    assert_eq!(frame_pause_nanos(33_333_333, 33_333_333), 0);
    assert_eq!(frame_pause_nanos(33_333_333, 50_000_000), 0);
    assert_eq!(frame_pause_nanos(33_333_333, 0), 33_333_333);
}

#[test]
fn capture_step_names_the_file_from_the_clock_reading() {
    let m = monitor(Some(true), 1280, 720);
    let (w, h, name) = hide_of(&capture_step(&m, Some(1_786_924_800))).unwrap();
    assert_eq!((w, h), (1280, 720));
    assert!(name.starts_with("2026-08-1") && name.ends_with(".mp4"));
    assert_eq!(finish_err(&capture_step(&m, None)).unwrap(), "Failed to read the local time");
    assert_eq!(
        finish_err(&capture_step(&m, Some(MAX_NAMED_SECS + 1))).unwrap(),
        "Failed to read the local time"
    );
    let bad = MonitorInfo { primary: Some(true), width: Err("w".to_string()), height: Ok(1) };
    assert_eq!(finish_err(&capture_step(&bad, None)).unwrap(), "w");
}
