use recmi::recorder::{MonitorInfo, StartAction, StartEvent};
use recmi::ui::{
    area_label, drag_region, even_floor, selection_badge, selection_region, timer_text, Notice, RecMiApp,
    RecordingRegion, SelectedMode, WindowChange,
};

#[test]
fn selection_keeps_areas_of_at_least_twenty_pixels() {
    assert_eq!(selection_region(10, 20, 30, 40), Some(RecordingRegion::new(10, 20, 20, 20)));
    assert_eq!(selection_region(10, 20, 29, 400), None);
    assert_eq!(selection_region(10, 20, 400, 39), None);
    assert_eq!(selection_region(100, 100, 50, 50), None);
    assert_eq!(selection_region(0, 0, 1920, 1080), Some(RecordingRegion::new(0, 0, 1920, 1080)));
}

#[test]
fn badge_sizes_are_even() {
    assert_eq!(even_floor(0), 0);
    assert_eq!(even_floor(1), 0);
    assert_eq!(even_floor(101), 100);
    assert_eq!(even_floor(100), 100);
    assert_eq!(even_floor(u32::MAX), u32::MAX - 1);
}

#[test]
fn labels() {
    assert_eq!(selection_badge(640, 480), " 640 × 480 px ");
    assert_eq!(area_label(&RecordingRegion::new(5, 6, 300, 200)), "Area: 300×200 px");
}

#[test]
fn timer_shows_minutes_and_seconds() {
    assert_eq!(timer_text(0), "00:00");
    assert_eq!(timer_text(13), "00:13");
    assert_eq!(timer_text(60), "01:00");
    assert_eq!(timer_text(3725), "62:05");
    assert_eq!(timer_text(6000), "100:00");
}

#[test]
fn new_panel() {
    let app = RecMiApp::new();
    assert_eq!(app.mode(), SelectedMode::Fullscreen);
    assert_eq!(app.region(), None);
    assert!(!app.is_selecting_region());
    assert_eq!(app.error_msg(), None);
    assert!(!app.was_recording());
    assert!(!app.recorder().is_recording());
    assert!(app.notice().is_none());
    assert_eq!(app.summary_text(), "30 FPS  ·  MP4  ·  Fullscreen");
}

#[test]
fn region_button_opens_selection_only_without_an_area() {
    let mut app = RecMiApp::new();
    assert!(app.choose_region());
    assert!(app.is_selecting_region());
    assert_eq!(app.mode(), SelectedMode::Region);
    app.finish_region_selection(Some(((500, 350), (100, 50))));
    assert!(!app.is_selecting_region());
    assert_eq!(app.region(), Some(RecordingRegion::new(100, 50, 400, 300)));
    assert_eq!(app.summary_text(), "30 FPS  ·  MP4  ·  400×300");
    app.choose_fullscreen();
    assert_eq!(app.summary_text(), "30 FPS  ·  MP4  ·  Fullscreen");
    assert!(!app.choose_region());
    assert!(!app.is_selecting_region());
}

#[test]
fn small_or_missing_drag_keeps_the_previous_area_and_mode() {
    let mut app = RecMiApp::new();
    app.start_region_selection();
    app.finish_region_selection(Some(((0, 0), (10, 10))));
    assert_eq!(app.region(), None);
    assert_eq!(app.mode(), SelectedMode::Fullscreen);
    app.start_region_selection();
    app.finish_region_selection(None);
    assert!(!app.is_selecting_region());
    assert_eq!(app.region(), None);
}

#[test]
fn cancel_keeps_area_and_mode() {
    let mut app = RecMiApp::new();
    app.start_region_selection();
    app.finish_region_selection(Some(((0, 100), (100, 0))));
    app.choose_fullscreen();
    app.start_region_selection();
    app.cancel_region_selection();
    assert!(!app.is_selecting_region());
    assert_eq!(app.mode(), SelectedMode::Fullscreen);
    assert_eq!(app.region(), Some(RecordingRegion::new(0, 0, 100, 100)));
}

#[test]
fn start_failure_is_shown_and_cleared_by_the_next_request() {
    let mut app = RecMiApp::new();
    assert!(matches!(app.record(StartEvent::Requested), StartAction::ListMonitors));
    app.record(StartEvent::MonitorsListed(Ok(vec![])));
    assert_eq!(app.error_msg(), Some("No active monitors found".to_string()));
    match app.notice() {
        Some(Notice::Error(e)) => assert_eq!(e, "No active monitors found"),
        _ => panic!("no error notice"),
    }
    app.record(StartEvent::Requested);
    assert_eq!(app.error_msg(), None);
}

#[test]
fn record_hides_before_launch_then_stop_restores_and_shows_saved_file() {
    let mut app = RecMiApp::new();
    assert_eq!(app.sync_window(), WindowChange::Keep);
    app.record(StartEvent::Requested);
    let m = MonitorInfo { primary: Some(true), width: Ok(1920), height: Ok(1080) };
    let name = match app.record(StartEvent::MonitorsListed(Ok(vec![m]))) {
        StartAction::HideWindow { output_filename, .. } => output_filename,
        _ => panic!("no request to hide the window"),
    };
    assert!(app.was_recording());
    assert!(app.is_launching());
    assert!(!app.recorder().is_recording());
    assert_eq!(app.sync_window(), WindowChange::Keep);
    let hidden = StartEvent::WindowHidden { width: 1920, height: 1080, output_filename: name.clone() };
    assert!(matches!(app.record(hidden), StartAction::Launch { .. }));
    assert_eq!(app.sync_window(), WindowChange::Keep);
    assert!(matches!(app.record(StartEvent::Launched(name.clone())), StartAction::Finish(Ok(()))));
    assert!(!app.is_launching());
    assert!(app.recorder().is_recording());
    assert_eq!(app.sync_window(), WindowChange::Keep);
    assert!(app.was_recording());
    app.stop_recording();
    assert_eq!(app.sync_window(), WindowChange::Restore);
    assert_eq!(app.sync_window(), WindowChange::Keep);
    match app.notice() {
        Some(Notice::Saved(s)) => assert_eq!(s, format!("Saved: {}", name)),
        _ => panic!("no saved notice"),
    }
}

#[test]
fn error_is_shown_before_the_saved_file() {
    let mut app = RecMiApp::new();
    app.record(StartEvent::Launched("first.mp4".to_string()));
    app.stop_recording();
    match app.notice() {
        Some(Notice::Saved(s)) => assert_eq!(s, "Saved: first.mp4"),
        _ => panic!("no saved notice"),
    }
    app.record(StartEvent::Requested);
    app.record(StartEvent::MonitorsListed(Err("display gone".to_string())));
    match app.notice() {
        Some(Notice::Error(e)) => assert_eq!(e, "Failed to list monitors: display gone"),
        _ => panic!("no error notice"),
    }
}

#[test]
fn drag_selects_the_same_area_from_any_corner() {
    let a = drag_region((10, 20), (110, 220));
    assert_eq!(a, Some(RecordingRegion::new(10, 20, 100, 200)));
    assert_eq!(drag_region((110, 220), (10, 20)), a);
    assert_eq!(drag_region((10, 220), (110, 20)), a);
    assert_eq!(drag_region((110, 20), (10, 220)), a);
    assert_eq!(drag_region((10, 20), (29, 220)), None);
}

#[test]
fn recorder_launched_without_the_panel_still_minimizes() {
    let mut app = RecMiApp::new();
    app.record(StartEvent::Launched("x.mp4".to_string()));
    assert_eq!(app.sync_window(), WindowChange::Minimize);
}
