use rusty_mapper::commands::InputState;
use rusty_mapper::frames::{record_taken_frame, TakenFrame};
use rusty_mapper::frames::{record_discovery, DiscoveryState};
use rusty_mapper::frames::{
    calibration_follow_up, drop_calibration, enable_change, matrix_sync, preview_source,
    route_input1, route_input2, wall_config_needs_update, CalibrationStatusKind, FrameRoute,
    PatternUploadTracker, PreviewSource,
};

#[test]
fn input_routes() {
    assert_eq!(route_input1(false, false, false), FrameRoute::Skip);
    assert_eq!(route_input1(true, true, true), FrameRoute::Discard);
    assert_eq!(route_input1(true, false, true), FrameRoute::TakeTexture);
    assert_eq!(route_input1(true, false, false), FrameRoute::TakeCpuFrame);
    assert_eq!(route_input2(true, false), FrameRoute::TakeCpuFrame);
    assert_eq!(route_input2(true, true), FrameRoute::TakeTexture);
    assert_eq!(route_input2(false, true), FrameRoute::Skip);
}

#[test]
fn test_pattern_is_uploaded_once_per_size() {
    let mut t = PatternUploadTracker::new();
    assert!(!t.needs_upload(None));
    assert!(t.needs_upload(Some((1920, 1080))));
    t.record(Some((1920, 1080)), false);
    assert!(t.needs_upload(Some((1920, 1080))));
    t.record(Some((1920, 1080)), true);
    assert!(!t.needs_upload(Some((1920, 1080))));
    assert!(t.needs_upload(Some((1280, 720))));
    t.record(None, false);
    assert_eq!(t.last, None);
    assert!(t.needs_upload(Some((1920, 1080))));
}

#[test]
fn preview_and_renderer_switches() {
    assert_eq!(preview_source(true, true), PreviewSource::MatrixOutput);
    assert_eq!(preview_source(true, false), PreviewSource::RenderTarget);
    assert_eq!(preview_source(false, true), PreviewSource::RenderTarget);
    let c = enable_change(false, true, false);
    assert!(c.changed && c.create_renderer && c.create_output && !c.release_output);
    let c = enable_change(false, true, true);
    assert!(c.changed && !c.create_renderer && c.create_output);
    let c = enable_change(true, true, false);
    assert!(!c.changed && !c.create_renderer && !c.create_output && !c.release_output);
    let c = enable_change(true, false, true);
    assert!(c.changed && !c.create_renderer && !c.create_output && c.release_output);
}

#[test]
fn wall_and_matrix_updates() {
    assert!(wall_config_needs_update(false, false));
    assert!(!wall_config_needs_update(true, false));
    assert!(wall_config_needs_update(true, true));
    let s = matrix_sync(true, false, true);
    assert!(s.update_config && s.toggled);
    let s = matrix_sync(false, false, true);
    assert!(!s.update_config && !s.toggled);
    let s = matrix_sync(true, true, false);
    assert!(!s.update_config && !s.toggled);
}

#[test]
fn calibration_steps() {
    for k in [
        CalibrationStatusKind::InProgress,
        CalibrationStatusKind::ReadyForCapture,
        CalibrationStatusKind::Processing,
    ] {
        let f = calibration_follow_up(k);
        assert!(f.show_pattern && f.still_running && !f.apply_result);
    }
    let f = calibration_follow_up(CalibrationStatusKind::Complete);
    assert!(f.apply_result && !f.still_running && !f.show_pattern);
    let f = calibration_follow_up(CalibrationStatusKind::Error);
    assert!(!f.apply_result && !f.still_running);
    assert!(drop_calibration(false, true, false));
    assert!(!drop_calibration(true, true, false));
    assert!(!drop_calibration(false, true, true));
    assert!(!drop_calibration(false, false, false));
}

#[test]
fn taken_frames_update_sizes_and_calibration() {
    let mut s = InputState { is_active: true, source_name: "cam".to_string(), width: 1, height: 2 };
    let f = record_taken_frame(&mut s, 1, TakenFrame::Nothing, true);
    assert!(!f.upload && !f.submit_to_calibration);
    assert_eq!((s.width, s.height), (1, 2));
    let f = record_taken_frame(&mut s, 1, TakenFrame::Texture { width: 640, height: 480 }, true);
    assert!(!f.upload && !f.submit_to_calibration);
    assert_eq!((s.width, s.height), (640, 480));
    let f = record_taken_frame(&mut s, 1, TakenFrame::CpuFrame { width: 1920, height: 1080 }, true);
    assert!(f.upload && f.submit_to_calibration);
    assert_eq!((s.width, s.height), (1920, 1080));
    let f = record_taken_frame(&mut s, 2, TakenFrame::CpuFrame { width: 8, height: 8 }, true);
    assert!(f.upload && !f.submit_to_calibration);
    let f = record_taken_frame(&mut s, 1, TakenFrame::CpuFrame { width: 8, height: 8 }, false);
    assert!(!f.submit_to_calibration);
    assert!(s.is_active);
    assert_eq!(s.source_name, "cam");
}

#[test]
fn discovery_results_are_recorded() {
    let mut d = DiscoveryState {
        discovered_webcams: vec!["old".to_string()],
        discovered_ndi_sources: Vec::new(),
        discovering_devices: false,
    };
    record_discovery(&mut d, None, true);
    assert!(d.discovering_devices);
    assert_eq!(d.discovered_webcams, vec!["old"]);
    record_discovery(&mut d, Some((vec!["cam".to_string()], vec!["HOST (A)".to_string()])), true);
    assert!(!d.discovering_devices);
    assert_eq!(d.discovered_webcams, vec!["cam"]);
    assert_eq!(d.discovered_ndi_sources, vec!["HOST (A)"]);
}
