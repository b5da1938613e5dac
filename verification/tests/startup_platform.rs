use real_live_wall::persist::default_interval;
use real_live_wall::platform::{
    signal_stop, stop_requested, wallpaper_placement, wallpaper_running, watch_for_stop,
    MonitorRect,
};
use real_live_wall::renderer::{render_outcome, resize_target, surface_size, RenderOutcome, SurfaceStatus};
use real_live_wall::startup::{
    autostart_enabled, autostart_outcome, set_autostart, AutostartError, AutostartRequest,
};

fn wide(s: &str) -> Vec<u16> {
    let mut v: Vec<u16> = s.encode_utf16().collect();
    v.push(0);
    v
}

#[test]
fn enabling_writes_the_quoted_command() {
    match set_autostart(true, "\"C:\\rlw\\real_live_wall.exe\" --mode wallpaper") {
        AutostartRequest::Write { subkey, value_name, data } => {
            assert_eq!(subkey, wide("Software\\Microsoft\\Windows\\CurrentVersion\\Run"));
            assert_eq!(value_name, wide("real_live_wall"));
            assert_eq!(data, wide("\"C:\\rlw\\real_live_wall.exe\" --mode wallpaper"));
        }
        other => panic!("unexpected {other:?}"),
    }
    match set_autostart(false, "ignored") {
        AutostartRequest::Delete { value_name, .. } => assert_eq!(value_name, wide("real_live_wall")),
        other => panic!("unexpected {other:?}"),
    }
}

#[test]
fn registry_statuses_are_answered() {
    assert_eq!(autostart_outcome(true, 0, 0), Ok(()));
    assert_eq!(autostart_outcome(true, 5, 0), Err(AutostartError::CreateKey(5)));
    assert_eq!(autostart_outcome(true, 0, 87), Err(AutostartError::SetValue(87)));
    assert_eq!(autostart_outcome(false, 2, 0), Ok(()));
    assert_eq!(autostart_outcome(false, 0, 2), Ok(()));
    assert_eq!(autostart_outcome(false, 0, 5), Err(AutostartError::DeleteValue(5)));
    // Access denied on opening the key is a failure: nothing was deleted.
    assert_eq!(autostart_outcome(false, 5, 0), Err(AutostartError::CreateKey(5)));
    assert_eq!(
        AutostartError::DeleteValue(5).message(),
        "RegDeleteValueW(real_live_wall): Win32 error 5"
    );
    assert_eq!(AutostartError::CreateKey(1234).message(), "RegCreateKeyExW(Run): Win32 error 1234");
    assert!(autostart_enabled(Some(0)));
    assert!(!autostart_enabled(Some(2)));
    assert!(!autostart_enabled(None));
}

#[test]
fn stop_channel_and_placement() {
    assert!(watch_for_stop(true, true).is_some());
    assert!(watch_for_stop(true, false).is_none());
    assert!(watch_for_stop(false, false).is_none());
    assert!(stop_requested(0));
    assert!(!stop_requested(0x102));
    assert!(signal_stop(true, true));
    assert!(!signal_stop(true, false));
    assert!(!signal_stop(false, false));
    assert!(wallpaper_running(true, true));
    assert!(!wallpaper_running(false, false));
    let r = wallpaper_placement(MonitorRect { x: 0, y: 0, w: 1920, h: 1080 }, -1280, -200);
    assert_eq!(r, MonitorRect { x: 1280, y: 200, w: 1920, h: 1080 });
    assert_eq!(default_interval(), 300);
}

#[test]
fn surface_statuses() {
    assert_eq!(render_outcome(SurfaceStatus::Success), RenderOutcome::Presented);
    assert_eq!(render_outcome(SurfaceStatus::Suboptimal), RenderOutcome::Presented);
    assert_eq!(render_outcome(SurfaceStatus::Lost), RenderOutcome::NeedsReconfigure);
    assert_eq!(render_outcome(SurfaceStatus::Outdated), RenderOutcome::NeedsReconfigure);
    assert_eq!(render_outcome(SurfaceStatus::Validation), RenderOutcome::NeedsReconfigure);
    assert_eq!(render_outcome(SurfaceStatus::Timeout), RenderOutcome::Skipped);
    assert_eq!(render_outcome(SurfaceStatus::Occluded), RenderOutcome::Skipped);
    assert_eq!(resize_target(0, 10), None);
    assert_eq!(resize_target(640, 480), Some((640, 480)));
    assert_eq!(surface_size(0, 0), (1, 1));
    assert_eq!(surface_size(800, 0), (800, 1));
}
