use real_live_wall::config::Mode;
use real_live_wall::session::{plan_session, WindowPlan, FALLBACK_HEIGHT, FALLBACK_WIDTH};

#[test]
fn preview_gets_a_resizable_window_with_open_panel() {
    let p = plan_session(Mode::Preview, 1280, 720, true, true, Some((2560, 1440)), true);
    assert_eq!(
        p.window,
        WindowPlan {
            width: 1280,
            height: 720,
            resizable: true,
            decorated: true,
            always_on_top: true,
            at_origin: false
        }
    );
    assert!(!p.attach_to_desktop);
    assert!(p.settings_panel && p.panel_open);
    assert!(p.watch_shader);
}

#[test]
fn wallpaper_covers_the_monitor_without_panel() {
    let p = plan_session(Mode::Wallpaper, 1280, 720, true, false, Some((2560, 1440)), true);
    assert_eq!(
        p.window,
        WindowPlan {
            width: 2560,
            height: 1440,
            resizable: false,
            decorated: false,
            always_on_top: false,
            at_origin: true
        }
    );
    assert!(p.attach_to_desktop);
    assert!(!p.settings_panel && !p.panel_open);
    assert!(!p.watch_shader);
}

#[test]
fn wallpaper_falls_back_to_full_hd_and_watch_needs_a_file() {
    let p = plan_session(Mode::Wallpaper, 10, 10, false, true, None, false);
    assert_eq!((p.window.width, p.window.height), (FALLBACK_WIDTH, FALLBACK_HEIGHT));
    assert_eq!((FALLBACK_WIDTH, FALLBACK_HEIGHT), (1920, 1080));
    assert!(!p.watch_shader);
    let p = plan_session(Mode::Preview, 10, 10, false, true, None, false);
    assert!(!p.watch_shader);
}
