//! How an engine session is set up for its run mode: the window, whether it
//! becomes the desktop wallpaper, the settings panel, and shader hot-reload.
//!
//! Creating the window and the GPU surface is done by the caller with the
//! plan this module returns.

use vstd::prelude::*;

use crate::config::Mode;

verus! {

/// Window size used in wallpaper mode when the primary monitor is unknown.
pub const FALLBACK_WIDTH: u32 = 1920;
pub const FALLBACK_HEIGHT: u32 = 1080;

/// The window the engine opens.
#[derive(Clone, Copy, Debug, PartialEq, Eq, Structural)]
pub struct WindowPlan {
    pub width: u32,
    pub height: u32,
    pub resizable: bool,
    pub decorated: bool,
    pub always_on_top: bool,
    /// Placed at the origin of the virtual desktop.
    pub at_origin: bool,
}

/// Everything a session decides before its window exists.
#[derive(Clone, Copy, Debug, PartialEq, Eq, Structural)]
pub struct SessionPlan {
    pub window: WindowPlan,
    /// Re-parent the window behind the desktop icons.
    pub attach_to_desktop: bool,
    /// Build the settings panel.
    pub settings_panel: bool,
    /// Show the settings panel from the start.
    pub panel_open: bool,
    /// Watch the selected shader file and reload it on change.
    pub watch_shader: bool,
}

/// The setup for `mode`: a preview gets a decorated, resizable window of the
/// configured size (kept on top when asked) with its settings panel open; a
/// wallpaper gets an undecorated, fixed window at the desktop origin covering
/// the primary monitor (or [`FALLBACK_WIDTH`] × [`FALLBACK_HEIGHT`] when its
/// size is unknown), attached to the desktop, with no panel. The shader file
/// is watched when asked for and the selected scene is a file.
pub open spec fn spec_plan_session(
    mode: Mode,
    width: u32,
    height: u32,
    top: bool,
    watch: bool,
    monitor: Option<(u32, u32)>,
    scene_is_file: bool,
) -> SessionPlan {
    let window = match mode {
        Mode::Preview => WindowPlan {
            width,
            height,
            resizable: true,
            decorated: true,
            always_on_top: top,
            at_origin: false,
        },
        Mode::Wallpaper => {
            let (w, h) = match monitor {
                Some(m) => m,
                None => (FALLBACK_WIDTH, FALLBACK_HEIGHT),
            };
            WindowPlan {
                width: w,
                height: h,
                resizable: false,
                decorated: false,
                always_on_top: false,
                at_origin: true,
            }
        },
    };
    SessionPlan {
        window,
        attach_to_desktop: mode == Mode::Wallpaper,
        settings_panel: mode == Mode::Preview,
        panel_open: mode == Mode::Preview,
        watch_shader: watch && scene_is_file,
    }
}

/// Plan a session; see [`spec_plan_session`].
pub fn plan_session(
    mode: Mode,
    width: u32,
    height: u32,
    top: bool,
    watch: bool,
    monitor: Option<(u32, u32)>,
    scene_is_file: bool,
) -> (r: SessionPlan)
    ensures
        r == spec_plan_session(mode, width, height, top, watch, monitor, scene_is_file),
        mode == Mode::Preview ==> r.window.always_on_top == top && r.window.width == width
            && r.window.height == height && r.window.resizable && r.window.decorated
            && !r.window.at_origin,
        mode == Mode::Wallpaper ==> !r.window.always_on_top && !r.window.resizable
            && !r.window.decorated && r.window.at_origin,
        r.watch_shader == (watch && scene_is_file),
{
    let window = match mode {
        Mode::Preview => WindowPlan {
            width,
            height,
            resizable: true,
            decorated: true,
            always_on_top: top,
            at_origin: false,
        },
        Mode::Wallpaper => {
            let (w, h) = match monitor {
                Some(m) => m,
                None => (FALLBACK_WIDTH, FALLBACK_HEIGHT),
            };
            WindowPlan {
                width: w,
                height: h,
                resizable: false,
                decorated: false,
                always_on_top: false,
                at_origin: true,
            }
        },
    };
    let preview = match mode {
        Mode::Preview => true,
        Mode::Wallpaper => false,
    };
    SessionPlan {
        window,
        attach_to_desktop: !preview,
        settings_panel: preview,
        panel_open: preview,
        watch_shader: watch && scene_is_file,
    }
}

/// A preview window stays above other windows exactly when asked to, and a
/// wallpaper window never does.
pub proof fn lemma_on_top_only_when_asked(
    mode: Mode,
    width: u32,
    height: u32,
    top: bool,
    watch: bool,
    monitor: Option<(u32, u32)>,
    scene_is_file: bool,
)
    ensures
        spec_plan_session(mode, width, height, top, watch, monitor, scene_is_file).window.always_on_top
            == (mode == Mode::Preview && top),
{
}

/// A wallpaper never shows the settings panel and always sits behind the
/// desktop icons; a preview never does.
pub proof fn lemma_wallpaper_has_no_panel(
    mode: Mode,
    width: u32,
    height: u32,
    top: bool,
    watch: bool,
    monitor: Option<(u32, u32)>,
    scene_is_file: bool,
)
    ensures
        ({
            let p = spec_plan_session(mode, width, height, top, watch, monitor, scene_is_file);
            &&& p.attach_to_desktop <==> !p.settings_panel
            &&& p.panel_open ==> p.settings_panel
            &&& p.attach_to_desktop ==> !p.window.decorated && !p.window.resizable
        }),
{
}

} // verus!
