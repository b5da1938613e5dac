# real_live_wall

A reactive live-wallpaper engine: a full-screen shader (the built-in scene or
a Shadertoy GLSL file) that reacts to system audio, load and the clock, shown
in a preview window or as the desktop wallpaper.

## Layout

- `src/` — the library, written in Verus and verified: command-line choices,
  the scene list (`.glsl` files in name order), session setup per run mode,
  the self-update logic (version comparison, asset choice, the staged-update
  state machine and its helper script), GLSL wrapping, the tray menu, icon
  data and message handling, auto-start registry requests, the stop channel
  between instances, screenshot read-back and PNG encoding, album-art colour
  histograms and track-change detection.
- `app/` — the program around it: argument parsing, settings files, HTTP and
  archive handling for updates, and the floating-point audio analysis and
  palette scoring.
- `tests/` — tests of the library on concrete values.

## What this build does not link

The GPU renderer and window (wgpu, winit), the settings panel (egui), audio
capture (cpal), the Win32/WinRT bindings (windows: wallpaper attachment, tray
icon, registry, media session), file watching (notify) and system sampling
(sysinfo) are not dependencies of this build. The program therefore parses
its arguments, handles `--stop`, prepares the scene list, settings and
session plan, and then reports that no rendering backend is available;
`--screenshot` likewise reports that no GPU is linked. The operating-system
steps run as on a platform without them: no stop channel, no auto-start
entry, no media session.
