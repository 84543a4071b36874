# rusty_mapper

The decision-making core of a projection-mapping application, written in
Verus and verified.

`src/` holds the library:

- `config` — window/resolution/application configuration with its
  defaults, where the configuration lives, and which stored copy is used at
  start-up (platform directory, then the legacy `./config.toml`, then
  defaults).
- `commands` — input and output commands written by the control window and
  carried out once per frame; the state each outcome leads to.
- `events` — output-window shortcuts (Escape, Shift+F) and the corner
  dragging of the video-wall edit mode.
- `frames` — per-frame routing of input frames, test-pattern uploads,
  preview selection, renderer switches and calibration follow-up.
- `readback` — padded-row layout of GPU readbacks, row-padding removal, and
  the double-buffered staging-slot pool.
- `matrix` — the video-matrix layout: configurations from AprilTag
  detections, presets, cell-mapping edits and the grid views.
- `audio`, `text`, `ui`, `window` — sample buffering, number and text
  helpers, control-window limits, output-window surface settings.

`app/` is the program around it: TOML and JSON files, the GPU readback
buffers, audio capture, and the floating-point tag geometry.
