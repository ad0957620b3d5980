# recmi

A small desktop screen recorder: open, record, done. It records the primary
monitor at 30 frames per second into an MP4 file named after the local time
(`2026-08-17_19-52-31.mp4`), minimizing its window while it records.

- `src/` is the verified library (Verus):
  - `clock.rs`: the monotonic clock and the wall clock (std);
  - `text.rs`: decimal and zero-padded rendering of numbers;
  - `timestamp.rs`: the local time and the recording file names (chrono);
  - `recorder.rs`: the recording lifecycle and the decisions of starting a
    recording (which monitor, at what size, into which file; the window is
    hidden before capture is launched);
  - `pipeline.rs`: the frame rate, the encoder's command line, the capture pacing;
  - `ui.rs`: the control panel's state, area selection, window changes and labels.
- `app/` is the egui program around it: the window, the monitor queries
  (xcap), and the capture and encoder threads (ffmpeg).
- `tests/` exercises the library.
