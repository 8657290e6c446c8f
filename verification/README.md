# doorcam

The verified core of a door camera for a Raspberry Pi: motion detection on
a ring buffer of frames, motion-triggered capture to a write-ahead log
(WAL), MJPEG streaming, and a touch display.

`src/` is a library written in Verus. Every function in it carries a
contract that Verus proves:

- `wal`, `wal_export`: the WAL file format (header, records, writer,
  streaming and whole-file readers), with the law that a closed WAL reads
  back as written (ids, data and timestamps to the nanosecond), and the
  timing of frames in an exported video.
- `capture`: the captures in progress (a motion extends one or starts a
  new one), the preroll window, the end of the postroll, the ring buffer
  size, capture settings.
- `analyzer`: the integer steps of motion detection (luma extraction, frame
  difference, threshold, morphology and labelling through `imageproc`,
  largest region), the analysis cursor and the pacing of the analysis
  loop.
- `recovery`, `health`, `camera_health`: retry budgets with exponential
  backoff, component health, graceful degradation, health reports.
- `orchestration`, `keyboard`, `display`, `events`, `logging`: component
  lifecycle, key handling (space simulates motion; q, Q or Escape quits),
  display commands, RGB565 conversion, event
  filters, the event bus (with the log of what each handle published),
  metrics and history.
- `frame`, `camera`, `pipeline`, `encoder`: frames and their rotation,
  the synthetic camera, GStreamer pipeline descriptions, and the ffmpeg
  command line and pacing.
- `config`, `error`, `error_text`: configuration defaults and validation,
  error classification and messages.
- `opaque`: the std and outside types that the library carries without
  looking inside, and the trusted calls on them.

`app/` is the program around it: command line, logging, configuration
files and environment variables, the async runtime, the keyboard in raw
mode, the WAL export tool (`doorcam waltool ...`), and the steps that use
floating point (blurring, scaling, rates).

`tests/` exercises the library from outside.
