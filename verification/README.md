# vclip-media

Media-processing core of the vclip pipeline, verified with Verus.

- `src/` is the verified library: crop geometry and clamping, FFmpeg filter
  graphs and argument lists for the single-encode renderers and stacking,
  YuNet model discovery and resolution, temporal decimation of face
  detection, scene-cut debouncing and scene hashing, face-track bookkeeping
  with greedy IoU assignment, face-timeline queries, engine configuration
  presets, the IPv6 source-address pool, the runs between camera moves, the
  per-frame decisions and counters of the face inference engine, and the
  step functions of the tier-aware split and full-frame pipelines.
  Real-valued settings travel as the bit patterns of their `f64` values;
  `float_bits` orders such patterns as the values are ordered.
- `app/` holds what stays outside verification: process-wide caches behind
  locks, environment and network-interface reads, FFmpeg/FFprobe runs,
  JSON export, the geometry, filtering and statistics computed in
  floating point (Kalman filter state, coordinate mapping, speaker
  activity, smoothing), and the I/O loops of the tier-aware pipelines
  (`app/pipeline.rs`), which drive the library's step functions through a
  step trait.
- `tests/` exercises the library on concrete values.

Not part of this crate: the OpenCV/ONNX face detectors, face mesh and
letterboxing; the premium camera planner, target selector and smoothers;
the watermark overlay; and the concrete pipeline steps that rest on the
scene analysis types, detection adapter and thumbnail writer. The pipeline
loops in `app/` take those steps from their caller.
