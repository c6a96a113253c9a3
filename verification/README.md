# pa_visualizer

A collection of PulseAudio spectrum visualizers. The crate is split in two:

- `src/` is the verified library (Verus): reading settings from the TOML
  configuration, choosing which ring-buffer samples form the next spectrum
  window, packing spectrum bins into display columns and rings, beat onset
  detection, the bookkeeping of the landscape grid and its lightning strikes,
  the terminal bar layout, the frame pacing of live and rendering mode, and
  the small state machines of the space scene.
- `app/` is the program around it: audio recording and playback, the
  threads, the Fourier transform and every floating-point computation, and
  the drawing code of the visualizers (terminal, dump file, SFML, glium,
  Python).

Run a visualizer with its name as the first argument, for example
`ascii`, `debug`, `sfml-simple` or `space`.
