//! Verified core of a PulseAudio spectrum visualizer: settings lookup,
//! spectrum banding, ring-buffer windowing and the integer bookkeeping of the
//! visualizers.

pub mod bars;
pub mod beat;
pub mod dump;
pub mod grid;
pub mod lightning;
pub mod options;
pub mod pacing;
pub mod rings;
pub mod scene;
pub mod settings;
pub mod spectrum;
pub mod window;
