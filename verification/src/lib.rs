//! Verified command core of a Teletype-style live-coding instrument.

pub mod text;
pub mod console;
pub mod state;
pub mod rng;
pub mod patterns;
pub mod args;
pub mod counters;
pub mod math_ops;
pub mod scale;
pub mod sync;
pub mod random_ops;
pub mod gate;
pub mod scheduling;
pub mod history;
pub mod audio_devices;
pub mod aliases;
pub mod validate;
pub mod editor;
pub mod input_line;
pub mod variables;
pub mod randomization;
pub mod synth_params;
pub mod script_exec;
pub mod navigation;
pub mod search;
pub mod router;
