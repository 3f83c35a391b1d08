//! Playback settings applied to every module once it has loaded.
use vstd::prelude::*;

verus! {

/// Control key that turns on emulation of the Amiga's resampler.
pub const AMIGA_EMULATION_KEY: &'static str = "render.resampler.emulate_amiga";

/// Control key that picks which Amiga's resampler is emulated.
pub const AMIGA_MODEL_KEY: &'static str = "render.resampler.emulate_amiga_type";

/// The Amiga model emulated.
pub const AMIGA_MODEL: &'static str = "a500";

/// Control key that keeps sample playback in step across a seek.
pub const SEEK_SYNC_SAMPLES_KEY: &'static str = "seek.sync_samples";

/// Value that turns a boolean control on.
pub const ENABLED: &'static str = "1";

/// Taps of the interpolation filter (windowed sinc).
pub const INTERPOLATION_FILTER_LENGTH: i32 = 8;

/// Stereo separation, in percent of the module's own.
pub const STEREO_SEPARATION_PERCENT: i32 = 200;

} // verus!
