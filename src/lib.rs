//! Verified core of a tracker-module decoder adapter.
//!
//! The playback engine reports time in seconds and renders interleaved
//! stereo float samples; the host media player speaks in byte offsets.
//! This crate holds the integer side of that adapter: frame and byte
//! units, the known-or-unbounded duration, the seek/read/size decisions,
//! and the metadata fallback rules that build the file-info record.
pub mod units;
pub mod timeline;
pub mod render;
pub mod info;
pub mod tuning;
