//! Organizes photo and video files: derives a canonical capture timestamp and a
//! corrected visual orientation for each file, then renames them into a
//! deterministic, collision-free layout. The date fallback chain, the
//! orientation decision process, burst grouping, name generation and the step
//! plan of the atomic move engine are verified; the surrounding I/O lives
//! outside the library.

pub mod args;
pub mod burst;
pub mod classify;
pub mod cli;
pub mod clock;
pub mod config;
pub mod dates;
pub mod digits;
pub mod display;
pub mod errors;
pub mod exifdata;
pub mod fsutil;
pub mod handlers;
pub mod i18n;
pub mod logger;
pub mod logic;
pub mod media_orientation;
pub mod mover;
pub mod namegen;
pub mod photo_orientation;
pub mod photo_date;
pub mod preview;
pub mod processor;
pub mod progress;
pub mod prompt;
pub mod rename_error;
pub mod renamer;
pub mod video;
