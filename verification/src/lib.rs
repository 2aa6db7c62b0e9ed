//! Timing, frame layout and display bookkeeping for an animated wallpaper.
//!
//! The library holds every decision the wallpaper makes as plain values:
//! in which order frames are shown, where the playback position stands
//! after each tick, what the shader's uniform block holds, and which
//! display targets are alive. Talking to the GPU, the compositor and the
//! file system is left to the program around it.
//!
//! - `options`: the configuration.
//! - `natural`: the order of the files of a frame directory.
//! - `frames`: the frame store, from decoded frames to the planned upload.
//! - `shaders`: the sources of the shader program and its resource layout.
//! - `playback`: the playback clock and the uniform block it maintains.
//! - `binary32` and `uniform`: how a position becomes the bytes the
//!   fragment stage reads.
//! - `surfaces`: the display targets.
//! - `platform`: placing a window as a display's background.
//! - `schedule`: what each event of the event loop leads to.
//! - `unix`: window hints and decoration colours on Unix desktops.

pub mod options;
pub mod uniform;
pub mod binary32;
pub mod playback;
pub mod surfaces;
pub mod natural;
pub mod frames;
pub mod shaders;
pub mod platform;
pub mod schedule;
pub mod unix;
