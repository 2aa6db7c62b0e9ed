//! The configuration the wallpaper is started with.

use vstd::prelude::*;

verus! {

/// Nanoseconds in one second.
pub const NANOS_PER_SECOND: u32 = 1_000_000_000;

/// What the user asked for on the command line.
#[derive(Clone, Debug, PartialEq, Eq)]
pub struct Opt {
    /// Verbose output.
    pub debug: bool,
    /// Frames of the animation shown per second.
    pub fps: u32,
    /// Images rendered per second; the frames in between are blended.
    pub rendered_fps: u32,
    /// Path of a fragment shader that replaces the built-in one.
    pub custom_fragment: Option<String>,
    /// Directory of still images, or one animated image file.
    pub frame_path: String,
}

impl Opt {
    /// The configuration with the default rates: five frames per second,
    /// rendered at twenty-five images per second, built-in shader.
    pub fn with_defaults(frame_path: String) -> (opt: Opt)
        ensures
            opt.debug == false,
            opt.fps == 5,
            opt.rendered_fps == 25,
            opt.custom_fragment is None,
            opt.frame_path == frame_path,
    {
        Opt { debug: false, fps: 5, rendered_fps: 25, custom_fragment: None, frame_path }
    }

    /// Whether playback follows the wall clock: exactly when a custom
    /// fragment shader is configured.
    pub open spec fn spec_use_timestamp(&self) -> bool {
        self.custom_fragment is Some
    }

    /// Whether playback follows the wall clock.
    #[verifier::when_used_as_spec(spec_use_timestamp)]
    pub fn use_timestamp(&self) -> (timestamp: bool)
        ensures
            timestamp == self.spec_use_timestamp(),
    {
        self.custom_fragment.is_some()
    }

    /// The time between two ticks in nanoseconds, rounded down; `None`
    /// when no image is to be rendered per second.
    pub fn timer_length(&self) -> (period: Option<u32>)
        ensures
            self.rendered_fps == 0 <==> period is None,
            period matches Some(nanos) ==> nanos == NANOS_PER_SECOND / self.rendered_fps,
    {
        if self.rendered_fps == 0 {
            None
        } else {
            Some(NANOS_PER_SECOND / self.rendered_fps)
        }
    }
}

} // verus!
