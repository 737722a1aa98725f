use std::time::Duration;

use vstd::prelude::*;

verus! {

/// Calls `Duration::default`, which is the zero duration. Verus holds a
/// `Duration` as an opaque value, so no clause states that it is zero.
#[verifier::external_body]
fn zero_duration() -> (d: Duration) {
    Duration::default()
}

/// Timing of the last rendered frame.
#[derive(Clone, Copy, Debug)]
pub struct RenderFrameInfo {
    frame_time: Duration,
}

impl RenderFrameInfo {
    /// How long the last frame took to render.
    pub closed spec fn spec_frame_time(&self) -> Duration {
        self.frame_time
    }

    /// How long the last frame took to render.
    pub fn frame_time(&self) -> (d: Duration)
        ensures
            d == self.spec_frame_time(),
    {
        self.frame_time
    }

    /// Records how long the frame just rendered took.
    pub fn record_frame(&mut self, frame_time: Duration)
        ensures
            final(self).spec_frame_time() == frame_time,
    {
        self.frame_time = frame_time;
    }
}

impl Default for RenderFrameInfo {
    /// No frame rendered yet: a frame time of zero.
    fn default() -> (info: Self) {
        RenderFrameInfo { frame_time: zero_duration() }
    }
}

} // verus!
