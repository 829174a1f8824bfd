//! The frame-rate counter.
//!
//! [`FPSCounter::update`] is called once per frame; whenever more than one
//! second has passed since the last rollover, the frames counted in that
//! second become the published rate, read by [`FPSCounter::count`].

use vstd::prelude::*;

use crate::backend;

verus! {

/// One second, in the microseconds the counter's clock ticks in.
pub const SECOND_MICROS: u128 = 1_000_000;

/// A frame counter publishing the number of frames seen in the last full
/// second.
pub struct FPSCounter {
    fps: u32,
    fps_time_stamp: u128,
    frame_counter: u32,
}

impl FPSCounter {
    /// The published rate.
    pub closed spec fn spec_count(self) -> u32 {
        self.fps
    }

    /// The instant, in microseconds, of the last rollover.
    pub closed spec fn spec_stamp(self) -> u128 {
        self.fps_time_stamp
    }

    /// The frames counted since the last rollover.
    pub closed spec fn spec_frames(self) -> u32 {
        self.frame_counter
    }

    /// What one update at `now` does: the frame is counted (holding at the
    /// counter's maximum rather than wrapping), and when more than a second
    /// has passed since the last rollover the count becomes the published
    /// rate and a new second starts at `now`.
    pub open spec fn spec_updated_post(pre: FPSCounter, post: FPSCounter, now: u128) -> bool {
        let counted: u32 = if pre.spec_frames() < u32::MAX {
            (pre.spec_frames() + 1) as u32
        } else {
            u32::MAX
        };
        if now > pre.spec_stamp() && now - pre.spec_stamp() > SECOND_MICROS {
            &&& post.spec_count() == counted
            &&& post.spec_stamp() == now
            &&& post.spec_frames() == 0
        } else {
            &&& post.spec_count() == pre.spec_count()
            &&& post.spec_stamp() == pre.spec_stamp()
            &&& post.spec_frames() == counted
        }
    }

    /// A fresh counter: rate zero, nothing counted yet.
    pub fn new() -> (r: FPSCounter)
        ensures
            r.spec_count() == 0,
            r.spec_stamp() == 0,
            r.spec_frames() == 0,
    {
        FPSCounter { fps: 0, fps_time_stamp: 0, frame_counter: 0 }
    }

    /// Counts one frame against the given instant: exactly
    /// [`FPSCounter::spec_updated_post`].
    pub fn update_at(&mut self, now_micros: u128)
        ensures
            FPSCounter::spec_updated_post(*old(self), *final(self), now_micros),
    {
        let counted: u32 = if self.frame_counter < u32::MAX {
            self.frame_counter + 1
        } else {
            u32::MAX
        };
        if now_micros > self.fps_time_stamp && now_micros - self.fps_time_stamp > 1_000_000 {
            self.fps = counted;
            self.fps_time_stamp = now_micros;
            self.frame_counter = 0;
        } else {
            self.frame_counter = counted;
        }
    }

    /// Counts one frame against the wall clock now: the result is
    /// [`FPSCounter::spec_updated_post`] at whatever instant the clock gave.
    pub fn update(&mut self)
        ensures
            exists|now: u128| FPSCounter::spec_updated_post(*old(self), *final(self), now),
    {
        let now = backend::now_micros();
        self.update_at(now);
    }

    /// The published rate: the number of frames seen in the last full
    /// second.
    pub fn count(&self) -> (r: u32)
        ensures
            r == self.spec_count(),
    {
        self.fps
    }
}

impl Default for FPSCounter {
    /// A fresh counter: rate zero, nothing counted yet.
    fn default() -> (r: FPSCounter)
        ensures
            r.spec_count() == 0,
            r.spec_stamp() == 0,
            r.spec_frames() == 0,
    {
        FPSCounter { fps: 0, fps_time_stamp: 0, frame_counter: 0 }
    }
}

} // verus!
