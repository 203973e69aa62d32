//! The interface zoom level.
//!
//! The view scales in steps of a tenth, between one tenth and five times the
//! natural size. The level is held as a count of tenths so the stepping and
//! clamping logic stays in plain integers; the caller divides by ten when it
//! hands the factor to the toolkit. Both step buttons of one frame are
//! applied together and the sum clamped once, so a plus and a minus in the
//! same frame cancel even at the bounds.

use vstd::prelude::*;

verus! {

/// How far the tenths count may go: five times the natural size.
pub const MAX_TENTHS: u32 = 50;

/// How close: a tenth of the natural size.
pub const MIN_TENTHS: u32 = 1;

/// The net change of one frame: a tenth up per plus, a tenth down per minus.
pub open spec fn step_delta(increase: bool, decrease: bool) -> int {
    (if increase {
        1int
    } else {
        0int
    }) - (if decrease {
        1int
    } else {
        0int
    })
}

/// A tenths count forced back into the allowed range.
pub open spec fn clamp_tenths(t: int) -> int {
    if t < MIN_TENTHS {
        MIN_TENTHS as int
    } else if t > MAX_TENTHS {
        MAX_TENTHS as int
    } else {
        t
    }
}

/// The zoom level, as a count of tenths of the natural size.
#[derive(Clone, Copy)]
pub struct Zoom {
    /// The scale factor times ten.
    pub tenths: u32,
}

impl Zoom {
    /// The level always stays between a tenth and five times.
    pub open spec fn wf(&self) -> bool {
        MIN_TENTHS <= self.tenths <= MAX_TENTHS
    }

    /// One frame's zoom change: the two buttons' deltas are added first and
    /// the sum clamped once.
    pub fn step(&mut self, increase: bool, decrease: bool)
        requires
            old(self).wf(),
        ensures
            final(self).wf(),
            final(self).tenths == clamp_tenths(
                old(self).tenths + step_delta(increase, decrease),
            ),
    {
        let mut t: u32 = self.tenths;
        if increase {
            t = t + 1;
        }
        if decrease {
            t = t - 1;
        }
        if t < MIN_TENTHS {
            t = MIN_TENTHS;
        } else if t > MAX_TENTHS {
            t = MAX_TENTHS;
        }
        self.tenths = t;
    }
}

impl Default for Zoom {
    /// The view opens at twice the natural size.
    fn default() -> (r: Self)
        ensures
            r.wf(),
            r.tenths == 20,
    {
        Zoom { tenths: 20 }
    }
}

} // verus!
