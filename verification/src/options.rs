//! Render options: the debug-flags bitmask and the optional
//! device-pixel-ratio override.

use vstd::prelude::*;

use crate::math::MILLI;

verus! {

/// Bit of the debug bitmask that makes the debug overlay visible.
pub const DEBUG_VISIBLE: u32 = 1;

/// Largest device-pixel ratio, in thousandths (a hundred-fold ratio).
pub const DPR_MAX: u32 = 100_000;

/// Configuration of a render state: debug flags, and the device-pixel-ratio
/// override in thousandths (`None` means 1.0).
#[derive(Clone, Copy, PartialEq, Eq, Structural, Debug)]
pub struct RenderOptions {
    pub debug_flags: u32,
    pub dpr: Option<u32>,
}

impl Default for RenderOptions {
    /// No debug flags, no device-pixel-ratio override.
    fn default() -> (r: RenderOptions)
        ensures
            r.debug_flags == 0,
            r.dpr is None,
    {
        RenderOptions { debug_flags: 0, dpr: None }
    }
}

impl RenderOptions {
    /// A ratio override, if set, is positive and within the budget.
    pub open spec fn wf(self) -> bool {
        match self.dpr {
            Some(d) => 1 <= d <= DPR_MAX,
            None => true,
        }
    }

    pub open spec fn spec_debug_visible(self) -> bool {
        self.debug_flags & DEBUG_VISIBLE == DEBUG_VISIBLE
    }

    /// The effective device-pixel ratio, in thousandths.
    pub open spec fn spec_dpr(self) -> u32 {
        match self.dpr {
            Some(d) => d,
            None => MILLI,
        }
    }

    pub fn is_debug_visible(&self) -> (r: bool)
        ensures
            r == self.spec_debug_visible(),
    {
        self.debug_flags & DEBUG_VISIBLE == DEBUG_VISIBLE
    }

    pub fn dpr(&self) -> (r: u32)
        ensures
            r == self.spec_dpr(),
    {
        match self.dpr {
            Some(d) => d,
            None => MILLI,
        }
    }
}

} // verus!
