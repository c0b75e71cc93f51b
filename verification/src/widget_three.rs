//! The progress-gauge panel: display-only, self-driving. Each render step
//! advances the gauge a fixed amount and wraps it back to empty when full.
//! Progress is held in hundredths of the full gauge, so the fill ratio is
//! `progress / 100`.

use vstd::prelude::*;

verus! {

/// A full gauge, in hundredths.
pub const GAUGE_FULL: u8 = 100;

/// How far one render step advances the gauge, in hundredths.
pub const GAUGE_STEP: u8 = 2;

/// The gauge after one render step: advanced by the step, wrapped to empty
/// on reaching full.
pub open spec fn gauge_step(progress: int) -> int {
    if progress + GAUGE_STEP >= GAUGE_FULL {
        0
    } else {
        progress + GAUGE_STEP
    }
}

/// The progress-gauge panel.
pub struct WidgetThree {
    progress: u8,
}

impl WidgetThree {
    /// The displayed progress, in hundredths of the full gauge.
    pub closed spec fn progress_spec(&self) -> int {
        self.progress as int
    }

    /// Well-formed: the gauge is never shown past full.
    pub open spec fn wf(&self) -> bool {
        self.progress_spec() < GAUGE_FULL
    }

    /// A fresh gauge, empty.
    pub fn new() -> (r: WidgetThree)
        ensures
            r.wf(),
            r.progress_spec() == 0,
    {
        WidgetThree { progress: 0 }
    }

    /// The displayed progress in hundredths, for the render step.
    pub fn progress(&self) -> (r: u8)
        ensures
            r as int == self.progress_spec(),
    {
        self.progress
    }

    /// One render step: the gauge advances itself — rendering this panel is
    /// deliberately not a pure read — and wraps to empty on reaching full.
    pub fn render_step(&mut self)
        requires
            old(self).wf(),
        ensures
            final(self).wf(),
            final(self).progress_spec() == gauge_step(old(self).progress_spec()),
    {
        let next = self.progress + GAUGE_STEP;
        if next >= GAUGE_FULL {
            self.progress = 0;
        } else {
            self.progress = next;
        }
    }
}

} // verus!
