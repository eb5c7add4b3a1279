use vstd::prelude::*;

verus! {

/// Which groups of readings a text report shows.
pub struct OutputOptions {
    pub temps_only: bool,
    pub power_only: bool,
    pub freq_only: bool,
}

impl OutputOptions {
    /// Every group is shown when none was singled out.
    pub fn show_all(&self) -> (r: bool)
        ensures
            r == (!self.temps_only && !self.power_only && !self.freq_only),
    {
        !self.temps_only && !self.power_only && !self.freq_only
    }
}

} // verus!
