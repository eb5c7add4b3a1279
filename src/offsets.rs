use vstd::prelude::*;

verus! {

/// Offset value that marks a per-core array as absent from a table version.
pub const SENTINEL: usize = 0xFFFF;

/// Byte offsets of the fields of one PM table version.
///
/// Scalar fields are 32-bit values at a fixed offset; per-core arrays hold one
/// 32-bit value per core, starting at their base offset. A base equal to
/// [`SENTINEL`] marks an array that this version does not have.
#[derive(Debug, Clone, Copy, PartialEq, Eq, Structural)]
pub struct PmTableOffsets {
    pub ppt_limit: usize,
    pub ppt_value: usize,
    pub tdc_limit: usize,
    pub tdc_value: usize,
    pub thm_limit: usize,
    /// Tctl, the junction temperature.
    pub thm_value: usize,
    pub edc_limit: usize,
    pub edc_value: usize,
    /// Package power.
    pub cpu_power: usize,
    pub soc_power: usize,
    pub cpu_voltage: usize,
    pub soc_voltage: usize,
    pub fclk: usize,
    pub mclk: usize,
    pub soc_temp: usize,
    pub core_power_base: usize,
    pub core_temp_base: usize,
    pub core_freq_base: usize,
    pub core_freqeff_base: usize,
    pub core_c0_base: usize,
    /// Largest number of cores that the per-core arrays hold.
    pub max_cores: usize,
}

/// Larger of two offsets, where the sentinel counts as nothing.
pub open spec fn larger_present(acc: nat, base: usize) -> nat {
    if base != SENTINEL && base > acc {
        base as nat
    } else {
        acc
    }
}

impl PmTableOffsets {
    /// The largest base offset among the per-core arrays that are present,
    /// or 0 when none is.
    pub open spec fn max_core_base(self) -> nat {
        larger_present(
            larger_present(
                larger_present(
                    larger_present(larger_present(0, self.core_c0_base), self.core_power_base),
                    self.core_temp_base,
                ),
                self.core_freq_base,
            ),
            self.core_freqeff_base,
        )
    }

    /// Smallest table length that this layout accepts for `core_count` cores.
    pub open spec fn min_size(self, core_count: nat) -> nat {
        self.max_core_base() + 4 * core_count
    }

    /// The 32-bit scalar fields lie below the largest per-core base, so a table
    /// long enough for its per-core arrays holds every scalar; no base exceeds
    /// the sentinel; the arrays hold at most [`MAX_CORES`](crate::MAX_CORES) cores.
    pub open spec fn wf(self) -> bool {
        let top = self.max_core_base();
        &&& self.ppt_limit + 4 <= top
        &&& self.ppt_value + 4 <= top
        &&& self.tdc_limit + 4 <= top
        &&& self.tdc_value + 4 <= top
        &&& self.thm_limit + 4 <= top
        &&& self.thm_value + 4 <= top
        &&& self.edc_limit + 4 <= top
        &&& self.edc_value + 4 <= top
        &&& self.cpu_power + 4 <= top
        &&& self.soc_power + 4 <= top
        &&& self.cpu_voltage + 4 <= top
        &&& self.soc_voltage + 4 <= top
        &&& self.fclk + 4 <= top
        &&& self.mclk + 4 <= top
        &&& self.soc_temp + 4 <= top
        &&& self.core_power_base <= SENTINEL
        &&& self.core_temp_base <= SENTINEL
        &&& self.core_freq_base <= SENTINEL
        &&& self.core_freqeff_base <= SENTINEL
        &&& self.core_c0_base <= SENTINEL
        &&& self.max_cores <= 16
    }

    /// The largest base offset among the per-core arrays that are present.
    pub fn largest_core_base(&self) -> (r: usize)
        ensures
            r == self.max_core_base(),
    {
        let bases: [usize; 5] = [
            self.core_c0_base,
            self.core_power_base,
            self.core_temp_base,
            self.core_freq_base,
            self.core_freqeff_base,
        ];
        let mut top: usize = 0;
        let mut i: usize = 0;
        while i < 5
            invariant
                0 <= i <= 5,
                bases@ == seq![
                    self.core_c0_base,
                    self.core_power_base,
                    self.core_temp_base,
                    self.core_freq_base,
                    self.core_freqeff_base,
                ],
                top == larger_present_prefix(bases@, i as int),
            decreases 5 - i,
        {
            if bases[i] != SENTINEL && bases[i] > top {
                top = bases[i];
            }
            i = i + 1;
        }
        proof {
            reveal_with_fuel(larger_present_prefix, 6);
        }
        top
    }
}

/// `larger_present` folded over the first `k` offsets of `bases`, from 0.
pub open spec fn larger_present_prefix(bases: Seq<usize>, k: int) -> nat
    decreases k,
{
    if k <= 0 {
        0
    } else {
        larger_present(larger_present_prefix(bases, k - 1), bases[k - 1])
    }
}

/// Layout of table version 0x240903 (Matisse and Vermeer).
pub open spec fn layout_240903() -> PmTableOffsets {
    PmTableOffsets {
        ppt_limit: 0x000,
        ppt_value: 0x004,
        tdc_limit: 0x008,
        tdc_value: 0x00C,
        thm_limit: 0x010,
        thm_value: 0x014,
        edc_limit: 0x020,
        edc_value: 0x024,
        cpu_power: 0x060,
        soc_power: 0x064,
        cpu_voltage: 0x0A0,
        soc_voltage: 0x0B4,
        fclk: 0x0C0,
        mclk: 0x0CC,
        soc_temp: 0x1CC,
        core_power_base: 0x24C,
        core_temp_base: 0x28C,
        core_freq_base: 0x2EC,
        core_freqeff_base: 0x30C,
        core_c0_base: 0x32C,
        max_cores: 16,
    }
}

/// Layout of table version 0x00620205 (Granite Ridge). Its table holds no
/// per-core clocks and no C0 residency.
pub open spec fn layout_620205() -> PmTableOffsets {
    PmTableOffsets {
        ppt_limit: 0x020,
        ppt_value: 0x024,
        tdc_limit: 0x028,
        tdc_value: 0x02C,
        thm_limit: 0x008,
        thm_value: 0x00C,
        edc_limit: 0x0FC,
        edc_value: 0x100,
        cpu_power: 0x024,
        soc_power: 0x054,
        cpu_voltage: 0x048,
        soc_voltage: 0x04C,
        fclk: 0x11C,
        mclk: 0x12C,
        soc_temp: 0x0F8,
        core_power_base: 0x4B4,
        core_temp_base: 0x534,
        core_freq_base: SENTINEL,
        core_freqeff_base: SENTINEL,
        core_c0_base: SENTINEL,
        max_cores: 16,
    }
}

/// The layout registered for a table version, if any.
pub open spec fn layout_of(version: u32) -> Option<PmTableOffsets> {
    if version == 0x240903 {
        Some(layout_240903())
    } else if version == 0x00620205 {
        Some(layout_620205())
    } else {
        None
    }
}

/// Every registered layout is well formed.
pub proof fn lemma_registered_layouts_wf(version: u32)
    ensures
        layout_of(version) matches Some(off) ==> off.wf(),
{
    if version == 0x240903 {
        assert(layout_240903().max_core_base() == 0x32C);
    } else if version == 0x00620205 {
        assert(layout_620205().max_core_base() == 0x534);
    }
}

/// Look up the offset layout of a PM table version.
pub fn get_offsets(version: u32) -> (r: Option<PmTableOffsets>)
    ensures
        r == layout_of(version),
{
    if version == 0x240903 {
        Some(PmTableOffsets {
            ppt_limit: 0x000,
            ppt_value: 0x004,
            tdc_limit: 0x008,
            tdc_value: 0x00C,
            thm_limit: 0x010,
            thm_value: 0x014,
            edc_limit: 0x020,
            edc_value: 0x024,
            cpu_power: 0x060,
            soc_power: 0x064,
            cpu_voltage: 0x0A0,
            soc_voltage: 0x0B4,
            fclk: 0x0C0,
            mclk: 0x0CC,
            soc_temp: 0x1CC,
            core_power_base: 0x24C,
            core_temp_base: 0x28C,
            core_freq_base: 0x2EC,
            core_freqeff_base: 0x30C,
            core_c0_base: 0x32C,
            max_cores: 16,
        })
    } else if version == 0x00620205 {
        Some(PmTableOffsets {
            ppt_limit: 0x020,
            ppt_value: 0x024,
            tdc_limit: 0x028,
            tdc_value: 0x02C,
            thm_limit: 0x008,
            thm_value: 0x00C,
            edc_limit: 0x0FC,
            edc_value: 0x100,
            cpu_power: 0x024,
            soc_power: 0x054,
            cpu_voltage: 0x048,
            soc_voltage: 0x04C,
            fclk: 0x11C,
            mclk: 0x12C,
            soc_temp: 0x0F8,
            core_power_base: 0x4B4,
            core_temp_base: 0x534,
            core_freq_base: SENTINEL,
            core_freqeff_base: SENTINEL,
            core_c0_base: SENTINEL,
            max_cores: 16,
        })
    } else {
        None
    }
}

} // verus!
