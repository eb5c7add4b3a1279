use vstd::prelude::*;
use byteorder::{ByteOrder, LittleEndian};
use crate::codename::Codename;
use crate::error::{Result, SmuError};
use crate::offsets::{get_offsets, layout_of, lemma_registered_layouts_wf, PmTableOffsets, SENTINEL};

verus! {

/// Largest number of cores that any table layout holds.
pub const MAX_CORES: usize = 16;

/// A decoded PM table.
///
/// Every reading is the bit pattern of an IEEE-754 single-precision value, as
/// the table stores it (`f32::from_bits` gives the number). Units: watts for
/// power, amperes for current, degrees Celsius for temperature, MHz for clocks,
/// volts for voltage, percent for C0 residency.
#[derive(Debug, Clone, PartialEq)]
pub struct PmTable {
    /// Table format version.
    pub version: u32,
    /// Processor family.
    pub codename: Codename,
    /// Name of the processor family.
    pub codename_str: String,
    /// Package power tracking limit.
    pub ppt_limit: u32,
    /// Thermal design current limit.
    pub tdc_limit: u32,
    /// Electrical design current limit.
    pub edc_limit: u32,
    /// Thermal limit.
    pub thm_limit: u32,
    /// Current package power tracking value.
    pub ppt_value: u32,
    /// Current thermal design current value.
    pub tdc_value: u32,
    /// Current electrical design current value.
    pub edc_value: u32,
    /// Tctl, the junction temperature.
    pub tctl: u32,
    /// SoC temperature.
    pub soc_temp: u32,
    /// Per-core temperatures.
    pub core_temps: Vec<u32>,
    /// Per-core clocks.
    pub core_freqs: Vec<u32>,
    /// Per-core effective clocks.
    pub core_freqs_eff: Vec<u32>,
    /// Fabric clock.
    pub fclk: u32,
    /// Memory clock.
    pub mclk: u32,
    /// Per-core power.
    pub core_power: Vec<u32>,
    /// Package power.
    pub package_power: u32,
    /// SoC power.
    pub soc_power: u32,
    /// Core voltage.
    pub core_voltage: u32,
    /// SoC voltage.
    pub soc_voltage: u32,
    /// Per-core C0 residency.
    pub core_c0: Vec<u32>,
}

/// The little-endian 32-bit word stored at `at..at + 4` of `data`.
pub open spec fn le_word(data: Seq<u8>, at: int) -> u32 {
    (data[at] as int + data[at + 1] as int * 0x100 + data[at + 2] as int * 0x10000 + data[at + 3] as int
        * 0x1000000) as u32
}

/// Core `i` of the per-core array at `base`: 0 when the array is absent or
/// the entry lies past the end of the table.
pub open spec fn core_value(data: Seq<u8>, base: usize, i: int) -> u32 {
    if base == SENTINEL || base + 4 * i + 4 > data.len() {
        0
    } else {
        le_word(data, base + 4 * i)
    }
}

/// The first `n` entries of the per-core array at `base`.
pub open spec fn core_values(data: Seq<u8>, base: usize, n: nat) -> Seq<u32> {
    Seq::new(n, |i: int| core_value(data, base, i))
}

/// Clock values from the operating system, cut or padded with zeros to `n` cores.
pub open spec fn fitted(values: Seq<u32>, n: nat) -> Seq<u32> {
    Seq::new(n, |i: int| if i < values.len() { values[i] } else { 0 })
}

/// How many cores are decoded: the requested count, at most what the layout holds.
pub open spec fn decoded_cores(off: PmTableOffsets, core_count: nat) -> nat {
    if core_count <= off.max_cores {
        core_count
    } else {
        off.max_cores as nat
    }
}

/// A core count whose table length fits in `usize`.
pub open spec fn core_count_fits(core_count: usize) -> bool {
    4 * core_count + SENTINEL <= usize::MAX
}

/// The error that decoding gives, or `None` when it succeeds.
pub open spec fn decode_error(data: Seq<u8>, version: u32, core_count: nat) -> Option<SmuError> {
    match layout_of(version) {
        None => Some(SmuError::UnsupportedPmTableVersion(version)),
        Some(off) => if data.len() < off.min_size(core_count) {
            Some(
                SmuError::InvalidPmTableSize {
                    expected: off.min_size(core_count) as usize,
                    actual: data.len() as usize,
                },
            )
        } else {
            None
        },
    }
}

impl PmTable {
    /// `self` is what decoding `data` with layout `off` gives, for `core_count`
    /// cores and the clocks `os_freqs` that the operating system reported.
    pub open spec fn decoded_from(
        self,
        data: Seq<u8>,
        off: PmTableOffsets,
        codename: Codename,
        core_count: nat,
        os_freqs: Option<Seq<u32>>,
    ) -> bool {
        let n = decoded_cores(off, core_count);
        &&& self.codename == codename
        &&& self.codename_str@ == codename.spec_name()
        &&& self.ppt_limit == le_word(data, off.ppt_limit as int)
        &&& self.ppt_value == le_word(data, off.ppt_value as int)
        &&& self.tdc_limit == le_word(data, off.tdc_limit as int)
        &&& self.tdc_value == le_word(data, off.tdc_value as int)
        &&& self.thm_limit == le_word(data, off.thm_limit as int)
        &&& self.tctl == le_word(data, off.thm_value as int)
        &&& self.edc_limit == le_word(data, off.edc_limit as int)
        &&& self.edc_value == le_word(data, off.edc_value as int)
        &&& self.package_power == le_word(data, off.cpu_power as int)
        &&& self.soc_power == le_word(data, off.soc_power as int)
        &&& self.core_voltage == le_word(data, off.cpu_voltage as int)
        &&& self.soc_voltage == le_word(data, off.soc_voltage as int)
        &&& self.fclk == le_word(data, off.fclk as int)
        &&& self.mclk == le_word(data, off.mclk as int)
        &&& self.soc_temp == le_word(data, off.soc_temp as int)
        &&& self.core_power@ == core_values(data, off.core_power_base, n)
        &&& self.core_temps@ == core_values(data, off.core_temp_base, n)
        &&& self.core_c0@ == core_values(data, off.core_c0_base, n)
        &&& if off.core_freq_base == SENTINEL {
            match os_freqs {
                Some(f) => self.core_freqs@ == fitted(f, n) && self.core_freqs_eff@ == fitted(f, n),
                None => self.core_freqs@ == Seq::<u32>::empty() && self.core_freqs_eff@ == Seq::<u32>::empty(),
            }
        } else {
            &&& self.core_freqs@ == core_values(data, off.core_freq_base, n)
            &&& self.core_freqs_eff@ == core_values(data, off.core_freqeff_base, n)
        }
    }

    /// `self` is what decoding `data` as table version `version` gives.
    pub open spec fn decodes(
        self,
        data: Seq<u8>,
        version: u32,
        codename: Codename,
        core_count: nat,
        os_freqs: Option<Seq<u32>>,
    ) -> bool {
        &&& self.version == version
        &&& layout_of(version) matches Some(off)
        &&& self.decoded_from(data, off, codename, core_count, os_freqs)
    }

    /// Decode a PM table without clock values from the operating system:
    /// where the table version has no per-core clocks, both clock sequences
    /// stay empty.
    pub fn parse(data: &[u8], version: u32, codename: Codename, core_count: usize) -> (r: Result<
        PmTable,
    >)
        requires
            layout_of(version) is Some ==> core_count_fits(core_count),
        ensures
            match decode_error(data@, version, core_count as nat) {
                Some(e) => r == Err::<PmTable, SmuError>(e),
                None => r matches Ok(t) && t.decodes(data@, version, codename, core_count as nat, None),
            },
    {
        PmTable::parse_with_os_frequencies(data, version, codename, core_count, None)
    }

    /// Decode a PM table.
    ///
    /// Fails with `UnsupportedPmTableVersion` when no layout is known for
    /// `version`, and with `InvalidPmTableSize` when `data` is shorter than the
    /// largest per-core base offset plus four bytes per core. Otherwise every
    /// scalar field is read at its offset, and each per-core array for the
    /// first `min(core_count, max_cores)` cores, with 0 for an absent array or
    /// an entry past the end. Where the version has no per-core clocks, both
    /// clock sequences come from `os_freqs` (cut or padded with zeros to the
    /// decoded core count), or stay empty when it is `None`.
    pub fn parse_with_os_frequencies(
        data: &[u8],
        version: u32,
        codename: Codename,
        core_count: usize,
        os_freqs: Option<Vec<u32>>,
    ) -> (r: Result<PmTable>)
        requires
            layout_of(version) is Some ==> core_count_fits(core_count),
        ensures
            match decode_error(data@, version, core_count as nat) {
                Some(e) => r == Err::<PmTable, SmuError>(e),
                None => r matches Ok(t) && t.decodes(
                    data@,
                    version,
                    codename,
                    core_count as nat,
                    match os_freqs {
                        Some(f) => Some(f@),
                        None => None,
                    },
                ),
            },
    {
        let off = match get_offsets(version) {
            Some(off) => off,
            None => {
                return Err(SmuError::UnsupportedPmTableVersion(version));
            },
        };
        proof {
            lemma_registered_layouts_wf(version);
        }
        let min_size = off.largest_core_base() + core_count * 4;
        if data.len() < min_size {
            return Err(SmuError::InvalidPmTableSize { expected: min_size, actual: data.len() });
        }
        let ppt_limit = read_scalar(data, off.ppt_limit)?;
        let ppt_value = read_scalar(data, off.ppt_value)?;
        let tdc_limit = read_scalar(data, off.tdc_limit)?;
        let tdc_value = read_scalar(data, off.tdc_value)?;
        let thm_limit = read_scalar(data, off.thm_limit)?;
        let tctl = read_scalar(data, off.thm_value)?;
        let edc_limit = read_scalar(data, off.edc_limit)?;
        let edc_value = read_scalar(data, off.edc_value)?;
        let package_power = read_scalar(data, off.cpu_power)?;
        let soc_power = read_scalar(data, off.soc_power)?;
        let core_voltage = read_scalar(data, off.cpu_voltage)?;
        let soc_temp = read_scalar(data, off.soc_temp)?;
        let soc_voltage = read_scalar(data, off.soc_voltage)?;
        let fclk = read_scalar(data, off.fclk)?;
        let mclk = read_scalar(data, off.mclk)?;

        let n: usize = if core_count < off.max_cores {
            core_count
        } else {
            off.max_cores
        };
        let freqs_in_table = off.core_freq_base != SENTINEL;
        let mut core_power: Vec<u32> = Vec::new();
        let mut core_temps: Vec<u32> = Vec::new();
        let mut core_freqs: Vec<u32> = Vec::new();
        let mut core_freqs_eff: Vec<u32> = Vec::new();
        let mut core_c0: Vec<u32> = Vec::new();
        let mut i: usize = 0;
        while i < n
            invariant
                off.wf(),
                n <= off.max_cores,
                i <= n,
                freqs_in_table == (off.core_freq_base != SENTINEL),
                core_power@ == core_values(data@, off.core_power_base, i as nat),
                core_temps@ == core_values(data@, off.core_temp_base, i as nat),
                core_c0@ == core_values(data@, off.core_c0_base, i as nat),
                freqs_in_table ==> core_freqs@ == core_values(data@, off.core_freq_base, i as nat),
                freqs_in_table ==> core_freqs_eff@ == core_values(
                    data@,
                    off.core_freqeff_base,
                    i as nat,
                ),
                !freqs_in_table ==> core_freqs@ == Seq::<u32>::empty() && core_freqs_eff@ == Seq::<u32>::empty(),
            decreases n - i,
        {
            core_power.push(read_core_value(data, off.core_power_base, i));
            core_temps.push(read_core_value(data, off.core_temp_base, i));
            if freqs_in_table {
                core_freqs.push(read_core_value(data, off.core_freq_base, i));
                core_freqs_eff.push(read_core_value(data, off.core_freqeff_base, i));
            }
            core_c0.push(read_core_value(data, off.core_c0_base, i));
            i = i + 1;
            assert(core_power@ =~= core_values(data@, off.core_power_base, i as nat));
            assert(core_temps@ =~= core_values(data@, off.core_temp_base, i as nat));
            assert(core_c0@ =~= core_values(data@, off.core_c0_base, i as nat));
            assert(freqs_in_table ==> core_freqs@ =~= core_values(
                data@,
                off.core_freq_base,
                i as nat,
            ));
            assert(freqs_in_table ==> core_freqs_eff@ =~= core_values(
                data@,
                off.core_freqeff_base,
                i as nat,
            ));
        }
        if !freqs_in_table {
            match os_freqs {
                Some(f) => {
                    core_freqs = fit_frequencies(&f, n);
                    core_freqs_eff = fit_frequencies(&f, n);
                },
                None => {},
            }
        }
        Ok(PmTable {
            version,
            codename,
            codename_str: String::from_str(codename.name()),
            ppt_limit,
            tdc_limit,
            edc_limit,
            thm_limit,
            ppt_value,
            tdc_value,
            edc_value,
            tctl,
            soc_temp,
            core_temps,
            core_freqs,
            core_freqs_eff,
            fclk,
            mclk,
            core_power,
            package_power,
            soc_power,
            core_voltage,
            soc_voltage,
            core_c0,
        })
    }
}

/// The two readings hold the same values, field for field.
pub open spec fn same_reading(a: PmTable, b: PmTable) -> bool {
    &&& a.version == b.version
    &&& a.codename == b.codename
    &&& a.codename_str@ == b.codename_str@
    &&& a.ppt_limit == b.ppt_limit
    &&& a.tdc_limit == b.tdc_limit
    &&& a.edc_limit == b.edc_limit
    &&& a.thm_limit == b.thm_limit
    &&& a.ppt_value == b.ppt_value
    &&& a.tdc_value == b.tdc_value
    &&& a.edc_value == b.edc_value
    &&& a.tctl == b.tctl
    &&& a.soc_temp == b.soc_temp
    &&& a.core_temps@ == b.core_temps@
    &&& a.core_freqs@ == b.core_freqs@
    &&& a.core_freqs_eff@ == b.core_freqs_eff@
    &&& a.fclk == b.fclk
    &&& a.mclk == b.mclk
    &&& a.core_power@ == b.core_power@
    &&& a.package_power == b.package_power
    &&& a.soc_power == b.soc_power
    &&& a.core_voltage == b.core_voltage
    &&& a.soc_voltage == b.soc_voltage
    &&& a.core_c0@ == b.core_c0@
}

/// A table of exactly the minimum length decodes for every supported version
/// and core count: each scalar field is the word stored at its offset, and the
/// per-core power, temperature and C0 sequences hold `min(core_count,
/// max_cores)` entries, as do the clock sequences wherever the table holds
/// them or the operating system supplied them.
pub proof fn lemma_minimum_length_decodes(
    data: Seq<u8>,
    version: u32,
    codename: Codename,
    core_count: nat,
    os_freqs: Option<Seq<u32>>,
    t: PmTable,
)
    requires
        layout_of(version) matches Some(off) && data.len() == off.min_size(core_count),
        t.decodes(data, version, codename, core_count, os_freqs),
    ensures
        decode_error(data, version, core_count) is None,
        ({
            let off = layout_of(version)->Some_0;
            let n = if core_count <= off.max_cores { core_count } else { off.max_cores as nat };
            &&& t.ppt_limit == le_word(data, off.ppt_limit as int)
            &&& t.ppt_value == le_word(data, off.ppt_value as int)
            &&& t.tdc_limit == le_word(data, off.tdc_limit as int)
            &&& t.tdc_value == le_word(data, off.tdc_value as int)
            &&& t.thm_limit == le_word(data, off.thm_limit as int)
            &&& t.tctl == le_word(data, off.thm_value as int)
            &&& t.edc_limit == le_word(data, off.edc_limit as int)
            &&& t.edc_value == le_word(data, off.edc_value as int)
            &&& t.package_power == le_word(data, off.cpu_power as int)
            &&& t.soc_power == le_word(data, off.soc_power as int)
            &&& t.core_voltage == le_word(data, off.cpu_voltage as int)
            &&& t.soc_voltage == le_word(data, off.soc_voltage as int)
            &&& t.fclk == le_word(data, off.fclk as int)
            &&& t.mclk == le_word(data, off.mclk as int)
            &&& t.soc_temp == le_word(data, off.soc_temp as int)
            &&& t.core_power@.len() == n
            &&& t.core_temps@.len() == n
            &&& t.core_c0@.len() == n
            &&& (off.core_freq_base != SENTINEL || os_freqs is Some) ==> t.core_freqs@.len() == n
                && t.core_freqs_eff@.len() == n
        }),
{
}

/// A table shorter than the minimum length of its layout is rejected with the
/// minimum length and the actual length.
pub proof fn lemma_short_table_rejected(data: Seq<u8>, version: u32, core_count: nat)
    requires
        layout_of(version) matches Some(off) && data.len() < off.min_size(core_count),
    ensures
        decode_error(data, version, core_count) == Some(
            SmuError::InvalidPmTableSize {
                expected: layout_of(version)->Some_0.min_size(core_count) as usize,
                actual: data.len() as usize,
            },
        ),
{
}

/// A version without a registered layout is rejected, whatever the table holds
/// and however long it is.
pub proof fn lemma_unknown_version_rejected(data: Seq<u8>, version: u32, core_count: nat)
    requires
        layout_of(version) is None,
    ensures
        decode_error(data, version, core_count) == Some(SmuError::UnsupportedPmTableVersion(version)),
{
}

/// Where a layout marks the per-core clocks as absent, the decoded clock
/// sequences never come from the table: they are empty, or the clocks that the
/// operating system supplied.
pub proof fn lemma_absent_clocks_not_read(
    data: Seq<u8>,
    version: u32,
    codename: Codename,
    core_count: nat,
    os_freqs: Option<Seq<u32>>,
    t: PmTable,
)
    requires
        layout_of(version) matches Some(off) && off.core_freq_base == SENTINEL,
        t.decodes(data, version, codename, core_count, os_freqs),
    ensures
        os_freqs is None ==> t.core_freqs@.len() == 0 && t.core_freqs_eff@.len() == 0,
        os_freqs matches Some(f) ==> ({
            let n = decoded_cores(layout_of(version)->Some_0, core_count);
            &&& t.core_freqs@ == fitted(f, n)
            &&& t.core_freqs_eff@ == fitted(f, n)
        }),
{
}

/// With no cores, a supported version decodes any table of the layout's base
/// length into empty per-core sequences.
pub proof fn lemma_zero_cores(
    data: Seq<u8>,
    version: u32,
    codename: Codename,
    os_freqs: Option<Seq<u32>>,
    t: PmTable,
)
    requires
        layout_of(version) matches Some(off) && data.len() >= off.min_size(0),
        t.decodes(data, version, codename, 0, os_freqs),
    ensures
        decode_error(data, version, 0) is None,
        t.core_power@.len() == 0,
        t.core_temps@.len() == 0,
        t.core_c0@.len() == 0,
        t.core_freqs@.len() == 0,
        t.core_freqs_eff@.len() == 0,
{
}

/// Decoding is a function of its inputs: two readings decoded from the same
/// inputs are equal field for field.
pub proof fn lemma_decode_deterministic(
    data: Seq<u8>,
    version: u32,
    codename: Codename,
    core_count: nat,
    os_freqs: Option<Seq<u32>>,
    a: PmTable,
    b: PmTable,
)
    requires
        a.decodes(data, version, codename, core_count, os_freqs),
        b.decodes(data, version, codename, core_count, os_freqs),
    ensures
        same_reading(a, b),
{
}

/// Relies on byteorder's `LittleEndian::read_u32`, which reads the first four
/// bytes of the slice given, least significant byte first.
#[verifier::external_body]
fn read_le_u32(data: &[u8], offset: usize) -> (r: u32)
    requires
        offset + 4 <= data@.len(),
    ensures
        r == le_word(data@, offset as int),
{
    LittleEndian::read_u32(&data[offset..offset + 4])
}

/// Read the scalar field at `offset`; a field past the end of the table is an error.
fn read_scalar(data: &[u8], offset: usize) -> (r: Result<u32>)
    requires
        offset <= usize::MAX - 4,
    ensures
        offset + 4 <= data@.len() ==> r == Ok::<u32, SmuError>(le_word(data@, offset as int)),
        offset + 4 > data@.len() ==> r == Err::<u32, SmuError>(
            SmuError::InvalidPmTableSize { expected: (offset + 4) as usize, actual: data@.len() as usize },
        ),
{
    if offset + 4 > data.len() {
        return Err(SmuError::InvalidPmTableSize { expected: offset + 4, actual: data.len() });
    }
    Ok(read_le_u32(data, offset))
}

/// Read entry `index` of the per-core array at `base`, or 0 where the array is
/// absent or the entry lies past the end of the table.
fn read_core_value(data: &[u8], base: usize, index: usize) -> (r: u32)
    requires
        base <= usize::MAX - 4 * MAX_CORES - 4,
        index < MAX_CORES,
    ensures
        r == core_value(data@, base, index as int),
{
    if base == SENTINEL || base + index * 4 + 4 > data.len() {
        return 0;
    }
    read_le_u32(data, base + index * 4)
}

/// Cut or pad with zeros the clocks that the operating system reported, to `n` cores.
fn fit_frequencies(freqs: &Vec<u32>, n: usize) -> (r: Vec<u32>)
    ensures
        r@ == fitted(freqs@, n as nat),
{
    let mut r: Vec<u32> = Vec::new();
    let mut i: usize = 0;
    while i < n
        invariant
            i <= n,
            r@ == fitted(freqs@, i as nat),
        decreases n - i,
    {
        if i < freqs.len() {
            r.push(freqs[i]);
        } else {
            r.push(0);
        }
        i = i + 1;
        assert(r@ =~= fitted(freqs@, i as nat));
    }
    r
}

} // verus!
