use vstd::prelude::*;
use vstd::string::StringSliceAdditionalSpecFns;
use crate::codename::Codename;
use crate::error::{Result, SmuError};
use crate::pmtable::{core_count_fits, decode_error, PmTable};
use crate::text::{chars_of, parse_or_zero, trim_bounds, trimmed, value_or_zero};

verus! {

/// Directory where the `ryzen_smu` driver publishes its attribute files.
pub const DEFAULT_SYSFS_PATH: &'static str = "/sys/kernel/ryzen_smu_drv";

/// Attribute file holding the SMU firmware version.
pub const SMU_VERSION_FILE: &'static str = "version";

/// Attribute file holding the driver version.
pub const DRIVER_VERSION_FILE: &'static str = "drv_version";

/// Attribute file holding the processor family number.
pub const CODENAME_FILE: &'static str = "codename";

/// Attribute file holding the PM table version.
pub const PM_TABLE_VERSION_FILE: &'static str = "pm_table_version";

/// Attribute file holding the PM table size in bytes.
pub const PM_TABLE_SIZE_FILE: &'static str = "pm_table_size";

/// Attribute file holding the PM table itself.
pub const PM_TABLE_FILE: &'static str = "pm_table";

/// Length of the tag that opens each processor's entry in `/proc/cpuinfo`.
pub const PROCESSOR_TAG_LEN: usize = 11;

/// What reading one attribute file gave.
pub enum FileRead<T> {
    /// The file's contents.
    Contents(T),
    /// The file does not exist.
    Missing,
    /// The file may not be read by this user.
    Denied,
    /// Reading failed otherwise; the text describes the failure.
    Failed(String),
}

/// Reader of the `ryzen_smu` driver's attribute files.
///
/// The caller reads the files, at the paths that [`SmuReader::attribute_path`]
/// gives, and hands their contents or the failure to the methods here, which
/// interpret them.
pub struct SmuReader {
    sysfs_path: String,
}

impl View for SmuReader {
    type V = Seq<char>;

    /// The driver's directory.
    closed spec fn view(&self) -> Seq<char> {
        self.sysfs_path@
    }
}

/// `name` inside the directory `dir`, as `Path::join` forms it: an absolute
/// `name` stands alone, and a separator is added unless `dir` is empty or
/// already ends in one.
pub open spec fn joined(dir: Seq<char>, name: Seq<char>) -> Seq<char> {
    if name.len() > 0 && name[0] == '/' {
        name
    } else if dir.len() > 0 && dir.last() != '/' {
        dir + seq!['/'] + name
    } else {
        dir + name
    }
}

/// `r` is the error that a failed read of the file at `path` gives.
pub open spec fn read_failure<T, U>(r: Result<U>, path: Seq<char>, read: FileRead<T>) -> bool {
    match read {
        FileRead::Contents(_) => false,
        FileRead::Missing => r matches Err(SmuError::ModuleNotLoaded(p)) && p@ == path,
        FileRead::Denied => r matches Err(SmuError::PermissionDenied(p)) && p@ == path,
        FileRead::Failed(m) => r matches Err(SmuError::Io(e)) && e == m,
    }
}

/// The decimal number in `text`, once trimmed, or 0.
pub open spec fn decimal_u32(text: Seq<char>) -> u32 {
    value_or_zero(trimmed(text), 10, u32::MAX as nat) as u32
}

/// The PM table version in `text`: once trimmed, hexadecimal after `0x` or
/// `0X`, decimal otherwise; 0 when it is no number.
pub open spec fn table_version_value(text: Seq<char>) -> u32 {
    let t = trimmed(text);
    if t.len() >= 2 && t[0] == '0' && (t[1] == 'x' || t[1] == 'X') {
        value_or_zero(t.subrange(2, t.len() as int), 16, u32::MAX as nat) as u32
    } else {
        value_or_zero(t, 10, u32::MAX as nat) as u32
    }
}

/// The decimal size in `text`, once trimmed, or 0.
pub open spec fn decimal_usize(text: Seq<char>) -> usize {
    value_or_zero(trimmed(text), 10, usize::MAX as nat) as usize
}

/// Core count from the operating system's count of logical processors,
/// falling back to the family's full topology when that count is 0.
pub open spec fn detected_core_count(processor_entries: usize, codename: Codename) -> nat {
    if processor_entries > 0 {
        processor_entries as nat
    } else {
        (8 * codename.spec_max_ccds()) as nat
    }
}

/// The bytes of `processor\t:`, which opens each processor's entry in `/proc/cpuinfo`.
pub open spec fn processor_tag() -> Seq<u8> {
    seq![0x70u8, 0x72, 0x6f, 0x63, 0x65, 0x73, 0x73, 0x6f, 0x72, 0x09, 0x3a]
}

/// The tag occurs in `s` at `i`.
pub open spec fn tag_at(s: Seq<u8>, i: int) -> bool {
    0 <= i && i + processor_tag().len() <= s.len() && s.subrange(i, i + processor_tag().len())
        == processor_tag()
}

/// Number of positions below `k` at which the tag occurs in `s`.
pub open spec fn tags_before(s: Seq<u8>, k: int) -> nat
    decreases k,
{
    if k <= 0 {
        0
    } else {
        tags_before(s, k - 1) + if tag_at(s, k - 1) {
            1nat
        } else {
            0nat
        }
    }
}

impl SmuReader {
    /// A reader of the driver's default directory; fails when it does not exist.
    pub fn new(path_exists: bool) -> (r: Result<SmuReader>)
        ensures
            path_exists ==> (r matches Ok(rd) && rd@ == DEFAULT_SYSFS_PATH@),
            !path_exists ==> (r matches Err(SmuError::ModuleNotLoaded(p)) && p@ == DEFAULT_SYSFS_PATH@),
    {
        SmuReader::with_path(DEFAULT_SYSFS_PATH, path_exists)
    }

    /// A reader of the driver directory `path`; fails when it does not exist.
    pub fn with_path(path: &str, path_exists: bool) -> (r: Result<SmuReader>)
        ensures
            path_exists ==> (r matches Ok(rd) && rd@ == path@),
            !path_exists ==> (r matches Err(SmuError::ModuleNotLoaded(p)) && p@ == path@),
    {
        if !path_exists {
            return Err(SmuError::ModuleNotLoaded(String::from_str(path)));
        }
        Ok(SmuReader { sysfs_path: String::from_str(path) })
    }

    /// Path of the attribute file `name`.
    pub fn attribute_path(&self, name: &str) -> (r: String)
        ensures
            r@ == joined(self@, name@),
    {
        let name_len = name.unicode_len();
        if name_len > 0 && name.get_char(0) == '/' {
            return String::from_str(name);
        }
        let n = self.sysfs_path.as_str().unicode_len();
        let mut p = self.sysfs_path.clone();
        if n > 0 && self.sysfs_path.as_str().get_char(n - 1) != '/' {
            p.append("/");
            proof {
                reveal_strlit("/");
            }
        }
        p.append(name);
        p
    }

    /// The contents of the attribute file `name`, or the error that its read gives.
    fn read_attribute<T>(&self, name: &str, read: FileRead<T>) -> (r: Result<T>)
        ensures
            read matches FileRead::Contents(t) ==> (r matches Ok(u) && u == t),
            !(read is Contents) ==> read_failure(r, joined(self@, name@), read),
    {
        match read {
            FileRead::Contents(t) => Ok(t),
            FileRead::Missing => Err(SmuError::ModuleNotLoaded(self.attribute_path(name))),
            FileRead::Denied => Err(SmuError::PermissionDenied(self.attribute_path(name))),
            FileRead::Failed(m) => Err(SmuError::Io(m)),
        }
    }

    /// The SMU firmware version, from what reading its attribute file gave.
    pub fn smu_version(&self, read: FileRead<String>) -> (r: Result<String>)
        ensures
            read matches FileRead::Contents(t) ==> (r matches Ok(u) && u@ == t@),
            !(read is Contents) ==> read_failure(r, joined(self@, SMU_VERSION_FILE@), read),
    {
        self.read_attribute(SMU_VERSION_FILE, read)
    }

    /// The driver version, from what reading its attribute file gave.
    pub fn driver_version(&self, read: FileRead<String>) -> (r: Result<String>)
        ensures
            read matches FileRead::Contents(t) ==> (r matches Ok(u) && u@ == t@),
            !(read is Contents) ==> read_failure(r, joined(self@, DRIVER_VERSION_FILE@), read),
    {
        self.read_attribute(DRIVER_VERSION_FILE, read)
    }

    /// The processor family: the trimmed text is its decimal number; text that
    /// is no number gives `Unsupported`.
    pub fn codename(&self, read: FileRead<String>) -> (r: Result<Codename>)
        ensures
            read matches FileRead::Contents(t) ==> r == Ok::<Codename, SmuError>(
                Codename::codename_for(decimal_u32(t@)),
            ),
            !(read is Contents) ==> read_failure(r, joined(self@, CODENAME_FILE@), read),
    {
        let text = self.read_attribute(CODENAME_FILE, read)?;
        Ok(Codename::from_id(parse_decimal_u32(text.as_str())))
    }

    /// The PM table version: the trimmed text is hexadecimal after `0x` or
    /// `0X`, decimal otherwise; text that is no number gives 0.
    pub fn pm_table_version(&self, read: FileRead<String>) -> (r: Result<u32>)
        ensures
            read matches FileRead::Contents(t) ==> r == Ok::<u32, SmuError>(table_version_value(t@)),
            !(read is Contents) ==> read_failure(r, joined(self@, PM_TABLE_VERSION_FILE@), read),
    {
        let text = self.read_attribute(PM_TABLE_VERSION_FILE, read)?;
        Ok(parse_table_version(text.as_str()))
    }

    /// The PM table size in bytes: the trimmed text in decimal; text that is
    /// no number gives 0.
    pub fn pm_table_size(&self, read: FileRead<String>) -> (r: Result<usize>)
        ensures
            read matches FileRead::Contents(t) ==> r == Ok::<usize, SmuError>(decimal_usize(t@)),
            !(read is Contents) ==> read_failure(r, joined(self@, PM_TABLE_SIZE_FILE@), read),
    {
        let text = self.read_attribute(PM_TABLE_SIZE_FILE, read)?;
        let cs = chars_of(text.as_str());
        let (lo, hi) = trim_bounds(&cs);
        Ok(parse_or_zero(&cs, lo, hi, 10, usize::MAX))
    }

    /// Decode the PM table from what reading the version, family and table
    /// files gave, for the core count that [`SmuReader::detect_core_count`]
    /// resolves and the clocks that the operating system reported. The first
    /// failed read, in that order, gives the error.
    pub fn read_pm_table(
        &self,
        version_read: FileRead<String>,
        codename_read: FileRead<String>,
        table_read: FileRead<Vec<u8>>,
        processor_entries: usize,
        os_freqs: Option<Vec<u32>>,
    ) -> (r: Result<PmTable>)
        requires
            core_count_fits(processor_entries),
        ensures
            match (version_read, codename_read, table_read) {
                (FileRead::Contents(v), FileRead::Contents(c), FileRead::Contents(d)) => {
                    let version = table_version_value(v@);
                    let codename = Codename::codename_for(decimal_u32(c@));
                    let cores = detected_core_count(processor_entries, codename);
                    match decode_error(d@, version, cores) {
                        Some(e) => r == Err::<PmTable, SmuError>(e),
                        None => r matches Ok(t) && t.decodes(
                            d@,
                            version,
                            codename,
                            cores,
                            match os_freqs {
                                Some(f) => Some(f@),
                                None => None,
                            },
                        ),
                    }
                },
                (FileRead::Contents(_), FileRead::Contents(_), d) => read_failure(
                    r,
                    joined(self@, PM_TABLE_FILE@),
                    d,
                ),
                (FileRead::Contents(_), c, _) => read_failure(r, joined(self@, CODENAME_FILE@), c),
                (v, _, _) => read_failure(r, joined(self@, PM_TABLE_VERSION_FILE@), v),
            },
    {
        let version = self.pm_table_version(version_read)?;
        let codename = self.codename(codename_read)?;
        let data = self.read_attribute(PM_TABLE_FILE, table_read)?;
        let core_count = SmuReader::detect_core_count(processor_entries, codename);
        PmTable::parse_with_os_frequencies(data.as_slice(), version, codename, core_count, os_freqs)
    }

    /// The number of active cores: the operating system's count of logical
    /// processors, or, when that is 0, cores per CCD times the family's CCDs.
    pub fn detect_core_count(processor_entries: usize, codename: Codename) -> (r: usize)
        ensures
            r == detected_core_count(processor_entries, codename),
            processor_entries == 0 ==> 1 <= r <= 64,
    {
        if processor_entries > 0 {
            return processor_entries;
        }
        codename.cores_per_ccd() * codename.max_ccds()
    }

    /// The number of logical processors listed in the text of `/proc/cpuinfo`:
    /// how often `processor\t:` occurs in it.
    pub fn count_processor_entries(cpuinfo: &str) -> (r: usize)
        ensures
            r == tags_before(cpuinfo.spec_bytes(), cpuinfo.spec_bytes().len() as int),
    {
        let bytes = cpuinfo.as_bytes();
        let tag: [u8; PROCESSOR_TAG_LEN] = [0x70, 0x72, 0x6f, 0x63, 0x65, 0x73, 0x73, 0x6f, 0x72, 0x09, 0x3a];
        let mut count: usize = 0;
        let mut i: usize = 0;
        while i < bytes.len()
            invariant
                i <= bytes@.len(),
                bytes@ == cpuinfo.spec_bytes(),
                tag@ == processor_tag(),
                count == tags_before(bytes@, i as int),
                count <= i,
            decreases bytes@.len() - i,
        {
            if tag_matches_at(bytes, &tag, i) {
                count = count + 1;
            }
            i = i + 1;
        }
        count
    }
}

/// Whether the tag occurs in `bytes` at `i`.
fn tag_matches_at(bytes: &[u8], tag: &[u8; PROCESSOR_TAG_LEN], i: usize) -> (r: bool)
    requires
        tag@ == processor_tag(),
    ensures
        r == tag_at(bytes@, i as int),
{
    if i > bytes.len() || bytes.len() - i < PROCESSOR_TAG_LEN {
        return false;
    }
    let mut j: usize = 0;
    while j < PROCESSOR_TAG_LEN
        invariant
            i + PROCESSOR_TAG_LEN <= bytes.len(),
            tag@ == processor_tag(),
            j <= PROCESSOR_TAG_LEN,
            bytes@.subrange(i as int, i + j) == processor_tag().take(j as int),
        decreases PROCESSOR_TAG_LEN - j,
    {
        if bytes[i + j] != tag[j] {
            assert(bytes@.subrange(i as int, i + PROCESSOR_TAG_LEN)[j as int] != processor_tag()[j as int]);
            return false;
        }
        j = j + 1;
        assert(bytes@.subrange(i as int, i + j) =~= processor_tag().take(j as int));
    }
    assert(processor_tag().take(PROCESSOR_TAG_LEN as int) =~= processor_tag());
    true
}

/// The decimal number in `text`, once trimmed, or 0.
fn parse_decimal_u32(text: &str) -> (r: u32)
    ensures
        r == decimal_u32(text@),
{
    let cs = chars_of(text);
    let (lo, hi) = trim_bounds(&cs);
    parse_or_zero(&cs, lo, hi, 10, u32::MAX as usize) as u32
}

/// The PM table version in `text`: hexadecimal after `0x` or `0X`, decimal otherwise.
fn parse_table_version(text: &str) -> (r: u32)
    ensures
        r == table_version_value(text@),
{
    let cs = chars_of(text);
    let (lo, hi) = trim_bounds(&cs);
    let ghost t = cs@.subrange(lo as int, hi as int);
    if hi - lo >= 2 && cs[lo] == '0' && (cs[lo + 1] == 'x' || cs[lo + 1] == 'X') {
        assert(cs@.subrange(lo + 2, hi as int) =~= t.subrange(2, t.len() as int));
        parse_or_zero(&cs, lo + 2, hi, 16, u32::MAX as usize) as u32
    } else {
        parse_or_zero(&cs, lo, hi, 10, u32::MAX as usize) as u32
    }
}

} // verus!
