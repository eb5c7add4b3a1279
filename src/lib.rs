//! Decoder for the power-management telemetry table ("PM table") that the
//! system management unit of AMD Ryzen processors publishes through the
//! `ryzen_smu` kernel driver.
//!
//! The library is pure: it turns raw bytes and small identifiers into a
//! structured reading. Reading the driver's files, probing the CPU topology and
//! formatting the result are left to the caller.

pub mod codename;
pub mod error;
pub mod offsets;
pub mod output;
pub mod pmtable;
pub mod smu;
pub mod text;

pub use codename::Codename;
pub use error::{Result, SmuError};
pub use output::OutputOptions;
pub use offsets::{get_offsets, PmTableOffsets, SENTINEL};
pub use pmtable::{PmTable, MAX_CORES};
pub use smu::{FileRead, SmuReader};

use vstd::prelude::*;

verus! {

/// The version of this library.
pub fn version() -> (r: &'static str)
    ensures
        r@ == "0.1.0"@,
{
    "0.1.0"
}

} // verus!
