use vstd::prelude::*;

verus! {

/// AMD processor families that the `ryzen_smu` driver reports.
#[derive(Debug, Clone, Copy, PartialEq, Eq, Structural)]
pub enum Codename {
    Unsupported,
    Colfax,
    Renoir,
    Picasso,
    Matisse,
    Threadripper,
    CastlePeak,
    Raven,
    Raven2,
    SummitRidge,
    PinnacleRidge,
    Rembrandt,
    Vermeer,
    Vangogh,
    Cezanne,
    Milan,
    Dali,
    Lucienne,
    Naples,
    Chagall,
    Raphael,
    Phoenix,
    HawkPoint,
    GraniteRidge,
    StrixPoint,
    StormPeak,
}

impl Codename {
    /// The number under which the driver reports this family (0 for `Unsupported`).
    pub open spec fn id(self) -> u32 {
        match self {
            Codename::Unsupported => 0,
            Codename::Colfax => 1,
            Codename::Renoir => 2,
            Codename::Picasso => 3,
            Codename::Matisse => 4,
            Codename::Threadripper => 5,
            Codename::CastlePeak => 6,
            Codename::Raven => 7,
            Codename::Raven2 => 8,
            Codename::SummitRidge => 9,
            Codename::PinnacleRidge => 10,
            Codename::Rembrandt => 11,
            Codename::Vermeer => 12,
            Codename::Vangogh => 13,
            Codename::Cezanne => 14,
            Codename::Milan => 15,
            Codename::Dali => 16,
            Codename::Lucienne => 17,
            Codename::Naples => 18,
            Codename::Chagall => 19,
            Codename::Raphael => 20,
            Codename::Phoenix => 21,
            Codename::HawkPoint => 22,
            Codename::GraniteRidge => 23,
            Codename::StrixPoint => 24,
            Codename::StormPeak => 25,
        }
    }

    /// The family that the driver's number `id` stands for.
    pub open spec fn codename_for(id: u32) -> Codename {
        match id {
            1 => Codename::Colfax,
            2 => Codename::Renoir,
            3 => Codename::Picasso,
            4 => Codename::Matisse,
            5 => Codename::Threadripper,
            6 => Codename::CastlePeak,
            7 => Codename::Raven,
            8 => Codename::Raven2,
            9 => Codename::SummitRidge,
            10 => Codename::PinnacleRidge,
            11 => Codename::Rembrandt,
            12 => Codename::Vermeer,
            13 => Codename::Vangogh,
            14 => Codename::Cezanne,
            15 => Codename::Milan,
            16 => Codename::Dali,
            17 => Codename::Lucienne,
            18 => Codename::Naples,
            19 => Codename::Chagall,
            20 => Codename::Raphael,
            21 => Codename::Phoenix,
            22 => Codename::HawkPoint,
            23 => Codename::GraniteRidge,
            24 => Codename::StrixPoint,
            25 => Codename::StormPeak,
            _ => Codename::Unsupported,
        }
    }

    /// Number of core complex dies (CCDs) that a package of this family holds at most.
    pub open spec fn spec_max_ccds(self) -> usize {
        match self {
            Codename::Milan | Codename::Naples | Codename::Chagall | Codename::StormPeak => 8,
            Codename::Threadripper | Codename::CastlePeak => 4,
            Codename::Vermeer | Codename::Matisse | Codename::Raphael | Codename::GraniteRidge => 2,
            _ => 1,
        }
    }

    /// Human-readable name of the family.
    pub open spec fn spec_name(self) -> Seq<char> {
        match self {
            Codename::Unsupported => "Unsupported"@,
            Codename::Colfax => "Colfax"@,
            Codename::Renoir => "Renoir"@,
            Codename::Picasso => "Picasso"@,
            Codename::Matisse => "Matisse"@,
            Codename::Threadripper => "Threadripper"@,
            Codename::CastlePeak => "Castle Peak"@,
            Codename::Raven => "Raven"@,
            Codename::Raven2 => "Raven 2"@,
            Codename::SummitRidge => "Summit Ridge"@,
            Codename::PinnacleRidge => "Pinnacle Ridge"@,
            Codename::Rembrandt => "Rembrandt"@,
            Codename::Vermeer => "Vermeer"@,
            Codename::Vangogh => "Van Gogh"@,
            Codename::Cezanne => "Cezanne"@,
            Codename::Milan => "Milan"@,
            Codename::Dali => "Dali"@,
            Codename::Lucienne => "Lucienne"@,
            Codename::Naples => "Naples"@,
            Codename::Chagall => "Chagall"@,
            Codename::Raphael => "Raphael"@,
            Codename::Phoenix => "Phoenix"@,
            Codename::HawkPoint => "Hawk Point"@,
            Codename::GraniteRidge => "Granite Ridge"@,
            Codename::StrixPoint => "Strix Point"@,
            Codename::StormPeak => "Storm Peak"@,
        }
    }

    /// Resolve the family from the number the driver reports. Unknown numbers
    /// give `Unsupported`; this never fails.
    pub fn from_id(id: u32) -> (r: Codename)
        ensures
            r == Codename::codename_for(id),
            1 <= id <= 25 ==> r.id() == id,
            !(1 <= id <= 25) ==> r == Codename::Unsupported,
    {
        match id {
            1 => Codename::Colfax,
            2 => Codename::Renoir,
            3 => Codename::Picasso,
            4 => Codename::Matisse,
            5 => Codename::Threadripper,
            6 => Codename::CastlePeak,
            7 => Codename::Raven,
            8 => Codename::Raven2,
            9 => Codename::SummitRidge,
            10 => Codename::PinnacleRidge,
            11 => Codename::Rembrandt,
            12 => Codename::Vermeer,
            13 => Codename::Vangogh,
            14 => Codename::Cezanne,
            15 => Codename::Milan,
            16 => Codename::Dali,
            17 => Codename::Lucienne,
            18 => Codename::Naples,
            19 => Codename::Chagall,
            20 => Codename::Raphael,
            21 => Codename::Phoenix,
            22 => Codename::HawkPoint,
            23 => Codename::GraniteRidge,
            24 => Codename::StrixPoint,
            25 => Codename::StormPeak,
            _ => Codename::Unsupported,
        }
    }

    /// Number of cores in one CCD. Every supported family has eight.
    pub fn cores_per_ccd(&self) -> (r: usize)
        ensures
            r == 8,
    {
        8
    }

    /// Number of CCDs that a package of this family holds at most.
    pub fn max_ccds(&self) -> (r: usize)
        ensures
            r == self.spec_max_ccds(),
            1 <= r <= 8,
    {
        match self {
            Codename::Milan | Codename::Naples | Codename::Chagall | Codename::StormPeak => 8,
            Codename::Threadripper | Codename::CastlePeak => 4,
            Codename::Vermeer | Codename::Matisse | Codename::Raphael | Codename::GraniteRidge => 2,
            _ => 1,
        }
    }

    /// Human-readable name of the family, as shown to users.
    pub fn name(&self) -> (r: &'static str)
        ensures
            r@ == self.spec_name(),
    {
        match self {
            Codename::Unsupported => "Unsupported",
            Codename::Colfax => "Colfax",
            Codename::Renoir => "Renoir",
            Codename::Picasso => "Picasso",
            Codename::Matisse => "Matisse",
            Codename::Threadripper => "Threadripper",
            Codename::CastlePeak => "Castle Peak",
            Codename::Raven => "Raven",
            Codename::Raven2 => "Raven 2",
            Codename::SummitRidge => "Summit Ridge",
            Codename::PinnacleRidge => "Pinnacle Ridge",
            Codename::Rembrandt => "Rembrandt",
            Codename::Vermeer => "Vermeer",
            Codename::Vangogh => "Van Gogh",
            Codename::Cezanne => "Cezanne",
            Codename::Milan => "Milan",
            Codename::Dali => "Dali",
            Codename::Lucienne => "Lucienne",
            Codename::Naples => "Naples",
            Codename::Chagall => "Chagall",
            Codename::Raphael => "Raphael",
            Codename::Phoenix => "Phoenix",
            Codename::HawkPoint => "Hawk Point",
            Codename::GraniteRidge => "Granite Ridge",
            Codename::StrixPoint => "Strix Point",
            Codename::StormPeak => "Storm Peak",
        }
    }
}

} // verus!
