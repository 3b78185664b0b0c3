//! Satellite vehicles.

use vstd::prelude::*;

verus! {

/// Navigation system or augmentation service a satellite belongs to.
#[derive(Clone, Copy, Debug, PartialEq, Eq, Structural, Hash)]
pub enum Constellation {
    /// American constellation
    GPS,
    /// Russian constellation
    Glonass,
    /// Chinese constellation
    BeiDou,
    /// Japanese constellation
    QZSS,
    /// European constellation
    Galileo,
    /// Indian constellation
    IRNSS,
    /// American geostationary service
    WAAS,
    /// European geostationary service
    EGNOS,
    /// Japanese geostationary service
    MSAS,
    /// Indian geostationary service
    GAGAN,
    /// Chinese geostationary service
    BDSBAS,
    /// South Korean geostationary service
    KASS,
    /// Russian geostationary service
    SDCM,
    /// South African geostationary service
    ASBAS,
    /// Australian and New Zealand geostationary service
    SPAN,
    /// Geostationary service that is not identified any further
    SBAS,
    /// Australian and New Zealand geoscience service
    AusNZ,
    /// British geostationary service
    GBAS,
    /// Nigerian geostationary service
    NSAS,
    /// Algerian geostationary service
    ASAL,
    /// Combination of several constellations
    Mixed,
}

impl Constellation {
    /// Position of this constellation in the list of all constellations, from 0.
    pub open spec fn spec_index(self) -> nat {
        match self {
            Constellation::GPS => 0,
            Constellation::Glonass => 1,
            Constellation::BeiDou => 2,
            Constellation::QZSS => 3,
            Constellation::Galileo => 4,
            Constellation::IRNSS => 5,
            Constellation::WAAS => 6,
            Constellation::EGNOS => 7,
            Constellation::MSAS => 8,
            Constellation::GAGAN => 9,
            Constellation::BDSBAS => 10,
            Constellation::KASS => 11,
            Constellation::SDCM => 12,
            Constellation::ASBAS => 13,
            Constellation::SPAN => 14,
            Constellation::SBAS => 15,
            Constellation::AusNZ => 16,
            Constellation::GBAS => 17,
            Constellation::NSAS => 18,
            Constellation::ASAL => 19,
            Constellation::Mixed => 20,
        }
    }

    /// Position of this constellation in the list of all constellations, from 0.
    pub fn index(&self) -> (i: u64)
        ensures
            i == self.spec_index(),
            i <= 20,
    {
        match self {
            Constellation::GPS => 0,
            Constellation::Glonass => 1,
            Constellation::BeiDou => 2,
            Constellation::QZSS => 3,
            Constellation::Galileo => 4,
            Constellation::IRNSS => 5,
            Constellation::WAAS => 6,
            Constellation::EGNOS => 7,
            Constellation::MSAS => 8,
            Constellation::GAGAN => 9,
            Constellation::BDSBAS => 10,
            Constellation::KASS => 11,
            Constellation::SDCM => 12,
            Constellation::ASBAS => 13,
            Constellation::SPAN => 14,
            Constellation::SBAS => 15,
            Constellation::AusNZ => 16,
            Constellation::GBAS => 17,
            Constellation::NSAS => 18,
            Constellation::ASAL => 19,
            Constellation::Mixed => 20,
        }
    }
}

/// Satellite vehicle: a constellation and the number of the satellite in it.
#[derive(Clone, Copy, Debug, PartialEq, Eq, Structural, Hash)]
pub struct SV {
    /// Identification number of this vehicle within its constellation
    pub prn: u8,
    /// Constellation this vehicle belongs to
    pub constellation: Constellation,
}

impl SV {
    /// Vehicle number `prn` of `constellation`.
    pub fn new(constellation: Constellation, prn: u8) -> (sv: SV)
        ensures
            sv.prn == prn,
            sv.constellation == constellation,
    {
        SV { prn, constellation }
    }

    /// Number that stands for this vehicle and for no other.
    pub open spec fn spec_key(self) -> u64 {
        (self.constellation.spec_index() * 256 + self.prn) as u64
    }

    /// Number that stands for this vehicle and for no other.
    pub fn key(&self) -> (k: u64)
        ensures
            k == self.spec_key(),
    {
        let prn: u64 = self.prn.into();
        self.constellation.index() * 256 + prn
    }

    /// Two vehicles that share a key are the same vehicle.
    pub proof fn lemma_key_is_injective(a: SV, b: SV)
        requires
            a.spec_key() == b.spec_key(),
        ensures
            a == b,
    {
        let i: nat = a.constellation.spec_index();
        let j: nat = b.constellation.spec_index();
        assert(i * 256 + a.prn == j * 256 + b.prn);
        assert(i == j);
    }
}

} // verus!
