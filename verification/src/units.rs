//! Amounts that the decoded fields are measured in, kept as exact integers.

use vstd::prelude::*;

verus! {

/// Octets in one kibioctet.
pub const OCTETS_PER_KIBIOCTET: u64 = 1024;

/// Octets in one mebioctet.
pub const OCTETS_PER_MEBIOCTET: u64 = 1048576;

/// An amount of data, counted in octets.
#[derive(Clone, Copy, Debug, PartialEq, Eq, Structural)]
pub struct Data {
    pub octets: u64,
}

impl Data {
    /// The amount of `kibioctets` units of 1024 octets.
    pub open spec fn kibioctets(kibioctets: u16) -> Data {
        Data { octets: (kibioctets * OCTETS_PER_KIBIOCTET) as u64 }
    }

    /// The amount of `mebioctets` units of 1024 * 1024 octets.
    pub open spec fn mebioctets(mebioctets: u32) -> Data {
        Data { octets: (mebioctets * OCTETS_PER_MEBIOCTET) as u64 }
    }

    /// An amount given in kibioctets.
    pub fn from_kibioctets(kibioctets: u16) -> (r: Data)
        ensures
            r == Data::kibioctets(kibioctets),
            r.octets == kibioctets * 1024,
    {
        Data { octets: kibioctets as u64 * OCTETS_PER_KIBIOCTET }
    }

    /// An amount given in mebioctets.
    pub fn from_mebioctets(mebioctets: u32) -> (r: Data)
        ensures
            r == Data::mebioctets(mebioctets),
            r.octets == mebioctets * 1024 * 1024,
    {
        Data { octets: mebioctets as u64 * OCTETS_PER_MEBIOCTET }
    }
}

/// A frequency, counted in megahertz.
#[derive(Clone, Copy, Debug, PartialEq, Eq, Structural)]
pub struct Frequency {
    pub megahertz: u32,
}

impl Frequency {
    /// A frequency given in megahertz.
    pub fn from_megahertz(megahertz: u32) -> (r: Frequency)
        ensures
            r.megahertz == megahertz,
    {
        Frequency { megahertz }
    }
}

} // verus!
