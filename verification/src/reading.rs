//! Fields that firmware may report directly, leave unset, or defer to a wider
//! field elsewhere in the same structure.
//!
//! Size and configured speed of a memory device share this shape: a 16-bit
//! field with reserved codes for "unset" and for "see the extended field".

use vstd::prelude::*;
use vstd::pervasive::unreached;
use crate::units::{Data, Frequency};

verus! {

/// The 16-bit size field of a memory device, as `smbioslib` classifies it.
#[derive(Clone, Copy, Debug, PartialEq, Eq, Structural)]
pub enum MemorySize {
    /// No device is installed in the socket.
    NotInstalled,
    /// The size is unknown.
    Unknown,
    /// The size stands in the extended size field.
    SeeExtendedSize,
    /// The size in units of 1024 octets.
    Kilobytes(u16),
    /// The size in units of 1024 * 1024 octets.
    Megabytes(u16),
}

/// The 32-bit extended size field of a memory device, as `smbioslib`
/// classifies it.
#[derive(Clone, Copy, Debug, PartialEq, Eq, Structural)]
pub enum MemorySizeExtended {
    /// The size in units of 1024 * 1024 octets.
    Megabytes(u32),
    /// The size stands in the 16-bit size field.
    SeeSize,
}

/// The 16-bit configured speed field of a memory device, as `smbioslib`
/// classifies it.
#[derive(Clone, Copy, Debug, PartialEq, Eq, Structural)]
pub enum MemorySpeed {
    /// The speed is unknown.
    Unknown,
    /// The speed stands in the extended configured speed field.
    SeeExtendedSpeed,
    /// The speed in megatransfers per second.
    MTs(u16),
}

/// What a possibly-extended field says about its value.
#[derive(Debug, PartialEq, Eq, Structural)]
pub enum Reading<T> {
    /// The firmware reports no value.
    Absent,
    /// The field holds the value itself.
    Direct(T),
    /// The field holds the sentinel: the value stands in the extended field.
    Deferred,
}

impl<T> Reading<T> {
    /// The value of the field, given what its extended field holds.
    pub open spec fn resolved(self, extended: Option<T>) -> Option<T> {
        match self {
            Reading::Absent => None,
            Reading::Direct(value) => Some(value),
            Reading::Deferred => extended,
        }
    }

    /// Settles the field: a direct value stands, a deferred one is taken from
    /// `extended`, an absent one stays absent whatever `extended` holds.
    pub fn resolve(self, extended: Option<T>) -> (r: Option<T>)
        ensures
            r == self.resolved(extended),
    {
        match self {
            Reading::Absent => None,
            Reading::Direct(value) => Some(value),
            Reading::Deferred => extended,
        }
    }
}

/// The size field read as a possibly-extended amount of data.
pub open spec fn size_reading(size: Option<MemorySize>) -> Reading<Data> {
    match size {
        Some(MemorySize::Kilobytes(v)) => Reading::Direct(Data::kibioctets(v)),
        Some(MemorySize::Megabytes(v)) => Reading::Direct(Data::mebioctets(v as u32)),
        Some(MemorySize::SeeExtendedSize) => Reading::Deferred,
        _ => Reading::Absent,
    }
}

/// The amount that the extended size field holds, if it holds one.
pub open spec fn extended_size_value(extended: Option<MemorySizeExtended>) -> Option<Data> {
    match extended {
        Some(MemorySizeExtended::Megabytes(w)) => Some(Data::mebioctets(w)),
        _ => None,
    }
}

/// The capacity that a size field and an extended size field report together.
pub open spec fn decoded_size(
    size: Option<MemorySize>,
    extended: Option<MemorySizeExtended>,
) -> Option<Data> {
    size_reading(size).resolved(extended_size_value(extended))
}

/// The configured speed field read as a possibly-extended frequency; one
/// megatransfer per second counts as one megahertz.
pub open spec fn speed_reading(speed: Option<MemorySpeed>) -> Reading<Frequency> {
    match speed {
        Some(MemorySpeed::MTs(s)) => Reading::Direct(Frequency { megahertz: s as u32 }),
        Some(MemorySpeed::SeeExtendedSpeed) => Reading::Deferred,
        _ => Reading::Absent,
    }
}

/// The frequency that a configured speed field reports by itself.
pub open spec fn decoded_speed(speed: Option<MemorySpeed>) -> Option<Frequency> {
    speed_reading(speed).resolved(None)
}

/// Reads a size field: an amount in its own unit, the sentinel, or nothing.
pub fn read_size(size: Option<MemorySize>) -> (r: Reading<Data>)
    ensures
        r == size_reading(size),
{
    match size {
        Some(MemorySize::Kilobytes(v)) => Reading::Direct(Data::from_kibioctets(v)),
        Some(MemorySize::Megabytes(v)) => Reading::Direct(Data::from_mebioctets(v as u32)),
        Some(MemorySize::SeeExtendedSize) => Reading::Deferred,
        _ => Reading::Absent,
    }
}

/// Reads an extended size field: an amount in mebioctets, or nothing.
pub fn read_extended_size(extended: Option<MemorySizeExtended>) -> (r: Option<Data>)
    ensures
        r == extended_size_value(extended),
{
    match extended {
        Some(MemorySizeExtended::Megabytes(w)) => Some(Data::from_mebioctets(w)),
        _ => None,
    }
}

/// Decodes the capacity of a device from its size field and its extended
/// size field. The extended field counts only where the size field holds the
/// sentinel.
pub fn decode_size(size: Option<MemorySize>, extended: Option<MemorySizeExtended>) -> (r: Option<
    Data,
>)
    ensures
        r == decoded_size(size, extended),
{
    read_size(size).resolve(read_extended_size(extended))
}

/// Reads a configured speed field: a frequency, the sentinel, or nothing.
pub fn read_speed(speed: Option<MemorySpeed>) -> (r: Reading<Frequency>)
    ensures
        r == speed_reading(speed),
{
    match speed {
        Some(MemorySpeed::MTs(s)) => Reading::Direct(Frequency::from_megahertz(s as u32)),
        Some(MemorySpeed::SeeExtendedSpeed) => Reading::Deferred,
        _ => Reading::Absent,
    }
}

/// Decodes the configured speed of a device from its speed field. A field
/// that defers to the extended speed field is not decoded: the caller rules
/// it out.
pub fn decode_speed(speed: Option<MemorySpeed>) -> (r: Option<Frequency>)
    requires
        speed != Some(MemorySpeed::SeeExtendedSpeed),
    ensures
        r == decoded_speed(speed),
{
    match read_speed(speed) {
        Reading::Absent => None,
        Reading::Direct(frequency) => Some(frequency),
        Reading::Deferred => unreached(),
    }
}

/// A size given in kilobyte units decodes to that many kibioctets, whatever
/// the extended field holds.
pub proof fn lemma_kilobytes_decode(v: u16, extended: Option<MemorySizeExtended>)
    ensures
        decoded_size(Some(MemorySize::Kilobytes(v)), extended) matches Some(d) && d.octets == v
            * 1024,
{
}

/// A size given in megabyte units decodes to that many mebioctets, whatever
/// the extended field holds.
pub proof fn lemma_megabytes_decode(v: u16, extended: Option<MemorySizeExtended>)
    ensures
        decoded_size(Some(MemorySize::Megabytes(v)), extended) matches Some(d) && d.octets == v
            * 1024 * 1024,
{
}

/// Behind the sentinel, an extended size of `w` megabytes decodes to `w`
/// mebioctets.
pub proof fn lemma_extended_decode(w: u32)
    ensures
        decoded_size(
            Some(MemorySize::SeeExtendedSize),
            Some(MemorySizeExtended::Megabytes(w)),
        ) matches Some(d) && d.octets == w * 1024 * 1024,
{
}

/// The capacity is absent exactly when the size field is missing, reports no
/// amount, or holds the sentinel without an amount in the extended field.
pub proof fn lemma_size_absent(size: Option<MemorySize>, extended: Option<MemorySizeExtended>)
    ensures
        decoded_size(size, extended) is None <==> {
            ||| size is None
            ||| size == Some(MemorySize::NotInstalled)
            ||| size == Some(MemorySize::Unknown)
            ||| (size == Some(MemorySize::SeeExtendedSize) && !(extended matches Some(
                MemorySizeExtended::Megabytes(_),
            )))
        },
{
}

/// A speed given in megatransfers per second decodes to that many megahertz;
/// a missing or unknown speed decodes to nothing.
pub proof fn lemma_speed_decode(speed: Option<MemorySpeed>)
    requires
        speed != Some(MemorySpeed::SeeExtendedSpeed),
    ensures
        speed matches Some(MemorySpeed::MTs(s)) ==> decoded_speed(speed) == Some(
            Frequency { megahertz: s as u32 },
        ),
        !(speed matches Some(MemorySpeed::MTs(_))) ==> decoded_speed(speed) is None,
{
}

} // verus!
