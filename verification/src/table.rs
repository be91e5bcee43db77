//! The table as the parser presents it: a model of what this crate reads
//! from it, and the calls into `smbioslib` that read it.
//!
//! The contracts of those calls are taken on trust. Each states what the
//! named function of `smbioslib` does, over the model below.

use vstd::prelude::*;
use smbioslib::{MemoryDeviceType, MemoryFormFactor, SMBiosData, SMBiosMemoryDevice};
use crate::reading::{MemorySize, MemorySizeExtended, MemorySpeed};
use crate::text::text_view;

verus! {

/// `smbioslib::SMBiosData`: a parsed table, which owns its structures.
#[verifier::external_type_specification]
#[verifier::external_body]
pub struct ExSMBiosData(SMBiosData);

/// `smbioslib::SMBiosMemoryDevice`: one structure of a table, borrowed from
/// it and read as a memory device.
#[verifier::external_type_specification]
#[verifier::external_body]
pub struct ExSMBiosMemoryDevice<'a>(SMBiosMemoryDevice<'a>);

/// `smbioslib::MemoryDeviceType`: the kinds of memory that a device can be.
#[verifier::external_type_specification]
#[verifier::external_body]
pub struct ExMemoryDeviceType(MemoryDeviceType);

/// `smbioslib::MemoryFormFactor`: the physical forms that a device can have.
#[verifier::external_type_specification]
#[verifier::external_body]
pub struct ExMemoryFormFactor(MemoryFormFactor);

/// The type tag of a memory-device structure.
pub const MEMORY_DEVICE: u8 = 17;

/// The type tag of the structure that ends a table.
pub const END_OF_TABLE: u8 = 127;

/// What a structure reports when it is read as a memory device. A field is
/// `None` where the structure is too short to hold it; a text also where the
/// field names a string that the structure does not hold, or one that is not
/// UTF-8.
pub struct DeviceRecord {
    pub location: Option<Seq<char>>,
    pub manufacturer: Option<Seq<char>>,
    pub part_number: Option<Seq<char>>,
    pub size: Option<MemorySize>,
    pub extended_size: Option<MemorySizeExtended>,
    pub configured_speed: Option<MemorySpeed>,
    pub memory_type: Option<MemoryDeviceType>,
    pub form_factor: Option<MemoryFormFactor>,
}

/// One structure of a table: its type tag, and what it reports when it is
/// read as a memory device.
pub struct TableEntry {
    pub struct_type: u8,
    pub record: DeviceRecord,
}

/// The structures that a table holds, in table order.
pub uninterp spec fn table_entries(data: SMBiosData) -> Seq<TableEntry>;

/// What a memory-device structure reports.
pub uninterp spec fn device_record(device: SMBiosMemoryDevice) -> DeviceRecord;

/// The name of a memory type, as `{:?}` prints it. The parser reports the
/// enumerator named `None` for a code that is assigned to no memory type.
pub uninterp spec fn memory_type_name(value: MemoryDeviceType) -> Seq<char>;

/// The name of a form factor, as `{:?}` prints it. The parser reports the
/// enumerator named `None` for a code that is assigned to no form factor.
pub uninterp spec fn form_factor_name(value: MemoryFormFactor) -> Seq<char>;

/// The records of the memory devices among `entries`: those of the entries
/// tagged as memory devices that stand before the first end-of-table entry,
/// in the order of the entries.
pub open spec fn memory_devices(entries: Seq<TableEntry>) -> Seq<DeviceRecord>
    decreases entries.len(),
{
    if entries.len() == 0 || entries.first().struct_type == END_OF_TABLE {
        Seq::empty()
    } else if entries.first().struct_type == MEMORY_DEVICE {
        seq![entries.first().record] + memory_devices(entries.drop_first())
    } else {
        memory_devices(entries.drop_first())
    }
}

/// Where the enumerated part of a table ends: the position of the first
/// end-of-table entry, or the number of entries where there is none.
pub open spec fn table_end(entries: Seq<TableEntry>) -> int
    decreases entries.len(),
{
    if entries.len() == 0 || entries.first().struct_type == END_OF_TABLE {
        0
    } else {
        1 + table_end(entries.drop_first())
    }
}

/// Whether the entry at `position` is enumerated as a memory device. Only
/// the type tags decide: that of the entry, and those of the entries before.
pub open spec fn is_memory_device(entries: Seq<TableEntry>, position: int) -> bool {
    0 <= position < table_end(entries) && entries[position].struct_type == MEMORY_DEVICE
}

/// The positions of the entries that are enumerated as memory devices,
/// ascending.
pub open spec fn memory_device_positions(entries: Seq<TableEntry>) -> Seq<int>
    decreases entries.len(),
{
    if entries.len() == 0 || entries.first().struct_type == END_OF_TABLE {
        Seq::empty()
    } else {
        let rest = memory_device_positions(entries.drop_first()).map_values(|p: int| p + 1);
        if entries.first().struct_type == MEMORY_DEVICE {
            seq![0int] + rest
        } else {
            rest
        }
    }
}

/// What each of `devices` reports, in their order.
pub open spec fn device_records(devices: Seq<SMBiosMemoryDevice>) -> Seq<DeviceRecord> {
    devices.map_values(|device: SMBiosMemoryDevice| device_record(device))
}

/// Calls `SMBiosData::defined_struct_iter` for memory devices and collects
/// what it yields: the structures tagged as memory devices (type 17) that
/// stand before the end-of-table structure (type 127), in table order.
#[verifier::external_body]
pub(crate) fn memory_device_structures<'a>(data: &'a SMBiosData) -> (r: Vec<
    SMBiosMemoryDevice<'a>,
>)
    ensures
        device_records(r@) == memory_devices(table_entries(*data)),
{
    data.defined_struct_iter::<SMBiosMemoryDevice>().collect()
}

/// Calls `SMBiosMemoryDevice::size`, and gives the variant that it returns.
#[verifier::external_body]
pub(crate) fn reported_size(device: &SMBiosMemoryDevice) -> (r: Option<MemorySize>)
    ensures
        r == device_record(*device).size,
{
    match device.size() {
        None => None,
        Some(smbioslib::MemorySize::NotInstalled) => Some(MemorySize::NotInstalled),
        Some(smbioslib::MemorySize::Unknown) => Some(MemorySize::Unknown),
        Some(smbioslib::MemorySize::SeeExtendedSize) => Some(MemorySize::SeeExtendedSize),
        Some(smbioslib::MemorySize::Kilobytes(v)) => Some(MemorySize::Kilobytes(v)),
        Some(smbioslib::MemorySize::Megabytes(v)) => Some(MemorySize::Megabytes(v)),
    }
}

/// Calls `SMBiosMemoryDevice::extended_size`, and gives the variant that it
/// returns.
#[verifier::external_body]
pub(crate) fn reported_extended_size(device: &SMBiosMemoryDevice) -> (r: Option<
    MemorySizeExtended,
>)
    ensures
        r == device_record(*device).extended_size,
{
    match device.extended_size() {
        None => None,
        Some(smbioslib::MemorySizeExtended::Megabytes(w)) => Some(
            MemorySizeExtended::Megabytes(w),
        ),
        Some(smbioslib::MemorySizeExtended::SeeSize) => Some(MemorySizeExtended::SeeSize),
    }
}

/// Calls `SMBiosMemoryDevice::configured_memory_speed`, and gives the
/// variant that it returns.
#[verifier::external_body]
pub(crate) fn reported_speed(device: &SMBiosMemoryDevice) -> (r: Option<MemorySpeed>)
    ensures
        r == device_record(*device).configured_speed,
{
    match device.configured_memory_speed() {
        None => None,
        Some(smbioslib::MemorySpeed::Unknown) => Some(MemorySpeed::Unknown),
        Some(smbioslib::MemorySpeed::SeeExtendedSpeed) => Some(MemorySpeed::SeeExtendedSpeed),
        Some(smbioslib::MemorySpeed::MTs(s)) => Some(MemorySpeed::MTs(s)),
    }
}

/// Calls `SMBiosMemoryDevice::device_locator` and `SMBiosString::ok`: the
/// text of the field, or `None` where the parser could not read it.
#[verifier::external_body]
pub(crate) fn reported_location(device: &SMBiosMemoryDevice) -> (r: Option<String>)
    ensures
        text_view(r) == device_record(*device).location,
{
    device.device_locator().ok()
}

/// Calls `SMBiosMemoryDevice::manufacturer` and `SMBiosString::ok`: the text
/// of the field, or `None` where the parser could not read it.
#[verifier::external_body]
pub(crate) fn reported_manufacturer(device: &SMBiosMemoryDevice) -> (r: Option<String>)
    ensures
        text_view(r) == device_record(*device).manufacturer,
{
    device.manufacturer().ok()
}

/// Calls `SMBiosMemoryDevice::part_number` and `SMBiosString::ok`: the text
/// of the field, or `None` where the parser could not read it.
#[verifier::external_body]
pub(crate) fn reported_part_number(device: &SMBiosMemoryDevice) -> (r: Option<String>)
    ensures
        text_view(r) == device_record(*device).part_number,
{
    device.part_number().ok()
}

/// Calls `SMBiosMemoryDevice::memory_type`, and gives the enumerator of what
/// it returns.
#[verifier::external_body]
pub(crate) fn reported_memory_type(device: &SMBiosMemoryDevice) -> (r: Option<MemoryDeviceType>)
    ensures
        r == device_record(*device).memory_type,
{
    device.memory_type().map(|data| data.value)
}

/// Calls `SMBiosMemoryDevice::form_factor`, and gives the enumerator of what
/// it returns.
#[verifier::external_body]
pub(crate) fn reported_form_factor(device: &SMBiosMemoryDevice) -> (r: Option<MemoryFormFactor>)
    ensures
        r == device_record(*device).form_factor,
{
    device.form_factor().map(|data| data.value)
}

/// Formats a memory type with `{:?}`, which prints the enumerator's name.
#[verifier::external_body]
pub(crate) fn memory_type_debug(value: &MemoryDeviceType) -> (r: String)
    ensures
        r@ == memory_type_name(*value),
{
    format!("{value:?}")
}

/// Formats a form factor with `{:?}`, which prints the enumerator's name.
#[verifier::external_body]
pub(crate) fn form_factor_debug(value: &MemoryFormFactor) -> (r: String)
    ensures
        r@ == form_factor_name(*value),
{
    format!("{value:?}")
}

/// Compares two memory types with `==`: equal enumerators, which are those
/// of equal names.
#[verifier::external_body]
pub(crate) fn same_memory_type(a: &MemoryDeviceType, b: &MemoryDeviceType) -> (r: bool)
    ensures
        r == (memory_type_name(*a) == memory_type_name(*b)),
{
    a == b
}

/// Compares two form factors with `==`: equal enumerators, which are those
/// of equal names.
#[verifier::external_body]
pub(crate) fn same_form_factor(a: &MemoryFormFactor, b: &MemoryFormFactor) -> (r: bool)
    ensures
        r == (form_factor_name(*a) == form_factor_name(*b)),
{
    a == b
}

/// The enumerated part of a table lies within the table and holds no
/// end-of-table entry.
pub proof fn lemma_table_end(entries: Seq<TableEntry>)
    ensures
        0 <= table_end(entries) <= entries.len(),
        forall|i: int|
            0 <= i < table_end(entries) ==> (#[trigger] entries[i]).struct_type != END_OF_TABLE,
        table_end(entries) < entries.len() ==> entries[table_end(entries)].struct_type
            == END_OF_TABLE,
    decreases entries.len(),
{
    if entries.len() > 0 && entries.first().struct_type != END_OF_TABLE {
        let rest = entries.drop_first();
        lemma_table_end(rest);
        assert forall|i: int| 0 <= i < table_end(entries) implies (#[trigger] entries[i]).struct_type
            != END_OF_TABLE by {
            if i > 0 {
                assert(entries[i] == rest[i - 1]);
            }
        }
        if table_end(entries) < entries.len() {
            assert(entries[table_end(entries)] == rest[table_end(rest)]);
        }
    }
}

/// Enumeration goes by the type tags alone and follows the table: the
/// devices are the records at the enumerated positions. These ascend, so no
/// entry is taken twice and the order of the table is kept; and every entry
/// tagged as a memory device before the end of the table is among them, so
/// none is skipped.
pub proof fn lemma_memory_devices_follow_table(entries: Seq<TableEntry>)
    ensures
        memory_device_positions(entries).len() == memory_devices(entries).len(),
        forall|k: int|
            0 <= k < memory_devices(entries).len() ==> {
                &&& is_memory_device(entries, #[trigger] memory_device_positions(entries)[k])
                &&& memory_devices(entries)[k] == entries[memory_device_positions(
                    entries,
                )[k]].record
            },
        forall|j: int, k: int|
            0 <= j < k < memory_device_positions(entries).len() ==> memory_device_positions(
                entries,
            )[j] < memory_device_positions(entries)[k],
        forall|i: int| #[trigger]
            is_memory_device(entries, i) ==> memory_device_positions(entries).contains(i),
    decreases entries.len(),
{
    if entries.len() > 0 && entries.first().struct_type != END_OF_TABLE {
        let rest = entries.drop_first();
        let positions = memory_device_positions(entries);
        let devices = memory_devices(entries);
        let rest_positions = memory_device_positions(rest);
        let lead: int = if entries.first().struct_type == MEMORY_DEVICE {
            1
        } else {
            0
        };
        lemma_memory_devices_follow_table(rest);
        lemma_table_end(rest);
        // Behind the first entry, both sequences are those of the rest, with
        // each position moved by one.
        assert forall|k: int| lead <= k < positions.len() implies {
            &&& #[trigger] positions[k] == rest_positions[k - lead] + 1
            &&& devices[k] == memory_devices(rest)[k - lead]
        } by {}
        assert forall|k: int| 0 <= k < devices.len() implies {
            &&& is_memory_device(entries, #[trigger] positions[k])
            &&& devices[k] == entries[positions[k]].record
        } by {
            if k >= lead {
                assert(is_memory_device(rest, rest_positions[k - lead]));
            }
        }
        assert forall|j: int, k: int| 0 <= j < k < positions.len() implies positions[j]
            < positions[k] by {
            if j >= lead {
                assert(rest_positions[j - lead] < rest_positions[k - lead]);
            }
        }
        assert forall|i: int| #[trigger] is_memory_device(entries, i) implies positions.contains(
            i,
        ) by {
            if i == 0 {
                assert(positions[0] == 0);
            } else {
                assert(is_memory_device(rest, i - 1));
                let k = choose|k: int|
                    0 <= k < rest_positions.len() && rest_positions[k] == i - 1;
                assert(positions[k + lead] == i);
            }
        }
    }
}

} // verus!
