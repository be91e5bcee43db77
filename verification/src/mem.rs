//! Memory devices of a table, and the interpretation of their fields.

use vstd::prelude::*;
use smbioslib::{MemoryDeviceType, MemoryFormFactor, SMBiosMemoryDevice};
use crate::memerror::SMBiosError;
use crate::reading::{decode_size, decode_speed, decoded_size, decoded_speed, MemorySpeed};
use crate::smbios::SMBios;
use crate::table::{
    device_record, device_records, form_factor_debug, form_factor_name,
    memory_device_structures, memory_devices, memory_type_debug, memory_type_name,
    reported_extended_size, reported_form_factor, reported_location, reported_manufacturer,
    reported_memory_type, reported_part_number, reported_size, reported_speed,
    same_form_factor, same_memory_type, DeviceRecord,
};
use crate::text::{
    is_trimmed, lemma_trimmed_is_middle, text_view, to_uppercase, trim, trimmed, uppercase,
    white_space,
};
use crate::units::{Data, Frequency};

verus! {

/// One memory device of a table, such as a RAM module or an empty slot. It
/// borrows its structure from the table and decodes a field when asked. A
/// field that the firmware leaves unset, that cannot be read, or whose code
/// is assigned to nothing decodes to `None`; only `speed` asks something of
/// its caller.
pub struct MemDevice<'a> {
    device: SMBiosMemoryDevice<'a>,
}

impl<'a> View for MemDevice<'a> {
    type V = DeviceRecord;

    /// What the structure of this device reports.
    closed spec fn view(&self) -> DeviceRecord {
        device_record(self.device)
    }
}

/// An encoding that this crate does not decode.
#[derive(Clone, Copy, Debug, PartialEq, Eq, Structural)]
pub enum UnsupportedEncoding {
    /// The speed field holds the sentinel that defers to the extended speed
    /// field.
    ExtendedSpeed,
}

/// What each of `devices` reports, in their order.
pub open spec fn records(devices: Seq<MemDevice>) -> Seq<DeviceRecord> {
    devices.map_values(|device: MemDevice| device@)
}

/// Whether `devices` are the memory devices of `table`: one for each
/// structure that is tagged as a memory device and stands before the end of
/// the table, in table order.
pub open spec fn enumerates(devices: Seq<MemDevice>, table: SMBios) -> bool {
    records(devices) == memory_devices(table@)
}

/// The memory type that a reported enumerator decodes to: the enumerator
/// itself, unless it is the one named `None`, which the parser reports for a
/// code that no memory type is assigned to.
pub open spec fn decoded_memory_type(reported: Option<MemoryDeviceType>) -> Option<
    MemoryDeviceType,
> {
    match reported {
        Some(e) if memory_type_name(e) != "None"@ => Some(e),
        _ => None,
    }
}

/// The form factor that a reported enumerator decodes to: the enumerator
/// itself, unless it is the one named `None`, which the parser reports for a
/// code that no form factor is assigned to.
pub open spec fn decoded_form_factor(reported: Option<MemoryFormFactor>) -> Option<
    MemoryFormFactor,
> {
    match reported {
        Some(e) if form_factor_name(e) != "None"@ => Some(e),
        _ => None,
    }
}

/// What a speed field comes to: the decoded speed, or the refusal of a
/// field that defers to the extended speed field.
pub open spec fn speed_outcome(speed: Option<MemorySpeed>) -> Result<
    Option<Frequency>,
    UnsupportedEncoding,
> {
    if speed == Some(MemorySpeed::SeeExtendedSpeed) {
        Err(UnsupportedEncoding::ExtendedSpeed)
    } else {
        Ok(decoded_speed(speed))
    }
}

/// The text that a part-number field decodes to.
pub open spec fn decoded_part_number(raw: Option<Seq<char>>) -> Option<Seq<char>> {
    match raw {
        Some(text) => Some(trimmed(text)),
        None => None,
    }
}

impl<'a> MemDevice<'a> {
    /// Enumerates the memory devices of a table. The result is always
    /// `Ok(Some(..))`; a table without memory devices gives an empty vector.
    pub fn from_smbios(smbios: &'a SMBios) -> (r: Result<Option<Vec<Self>>, SMBiosError>)
        ensures
            r matches Ok(Some(devices)) && enumerates(devices@, *smbios),
    {
        let structures = memory_device_structures(&smbios.data);
        let mut devices: Vec<MemDevice<'a>> = Vec::new();
        for device in it: structures.into_iter()
            invariant
                it.seq() == structures@,
                devices@.len() == it.index(),
                forall|i: int|
                    0 <= i < devices@.len() ==> (#[trigger] devices@[i])@ == device_record(
                        structures@[i],
                    ),
        {
            devices.push(MemDevice { device });
        }
        assert(records(devices@) =~= device_records(structures@));
        Ok(Some(devices))
    }

    /// The configured speed of the device, `None` where the firmware reports
    /// none. A device whose speed field defers to the extended speed field
    /// is outside this function: `try_speed` tells such a device apart.
    /// Code that is not verified and calls this on such a device is stopped
    /// by a panic; the field never passes for an absent speed.
    pub fn speed(&self) -> (r: Option<Frequency>)
        requires
            self@.configured_speed != Some(MemorySpeed::SeeExtendedSpeed),
        ensures
            r == decoded_speed(self@.configured_speed),
    {
        decode_speed(reported_speed(&self.device))
    }

    /// The configured speed of the device, or the error where its speed
    /// field defers to the extended speed field.
    pub fn try_speed(&self) -> (r: Result<Option<Frequency>, UnsupportedEncoding>)
        ensures
            r == speed_outcome(self@.configured_speed),
    {
        match reported_speed(&self.device) {
            Some(MemorySpeed::SeeExtendedSpeed) => Err(UnsupportedEncoding::ExtendedSpeed),
            _ => Ok(self.speed()),
        }
    }

    /// The label of the socket or board position, as the firmware wrote it.
    pub fn location(&self) -> (r: Option<String>)
        ensures
            text_view(r) == self@.location,
    {
        reported_location(&self.device)
    }

    /// The part number, without the white space around it.
    pub fn part_number(&self) -> (r: Option<String>)
        ensures
            text_view(r) == decoded_part_number(self@.part_number),
    {
        match reported_part_number(&self.device) {
            Some(raw) => Some(trim(raw.as_str()).to_string()),
            None => None,
        }
    }

    /// The manufacturer, as the firmware wrote it.
    pub fn manufacturer(&self) -> (r: Option<String>)
        ensures
            text_view(r) == self@.manufacturer,
    {
        reported_manufacturer(&self.device)
    }

    /// The capacity of the device, `None` where the firmware reports none.
    pub fn size(&self) -> (r: Option<Data>)
        ensures
            r == decoded_size(self@.size, self@.extended_size),
    {
        decode_size(reported_size(&self.device), reported_extended_size(&self.device))
    }

    /// The kind of memory of the device, `None` where the structure holds
    /// no memory type or a code that no memory type is assigned to.
    pub fn mem_type(&self) -> (r: Option<MemoryType>)
        ensures
            r is Some <==> decoded_memory_type(self@.memory_type) is Some,
            r matches Some(t) ==> decoded_memory_type(self@.memory_type) == Some(t.0),
    {
        match reported_memory_type(&self.device) {
            Some(v) => {
                if memory_type_debug(&v) == "None".to_string() {
                    None
                } else {
                    Some(MemoryType(v))
                }
            },
            None => None,
        }
    }

    /// The physical form of the device, `None` where the structure holds no
    /// form factor or a code that no form factor is assigned to.
    pub fn form_factor(&self) -> (r: Option<FormFactor>)
        ensures
            r is Some <==> decoded_form_factor(self@.form_factor) is Some,
            r matches Some(f) ==> decoded_form_factor(self@.form_factor) == Some(f.0),
    {
        match reported_form_factor(&self.device) {
            Some(v) => {
                if form_factor_debug(&v) == "None".to_string() {
                    None
                } else {
                    Some(FormFactor(v))
                }
            },
            None => None,
        }
    }
}

/// The display text of the memory type whose enumerator has the given
/// name: the alias of the one that has an alias, the name in upper case of
/// every other.
pub open spec fn memory_type_text(name: Seq<char>) -> Seq<char> {
    if name == "ThreeDram"@ {
        "3DRAM"@
    } else {
        uppercase(name)
    }
}

/// The display text of the form factor whose enumerator has the given name:
/// the alias of each of the two that have one, the name in upper case of
/// every other.
pub open spec fn form_factor_text(name: Seq<char>) -> Seq<char> {
    if name == "RowOfChips"@ {
        "Row of Chips"@
    } else if name == "ProprietaryCard"@ {
        "Proprietary Card"@
    } else {
        uppercase(name)
    }
}

/// Renders the memory type whose enumerator has the given name.
pub fn memory_type_label(name: String) -> (r: String)
    ensures
        r@ == memory_type_text(name@),
{
    if name == "ThreeDram".to_string() {
        "3DRAM".to_string()
    } else {
        to_uppercase(name.as_str())
    }
}

/// Renders the form factor whose enumerator has the given name.
pub fn form_factor_label(name: String) -> (r: String)
    ensures
        r@ == form_factor_text(name@),
{
    if name == "RowOfChips".to_string() {
        "Row of Chips".to_string()
    } else if name == "ProprietaryCard".to_string() {
        "Proprietary Card".to_string()
    } else {
        to_uppercase(name.as_str())
    }
}

/// A form factor with a display text of its own. Two are equal when their
/// enumerators are.
pub struct FormFactor(pub MemoryFormFactor);

impl FormFactor {
    /// The display text: "Row of Chips", "Proprietary Card", or the
    /// enumerator's name in upper case.
    pub fn to_string(&self) -> (r: String)
        ensures
            r@ == form_factor_text(form_factor_name(self.0)),
    {
        form_factor_label(form_factor_debug(&self.0))
    }
}

impl PartialEq for FormFactor {
    fn eq(&self, other: &Self) -> (r: bool) {
        same_form_factor(&self.0, &other.0)
    }
}

impl Eq for FormFactor {}

impl vstd::std_specs::cmp::PartialEqSpecImpl for FormFactor {
    open spec fn obeys_eq_spec() -> bool {
        true
    }

    open spec fn eq_spec(&self, other: &Self) -> bool {
        form_factor_name(self.0) == form_factor_name(other.0)
    }
}

/// A memory type with a display text of its own. Two are equal when their
/// enumerators are.
pub struct MemoryType(pub MemoryDeviceType);

impl MemoryType {
    /// The display text: "3DRAM", or the enumerator's name in upper case.
    pub fn to_string(&self) -> (r: String)
        ensures
            r@ == memory_type_text(memory_type_name(self.0)),
    {
        memory_type_label(memory_type_debug(&self.0))
    }
}

impl PartialEq for MemoryType {
    fn eq(&self, other: &Self) -> (r: bool) {
        same_memory_type(&self.0, &other.0)
    }
}

impl Eq for MemoryType {}

impl vstd::std_specs::cmp::PartialEqSpecImpl for MemoryType {
    open spec fn obeys_eq_spec() -> bool {
        true
    }

    open spec fn eq_spec(&self, other: &Self) -> bool {
        memory_type_name(self.0) == memory_type_name(other.0)
    }
}

/// Every field of every device decodes to a value or to `None`, with one
/// exception. A field that the structure does not hold decodes to `None`,
/// and so does an enumerated field whose code is assigned to nothing. Only a
/// speed field that defers to the extended speed field is refused: it never
/// passes for an absent speed, and no other speed field is refused.
pub proof fn lemma_fields_decode_or_are_absent(record: DeviceRecord)
    ensures
        record.size is None ==> decoded_size(record.size, record.extended_size) is None,
        record.part_number is None ==> decoded_part_number(record.part_number) is None,
        record.memory_type is None ==> decoded_memory_type(record.memory_type) is None,
        record.form_factor is None ==> decoded_form_factor(record.form_factor) is None,
        record.memory_type matches Some(e) && memory_type_name(e) == "None"@
            ==> decoded_memory_type(record.memory_type) is None,
        record.form_factor matches Some(e) && form_factor_name(e) == "None"@
            ==> decoded_form_factor(record.form_factor) is None,
        record.configured_speed is None ==> speed_outcome(record.configured_speed) == Ok::<
            Option<Frequency>,
            UnsupportedEncoding,
        >(None),
        speed_outcome(record.configured_speed) is Err <==> record.configured_speed == Some(
            MemorySpeed::SeeExtendedSpeed,
        ),
        speed_outcome(record.configured_speed) matches Ok(speed) ==> speed == decoded_speed(
            record.configured_speed,
        ),
{
}

/// A part number that can be read decodes to the one part of the raw text
/// that is left when the white space before it and after it is taken away:
/// it neither begins nor ends with white space, and nothing but white space
/// is lost. A part number that cannot be read decodes to nothing.
pub proof fn lemma_part_number_is_trimmed(raw: Seq<char>)
    ensures
        decoded_part_number(None) is None,
        decoded_part_number(Some(raw)) matches Some(text) && is_trimmed(text) && exists|
            start: int,
            end: int,
        |
            {
                &&& 0 <= start <= end <= raw.len()
                &&& #[trigger] raw.subrange(start, end) == text
                &&& forall|i: int| 0 <= i < start ==> white_space(#[trigger] raw[i])
                &&& forall|i: int| end <= i < raw.len() ==> white_space(#[trigger] raw[i])
            },
{
    lemma_trimmed_is_middle(raw);
}

/// Rendering singles out exactly the enumerators with an alias: every other
/// name is rendered in upper case.
pub proof fn lemma_rendering_aliases(name: Seq<char>)
    ensures
        name == "ThreeDram"@ ==> memory_type_text(name) == "3DRAM"@,
        name != "ThreeDram"@ ==> memory_type_text(name) == uppercase(name),
        name == "RowOfChips"@ ==> form_factor_text(name) == "Row of Chips"@,
        name == "ProprietaryCard"@ ==> form_factor_text(name) == "Proprietary Card"@,
        name != "RowOfChips"@ && name != "ProprietaryCard"@ ==> form_factor_text(name)
            == uppercase(name),
{
    reveal_strlit("RowOfChips");
    reveal_strlit("ProprietaryCard");
    assert("RowOfChips"@.len() != "ProprietaryCard"@.len());
}

/// Enumerating one table twice gives the same devices: as many, and in the
/// same order.
pub proof fn lemma_enumeration_is_determined(
    table: SMBios,
    first: Seq<MemDevice>,
    second: Seq<MemDevice>,
)
    requires
        enumerates(first, table),
        enumerates(second, table),
    ensures
        first.len() == second.len(),
        forall|i: int| 0 <= i < first.len() ==> first[i]@ == second[i]@,
{
    assert(records(first).len() == first.len());
    assert(records(second).len() == second.len());
    assert forall|i: int| 0 <= i < first.len() implies first[i]@ == second[i]@ by {
        assert(records(first)[i] == first[i]@);
        assert(records(second)[i] == second[i]@);
    }
}

} // verus!
