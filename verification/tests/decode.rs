use memdevice::mem::{form_factor_label, memory_type_label, FormFactor, MemoryType};
use memdevice::reading::{
    decode_size, decode_speed, read_extended_size, read_size, read_speed, MemorySize,
    MemorySizeExtended, MemorySpeed, Reading,
};
use memdevice::units::{Data, Frequency};
use smbioslib::{MemoryDeviceType, MemoryFormFactor};

#[test]
fn kilobytes_decode_to_kibioctets() {
    assert_eq!(decode_size(Some(MemorySize::Kilobytes(1)), None), Some(Data { octets: 1024 }));
    assert_eq!(
        decode_size(Some(MemorySize::Kilobytes(256)), None),
        Some(Data { octets: 262_144 })
    );
    assert_eq!(
        decode_size(Some(MemorySize::Kilobytes(0x7FFE)), None),
        Some(Data { octets: 33_552_384 })
    );
    assert_eq!(
        decode_size(Some(MemorySize::Kilobytes(u16::MAX)), None),
        Some(Data { octets: 67_107_840 })
    );
}

#[test]
fn megabytes_decode_to_mebioctets() {
    assert_eq!(
        decode_size(Some(MemorySize::Megabytes(1)), None),
        Some(Data { octets: 1_048_576 })
    );
    assert_eq!(
        decode_size(Some(MemorySize::Megabytes(8192)), None),
        Some(Data { octets: 8_589_934_592 })
    );
    assert_eq!(
        decode_size(Some(MemorySize::Megabytes(u16::MAX)), None),
        Some(Data { octets: 68_718_428_160 })
    );
}

#[test]
fn extended_megabytes_decode_to_mebioctets() {
    assert_eq!(
        decode_size(
            Some(MemorySize::SeeExtendedSize),
            Some(MemorySizeExtended::Megabytes(32768))
        ),
        Some(Data { octets: 34_359_738_368 })
    );
    assert_eq!(
        decode_size(
            Some(MemorySize::SeeExtendedSize),
            Some(MemorySizeExtended::Megabytes(u32::MAX))
        ),
        Some(Data { octets: 4_503_599_626_321_920 })
    );
}

#[test]
fn legacy_size_ignores_the_extended_field() {
    let extended = Some(MemorySizeExtended::Megabytes(99));
    assert_eq!(
        decode_size(Some(MemorySize::Kilobytes(2)), extended),
        Some(Data { octets: 2048 })
    );
    assert_eq!(
        decode_size(Some(MemorySize::Megabytes(2)), extended),
        Some(Data { octets: 2_097_152 })
    );
    assert_eq!(
        decode_size(Some(MemorySize::Megabytes(2)), Some(MemorySizeExtended::SeeSize)),
        Some(Data { octets: 2_097_152 })
    );
}

#[test]
fn size_without_amount_is_absent() {
    let extended = Some(MemorySizeExtended::Megabytes(99));
    assert_eq!(decode_size(None, None), None);
    assert_eq!(decode_size(None, extended), None);
    assert_eq!(decode_size(Some(MemorySize::NotInstalled), extended), None);
    assert_eq!(decode_size(Some(MemorySize::Unknown), extended), None);
    assert_eq!(decode_size(Some(MemorySize::SeeExtendedSize), None), None);
    assert_eq!(
        decode_size(Some(MemorySize::SeeExtendedSize), Some(MemorySizeExtended::SeeSize)),
        None
    );
}

#[test]
fn size_field_readings() {
    assert_eq!(read_size(None), Reading::Absent);
    assert_eq!(read_size(Some(MemorySize::NotInstalled)), Reading::Absent);
    assert_eq!(read_size(Some(MemorySize::Unknown)), Reading::Absent);
    assert_eq!(read_size(Some(MemorySize::SeeExtendedSize)), Reading::Deferred);
    assert_eq!(
        read_size(Some(MemorySize::Kilobytes(3))),
        Reading::Direct(Data { octets: 3072 })
    );
    assert_eq!(
        read_size(Some(MemorySize::Megabytes(3))),
        Reading::Direct(Data { octets: 3_145_728 })
    );
    assert_eq!(read_extended_size(None), None);
    assert_eq!(read_extended_size(Some(MemorySizeExtended::SeeSize)), None);
    assert_eq!(
        read_extended_size(Some(MemorySizeExtended::Megabytes(3))),
        Some(Data { octets: 3_145_728 })
    );
}

#[test]
fn speed_field_readings() {
    assert_eq!(read_speed(None), Reading::Absent);
    assert_eq!(read_speed(Some(MemorySpeed::Unknown)), Reading::Absent);
    assert_eq!(read_speed(Some(MemorySpeed::SeeExtendedSpeed)), Reading::Deferred);
    assert_eq!(
        read_speed(Some(MemorySpeed::MTs(3200))),
        Reading::Direct(Frequency { megahertz: 3200 })
    );
}

#[test]
fn speed_decodes_to_megahertz() {
    assert_eq!(
        decode_speed(Some(MemorySpeed::MTs(2667))),
        Some(Frequency { megahertz: 2667 })
    );
    assert_eq!(decode_speed(Some(MemorySpeed::MTs(1))), Some(Frequency { megahertz: 1 }));
    assert_eq!(
        decode_speed(Some(MemorySpeed::MTs(u16::MAX))),
        Some(Frequency { megahertz: 65535 })
    );
    assert_eq!(decode_speed(Some(MemorySpeed::Unknown)), None);
    assert_eq!(decode_speed(None), None);
}

#[test]
fn reading_resolves_against_the_extended_field() {
    assert_eq!(Reading::<u8>::Absent.resolve(None), None);
    assert_eq!(Reading::<u8>::Absent.resolve(Some(9)), None);
    assert_eq!(Reading::Direct(4u8).resolve(None), Some(4));
    assert_eq!(Reading::Direct(4u8).resolve(Some(9)), Some(4));
    assert_eq!(Reading::<u8>::Deferred.resolve(None), None);
    assert_eq!(Reading::<u8>::Deferred.resolve(Some(9)), Some(9));
}

#[test]
fn data_units() {
    assert_eq!(Data::from_kibioctets(0), Data { octets: 0 });
    assert_eq!(Data::from_kibioctets(1).octets, 1024);
    assert_eq!(Data::from_kibioctets(u16::MAX).octets, 65535 * 1024);
    assert_eq!(Data::from_mebioctets(1).octets, 1024 * 1024);
    assert_eq!(Data::from_mebioctets(u32::MAX).octets, 4_294_967_295 * 1024 * 1024);
    assert_eq!(Data::from_kibioctets(1024), Data::from_mebioctets(1));
    assert_eq!(Frequency::from_megahertz(2667).megahertz, 2667);
}

#[test]
fn data_agrees_with_measurements() {
    let kib = Data::from_kibioctets(640);
    assert_eq!(
        measurements::Data::from_octets(kib.octets as f64),
        measurements::Data::from_kibioctets(640.0)
    );
    let mib = Data::from_mebioctets(0x7FFF_FFFF);
    assert_eq!(
        measurements::Data::from_octets(mib.octets as f64),
        measurements::Data::from_mebioctets(2_147_483_647.0)
    );
}

#[test]
fn memory_type_labels() {
    assert_eq!(memory_type_label(String::from("ThreeDram")), "3DRAM");
    assert_eq!(memory_type_label(String::from("Ddr4")), "DDR4");
    assert_eq!(memory_type_label(String::from("threedram")), "THREEDRAM");
    assert_eq!(memory_type_label(String::from("RowOfChips")), "ROWOFCHIPS");
    assert_eq!(memory_type_label(String::new()), "");
}

#[test]
fn form_factor_labels() {
    assert_eq!(form_factor_label(String::from("RowOfChips")), "Row of Chips");
    assert_eq!(form_factor_label(String::from("ProprietaryCard")), "Proprietary Card");
    assert_eq!(form_factor_label(String::from("Sodimm")), "SODIMM");
    assert_eq!(form_factor_label(String::from("ThreeDram")), "THREEDRAM");
    assert_eq!(form_factor_label(String::from("Row of Chips")), "ROW OF CHIPS");
}

#[test]
fn memory_types_render_in_upper_case() {
    assert_eq!(MemoryType(MemoryDeviceType::ThreeDram).to_string(), "3DRAM");
    assert_eq!(MemoryType(MemoryDeviceType::Other).to_string(), "OTHER");
    assert_eq!(MemoryType(MemoryDeviceType::Unknown).to_string(), "UNKNOWN");
    assert_eq!(MemoryType(MemoryDeviceType::Dram).to_string(), "DRAM");
    assert_eq!(MemoryType(MemoryDeviceType::Sdram).to_string(), "SDRAM");
    assert_eq!(MemoryType(MemoryDeviceType::Ddr).to_string(), "DDR");
    assert_eq!(MemoryType(MemoryDeviceType::Ddr2Fbdimm).to_string(), "DDR2FBDIMM");
    assert_eq!(MemoryType(MemoryDeviceType::Ddr4).to_string(), "DDR4");
    assert_eq!(MemoryType(MemoryDeviceType::Lpddr5).to_string(), "LPDDR5");
    assert_eq!(
        MemoryType(MemoryDeviceType::LogicalNonVolatileDevice).to_string(),
        "LOGICALNONVOLATILEDEVICE"
    );
    assert_eq!(MemoryType(MemoryDeviceType::None).to_string(), "NONE");
}

#[test]
fn form_factors_render_in_upper_case() {
    assert_eq!(FormFactor(MemoryFormFactor::RowOfChips).to_string(), "Row of Chips");
    assert_eq!(
        FormFactor(MemoryFormFactor::ProprietaryCard).to_string(),
        "Proprietary Card"
    );
    assert_eq!(FormFactor(MemoryFormFactor::Other).to_string(), "OTHER");
    assert_eq!(FormFactor(MemoryFormFactor::Simm).to_string(), "SIMM");
    assert_eq!(FormFactor(MemoryFormFactor::Dimm).to_string(), "DIMM");
    assert_eq!(FormFactor(MemoryFormFactor::Sodimm).to_string(), "SODIMM");
    assert_eq!(FormFactor(MemoryFormFactor::Fbdimm).to_string(), "FBDIMM");
    assert_eq!(FormFactor(MemoryFormFactor::Die).to_string(), "DIE");
    assert_eq!(FormFactor(MemoryFormFactor::None).to_string(), "NONE");
}

#[test]
fn wrappers_compare_by_enumerator() {
    assert!(MemoryType(MemoryDeviceType::Ddr4) == MemoryType(MemoryDeviceType::Ddr4));
    assert!(MemoryType(MemoryDeviceType::Ddr4) != MemoryType(MemoryDeviceType::Ddr5));
    assert!(MemoryType(MemoryDeviceType::None) != MemoryType(MemoryDeviceType::Unknown));
    assert!(FormFactor(MemoryFormFactor::Dimm) == FormFactor(MemoryFormFactor::Dimm));
    assert!(FormFactor(MemoryFormFactor::Dimm) != FormFactor(MemoryFormFactor::Sodimm));
}
