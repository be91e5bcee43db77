//! Memory-device records of an SMBIOS table, decoded into typed values.
//!
//! A table is parsed by `smbioslib`. This crate enumerates its memory-device
//! structures and interprets their fields when asked: capacity, speed,
//! manufacturer, part number, location, memory type and form factor. A field
//! that the firmware leaves unset decodes to `None`.
//!
//! The decoding rules are verified. What they rest on is gathered in two
//! modules: `table` holds the calls into `smbioslib`, `text` those into
//! `str::trim` and `str::to_uppercase`, each with the contract that is
//! assumed of it.

pub mod mem;
pub mod memerror;
pub mod reading;
pub mod smbios;
pub mod table;
pub mod text;
pub mod units;
