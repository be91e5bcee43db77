//! The table that memory devices are read from.

use vstd::prelude::*;
use smbioslib::SMBiosData;
use crate::table::{table_entries, TableEntry};

verus! {

/// A parsed SMBIOS table. It owns its structures; the devices that are
/// enumerated from it borrow them.
pub struct SMBios {
    pub data: SMBiosData,
}

impl View for SMBios {
    type V = Seq<TableEntry>;

    /// The structures of the table, in table order.
    open spec fn view(&self) -> Seq<TableEntry> {
        table_entries(self.data)
    }
}

impl SMBios {
    /// Wraps a table that was parsed elsewhere.
    pub fn new_from_data(data: SMBiosData) -> (r: Self)
        ensures
            r.data == data,
    {
        Self { data }
    }
}

} // verus!
