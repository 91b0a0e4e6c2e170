//! UEFI Tables
pub mod boot;
pub mod config;
pub mod raw;
pub mod revision_order;

use vstd::prelude::*;

use crate::string::{has_nul, nul_terminated, UefiStr};
use crate::table::config::{ConfigTable, GenericConfig, RawConfigurationTable};
use crate::table::raw::{Header, RawSystemTable, Revision};

verus! {

/// The UEFI System table, as read from firmware: the table and its
/// configuration table entries
#[derive(Debug)]
pub struct SystemTable {
    /// The table
    pub raw: RawSystemTable,

    /// The configuration table entries it points at
    pub configs: Vec<RawConfigurationTable>,
}

impl SystemTable {
    /// Firmware-specific value indicating its revision
    pub fn firmware_revision(&self) -> (r: u32)
        ensures
            r == self.raw.firmware_revision,
    {
        self.raw.firmware_revision
    }

    /// The UEFI [`Revision`] that this implementation claims conformance to
    pub fn uefi_revision(&self) -> (r: Revision)
        ensures
            r == self.raw.header.revision,
    {
        self.raw.header.revision
    }

    /// A copy of the UEFI Table header structure
    pub fn header(&self) -> (r: Header)
        ensures
            r == self.raw.header,
    {
        self.raw.header
    }

    /// String identifying the firmware vendor, from the units read at the
    /// address the table holds
    pub fn firmware_vendor<'a>(&self, units: &'a [u16]) -> (r: UefiStr<'a>)
        requires
            self.raw.firmware_vendor != 0,
            has_nul(units@),
        ensures
            r.wf(),
            r@ == nul_terminated(units@),
    {
        UefiStr::from_ptr(units)
    }

    /// Address of the console output protocol, which firmware never leaves
    /// null
    pub fn stdout(&self) -> (r: u64)
        requires
            self.raw.con_out != 0,
        ensures
            r == self.raw.con_out,
    {
        self.raw.con_out
    }

    /// Address of the console error output protocol, which firmware never
    /// leaves null
    pub fn stderr(&self) -> (r: u64)
        requires
            self.raw.con_err != 0,
        ensures
            r == self.raw.con_err,
    {
        self.raw.con_err
    }

    /// Address of the boot services table, which is not null before boot
    /// services are exited
    pub fn boot(&self) -> (r: u64)
        requires
            self.raw.boot_services != 0,
        ensures
            r == self.raw.boot_services,
    {
        self.raw.boot_services
    }

    /// The UEFI Configuration tables, in order
    pub fn config_tables(&self) -> (r: Vec<GenericConfig>)
        requires
            self.raw.configuration_table != 0,
        ensures
            r@.len() == self.configs@.len(),
            forall|i: int|
                0 <= i < r@.len() ==> (#[trigger] r@[i]).guid()@ == self.configs@[i].guid@
                    && r@[i].as_ptr() == self.configs@[i].table,
    {
        let mut out: Vec<GenericConfig> = Vec::new();
        let mut i: usize = 0;
        while i < self.configs.len()
            invariant
                i <= self.configs@.len(),
                out@.len() == i,
                forall|k: int|
                    0 <= k < i ==> (#[trigger] out@[k]).guid()@ == self.configs@[k].guid@
                        && out@[k].as_ptr() == self.configs@[k].table,
            decreases self.configs@.len() - i,
        {
            out.push(GenericConfig::new(self.configs[i]));
            i = i + 1;
        }
        out
    }

    /// The configuration table `T`: the first entry with its GUID, or
    /// [`None`]
    pub fn config_table<T: ConfigTable>(&self) -> (r: Option<T>)
        ensures
            match r {
                Some(t) => exists|i: int|
                    0 <= i < self.configs@.len() && self.configs@[i].guid@ == T::spec_guid()
                        && t.spec_table() == self.configs@[i].table && forall|k: int|
                        0 <= k < i ==> self.configs@[k].guid@ != T::spec_guid(),
                None => forall|i: int|
                    0 <= i < self.configs@.len() ==> self.configs@[i].guid@ != T::spec_guid(),
            },
    {
        let guid = T::guid();
        let mut i: usize = 0;
        while i < self.configs.len()
            invariant
                i <= self.configs@.len(),
                guid@ == T::spec_guid(),
                forall|k: int| 0 <= k < i ==> self.configs@[k].guid@ != T::spec_guid(),
            decreases self.configs@.len() - i,
        {
            if self.configs[i].guid == guid {
                let t = GenericConfig::new(self.configs[i]).as_table::<T>();
                return t;
            }
            i = i + 1;
        }
        None
    }
}

} // verus!
