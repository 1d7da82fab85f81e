//! x86_64 basic ACPI implementation: finds the root system description
//! pointer and selects the root table it points to
use vstd::prelude::*;
use crate::addr::phys_addr::PhysAddr;
use crate::arch::x86_64::acpi_bytes::{in_image, valid_checksum, read_u8, read_u32, read_u64};
use crate::arch::x86_64::acpi_manager::{
    rsdp_search_ok, spec_find_rsdp, spec_find_root_table, spec_root_table_addr, RSDP_SIZE,
    EBDA_START, EBDA_SIZE, BIOS_AREA_START, BIOS_AREA_SIZE,
};
use crate::arch::x86_64::addr::hw_phys_addr::PHYS_ADDR_MASK;

verus! {

/// Basic ACPI manager: the RSDP address and the root tables parsed so far
pub struct AcpiManager {
    pub m_rsdp: u64,
    pub m_rsdt_tables: Vec<u64>,
    pub m_enabled: bool,
}

impl AcpiManager {
    /// Finds the RSDP and parses the tables it leads to; `None` when no RSDP
    /// is found
    pub fn init_instance(mem: &[u8]) -> (r: Option<AcpiManager>)
        requires
            rsdp_search_ok(mem@, EBDA_START as int, (EBDA_START + EBDA_SIZE) as int),
            spec_find_rsdp(mem@, EBDA_START as int, (EBDA_START + EBDA_SIZE) as int) is None
                ==> rsdp_search_ok(
                mem@,
                BIOS_AREA_START as int,
                (BIOS_AREA_START + BIOS_AREA_SIZE) as int,
            ),
        ensures
            match r {
                Some(manager) => {
                    &&& spec_find_root_table(mem@) == Some(manager.m_rsdp)
                    &&& manager.m_rsdt_tables@.len() == 0
                    &&& manager.m_enabled
                },
                None => spec_find_root_table(mem@) is None,
            },
    {
        match Self::find_root_table(mem) {
            Some(rsdp) => {
                proof {
                    crate::arch::x86_64::acpi_manager::lemma_found_rsdp(mem@);
                }
                let mut acpi_manager = AcpiManager {
                    m_rsdp: rsdp,
                    m_rsdt_tables: Vec::new(),
                    m_enabled: true,
                };
                acpi_manager.parse_tables(mem);
                Some(acpi_manager)
            },
            None => None,
        }
    }

    /// Parses the root table that the RSDP points to: the RSDT for revision
    /// 0, the XSDT otherwise
    pub fn parse_tables(&mut self, mem: &[u8])
        requires
            in_image(mem@, old(self).m_rsdp as int, RSDP_SIZE as int),
        ensures
            final(self).m_rsdp == old(self).m_rsdp,
            final(self).m_rsdt_tables@ == old(self).m_rsdt_tables@,
            final(self).m_enabled == old(self).m_enabled,
    {
        let root = Self::root_table_addr(mem, self.m_rsdp);
        self.do_parse_tables(root);
    }

    /// Returns the physical address of the root table that the RSDP at
    /// `rsdp` points to
    pub fn root_table_addr(mem: &[u8], rsdp: u64) -> (r: PhysAddr)
        requires
            in_image(mem@, rsdp as int, RSDP_SIZE as int),
        ensures
            r@ == spec_root_table_addr(mem@, rsdp as int),
    {
        let n = mem.len();
        assert(n == mem@.len());
        if read_u8(mem, rsdp + 15) == 0 {
            PhysAddr::from(read_u32(mem, rsdp + 16) as u64)
        } else {
            PhysAddr::from(read_u64(mem, rsdp + 24))
        }
    }

    /// Parses the root table at `_rsdt_phys_addr`: nothing is read yet
    pub fn do_parse_tables(&mut self, _rsdt_phys_addr: PhysAddr)
        ensures
            final(self).m_rsdp == old(self).m_rsdp,
            final(self).m_rsdt_tables@ == old(self).m_rsdt_tables@,
            final(self).m_enabled == old(self).m_enabled,
    {
    }

    /// Finds the RSDP in the first KiB of the extended BIOS data area, then in
    /// the BIOS area
    pub fn find_root_table(mem: &[u8]) -> (r: Option<u64>)
        requires
            rsdp_search_ok(mem@, EBDA_START as int, (EBDA_START + EBDA_SIZE) as int),
            spec_find_rsdp(mem@, EBDA_START as int, (EBDA_START + EBDA_SIZE) as int) is None
                ==> rsdp_search_ok(
                mem@,
                BIOS_AREA_START as int,
                (BIOS_AREA_START + BIOS_AREA_SIZE) as int,
            ),
        ensures
            r == spec_find_root_table(mem@),
    {
        if let Some(rsdp_ptr) = Self::find_root_table_in(mem, EBDA_START, EBDA_START + EBDA_SIZE) {
            Some(rsdp_ptr)
        } else if let Some(rsdp_ptr) = Self::find_root_table_in(
            mem,
            BIOS_AREA_START,
            BIOS_AREA_START + BIOS_AREA_SIZE,
        ) {
            Some(rsdp_ptr)
        } else {
            None
        }
    }

    /// Finds the RSDP among the addresses from `start` below `end`, stepping
    /// 16 bytes
    pub fn find_root_table_in(mem: &[u8], start: u64, end: u64) -> (r: Option<u64>)
        requires
            rsdp_search_ok(mem@, start as int, end as int),
        ensures
            r == spec_find_rsdp(mem@, start as int, end as int),
    {
        crate::arch::x86_64::acpi_manager::AcpiManager::find_root_table_ptr_in(mem, start, end)
    }

    /// Validates the checksum of the `len` bytes at `start`
    pub fn is_valid_checksum(mem: &[u8], start: u64, len: u32) -> (r: bool)
        requires
            in_image(mem@, start as int, len as int),
        ensures
            r == valid_checksum(mem@, start as int, len as nat),
    {
        crate::arch::x86_64::acpi_bytes::is_valid_checksum(mem, start, len)
    }
}

} // verus!
