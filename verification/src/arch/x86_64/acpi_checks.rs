//! Run-time checks that an image of the physical memory holds the ACPI
//! structures where the ACPI walk reads them, and the ACPI walk guarded by
//! these checks
use vstd::prelude::*;
use crate::arch::x86_64::acpi_bytes::{in_image, matches_signature, read_u8, read_u32};
use crate::arch::x86_64::acpi_manager::{
    apic_entries_ok, apic_entry_size, apic_table_ok, collectable, entry_size, rsdp_search_ok,
    sig_apic, sig_facp, sig_rsdt, sig_xsdt, spec_collect_children, spec_collect_revision,
    spec_collect_table, spec_find_root_table, spec_find_rsdp, spec_root_table_addr,
    spec_tables_events, AcpiApicEvent, AcpiManager, CpuCoreId, APIC_TABLE_SIZE,
    BIOS_AREA_SIZE, BIOS_AREA_START, EBDA_SIZE, EBDA_START, FADT_SIZE, RSDP_SIZE,
    SDT_HEADER_SIZE,
};
use crate::arch::x86_64::addr::hw_phys_addr::PHYS_ADDR_MASK;

verus! {

/// Depth of nested tables that the checked ACPI walk explores: the bytes
/// of the image. Below the root table, each level is nested in a FACP table
/// of its own, which lies in the image, and the tables that a FACP table
/// leads to depend on its address alone; so a walk that nests deeper meets
/// one FACP table twice on its path and never ends
pub open spec fn acpi_walk_depth(mem: Seq<u8>) -> nat {
    mem.len()
}

/// Tells whether the `size` bytes at `addr` lie in the image (which itself
/// fits in the address space)
pub fn fits(mem: &[u8], addr: u64, size: u64) -> (r: bool)
    ensures
        r == in_image(mem@, addr as int, size as int),
        mem@.len() <= u64::MAX,
{
    let n = mem.len() as u64;
    addr <= n && size <= n - addr
}

/// Tells whether the RSDP search from `start` below `end` reads inside the
/// image
pub fn rsdp_search_is_safe(mem: &[u8], start: u64, end: u64) -> (r: bool)
    ensures
        r == rsdp_search_ok(mem@, start as int, end as int),
{
    let mut a = start;
    while a < end
        invariant
            rsdp_search_ok(mem@, start as int, end as int) == rsdp_search_ok(
                mem@,
                a as int,
                end as int,
            ),
        decreases (if a < end { end - a } else { 0 }),
    {
        if !fits(mem, a, RSDP_SIZE) {
            return false;
        }
        if matches_signature(
            mem,
            a,
            &[0x52u8, 0x53u8, 0x44u8, 0x20u8, 0x50u8, 0x54u8, 0x52u8, 0x20u8],
        ) {
            let len = read_u32(mem, a + 20);
            if !fits(mem, a, len as u64) {
                return false;
            }
            if crate::arch::x86_64::acpi_bytes::is_valid_checksum(mem, a, len) {
                return true;
            }
        }
        if a > u64::MAX - 16 {
            return true;
        }
        a = a + 16;
    }
    true
}

/// The RSDP search reads inside the image: in the first KiB of the extended
/// BIOS data area, then, when it finds nothing there, in the BIOS area
pub open spec fn rsdp_searches_ok(mem: Seq<u8>) -> bool {
    &&& rsdp_search_ok(mem, EBDA_START as int, (EBDA_START + EBDA_SIZE) as int)
    &&& spec_find_rsdp(mem, EBDA_START as int, (EBDA_START + EBDA_SIZE) as int) is None
        ==> rsdp_search_ok(mem, BIOS_AREA_START as int, (BIOS_AREA_START + BIOS_AREA_SIZE) as int)
}

/// Tells whether the collection of the root table at `addr` succeeds within
/// `fuel` nested tables
fn revision_collectable(mem: &[u8], addr: u64, revision: u8, fuel: u64) -> (r: bool)
    ensures
        r == (spec_collect_revision(mem@, addr as int, revision, fuel as nat) is Some),
    decreases fuel, 0int,
{
    if fuel == 0 || !fits(mem, addr, SDT_HEADER_SIZE) {
        return false;
    }
    let is_root = if revision == 0 {
        matches_signature(mem, addr, &[0x52u8, 0x53u8, 0x44u8, 0x54u8])
    } else {
        matches_signature(mem, addr, &[0x58u8, 0x53u8, 0x44u8, 0x54u8])
    };
    proof {
        assert(seq![0x52u8, 0x53u8, 0x44u8, 0x54u8] =~= sig_rsdt());
        assert(seq![0x58u8, 0x53u8, 0x44u8, 0x54u8] =~= sig_xsdt());
    }
    if !is_root {
        return true;
    }
    let len = read_u32(mem, addr + 4) as u64;
    if len < SDT_HEADER_SIZE {
        return false;
    }
    let esize: u64 = if revision == 0 { 4 } else { 8 };
    let count = (len - SDT_HEADER_SIZE) / esize;
    proof {
        assert(count * esize <= len) by (nonlinear_arith)
            requires
                count as int == (len as int - SDT_HEADER_SIZE as int) / (esize as int),
                esize > 0,
                len >= SDT_HEADER_SIZE,
        ;
    }
    let entries = addr + SDT_HEADER_SIZE;
    if !fits(mem, entries, count * esize) {
        return false;
    }
    children_collectable(mem, entries, revision, 0, count, fuel - 1)
}

/// Tells whether the collection of the child tables `i..count` of the root
/// table whose entries start at `entries` succeeds within `fuel`
fn children_collectable(
    mem: &[u8],
    entries: u64,
    revision: u8,
    i: u64,
    count: u64,
    fuel: u64,
) -> (r: bool)
    requires
        in_image(mem@, entries as int, count * entry_size(revision)),
        mem@.len() <= u64::MAX,
    ensures
        r == (spec_collect_children(mem@, entries as int, revision, i as nat, count as nat, fuel as nat) is Some),
    decreases fuel, count - i + 2,
{
    if i >= count {
        return true;
    }
    proof {
        let e = entry_size(revision);
        assert(i * e + e <= count * e) by (nonlinear_arith)
            requires
                i < count,
                e > 0,
        ;
        assert(i * e == if revision == 0 { 4 * i } else { 8 * i });
    }
    let child = if revision == 0 {
        (read_u32(mem, entries + 4 * i) as u64) & PHYS_ADDR_MASK
    } else {
        crate::arch::x86_64::acpi_bytes::read_u64(mem, entries + 8 * i) & PHYS_ADDR_MASK
    };
    if !table_collectable(mem, child, fuel) {
        return false;
    }
    children_collectable(mem, entries, revision, i + 1, count, fuel)
}

/// Tells whether the collection of the table at `sdt` succeeds within `fuel`
fn table_collectable(mem: &[u8], sdt: u64, fuel: u64) -> (r: bool)
    ensures
        r == (spec_collect_table(mem@, sdt as int, fuel as nat) is Some),
    decreases fuel, 1int,
{
    if !fits(mem, sdt, SDT_HEADER_SIZE) {
        return false;
    }
    let is_facp = matches_signature(mem, sdt, &[0x46u8, 0x41u8, 0x43u8, 0x50u8]);
    proof {
        assert(seq![0x46u8, 0x41u8, 0x43u8, 0x50u8] =~= sig_facp());
    }
    if is_facp {
        if !fits(mem, sdt, FADT_SIZE) {
            return false;
        }
        let dsdt = (read_u32(mem, sdt + 40) as u64) & PHYS_ADDR_MASK;
        let revision = read_u8(mem, sdt + 8);
        revision_collectable(mem, dsdt, revision, fuel)
    } else {
        let len = read_u32(mem, sdt + 4);
        fits(mem, sdt, len as u64)
    }
}

/// Tells whether the APIC entries at `ptr`, with `rem` bytes remaining, are
/// well formed and lie in the image
pub fn apic_entries_are_readable(mem: &[u8], ptr: u64, rem: u32) -> (r: bool)
    ensures
        r == apic_entries_ok(mem@, ptr as int, rem as int),
{
    let mut p = ptr;
    let mut left = rem;
    while left > 0
        invariant
            apic_entries_ok(mem@, ptr as int, rem as int) == apic_entries_ok(
                mem@,
                p as int,
                left as int,
            ),
        decreases left,
    {
        if !fits(mem, p, 2) {
            return false;
        }
        let entry_type = read_u8(mem, p);
        let entry_len = read_u8(mem, p + 1);
        if entry_type > 2 || entry_len == 0 || entry_len as u32 > left {
            return false;
        }
        let size: u64 = if entry_type == 0 {
            8
        } else if entry_type == 1 {
            12
        } else {
            10
        };
        assert(size == apic_entry_size(entry_type));
        if !fits(mem, p, size) || !fits(mem, p, entry_len as u64) {
            return false;
        }
        p = p + entry_len as u64;
        left = left - entry_len as u32;
    }
    true
}

/// Tells whether the table at `sdt` is readable and, when it is the APIC
/// table, its entries are well formed
pub fn apic_table_is_readable(mem: &[u8], sdt: u64) -> (r: bool)
    ensures
        r == apic_table_ok(mem@, sdt as int),
{
    if !fits(mem, sdt, SDT_HEADER_SIZE) {
        return false;
    }
    let is_apic = matches_signature(mem, sdt, &[0x41u8, 0x50u8, 0x49u8, 0x43u8]);
    proof {
        assert(seq![0x41u8, 0x50u8, 0x49u8, 0x43u8] =~= sig_apic());
    }
    if !is_apic {
        return true;
    }
    if !fits(mem, sdt, APIC_TABLE_SIZE) {
        return false;
    }
    let len = read_u32(mem, sdt + 4);
    if (len as u64) < APIC_TABLE_SIZE {
        return false;
    }
    apic_entries_are_readable(mem, sdt + APIC_TABLE_SIZE, len - APIC_TABLE_SIZE as u32)
}

impl AcpiManager {
    /// Finds the RSDP and collects the tables it leads to, checking first
    /// that every read lies in the image and that the tables nest at most
    /// at most `acpi_walk_depth` deep: `None` when no RSDP is found or a check fails
    pub fn try_init_instance(mem: &[u8]) -> (r: Option<AcpiManager>)
        ensures
            match r {
                Some(manager) => {
                    &&& rsdp_searches_ok(mem@)
                    &&& spec_find_root_table(mem@) == Some(manager.m_rsdp)
                    &&& spec_collect_revision(
                        mem@,
                        spec_root_table_addr(mem@, manager.m_rsdp as int) as int,
                        mem@[manager.m_rsdp + 15],
                        acpi_walk_depth(mem@),
                    ) is Some
                    &&& exists|fuel: nat|
                        #![trigger spec_collect_revision(mem@, spec_root_table_addr(mem@, manager.m_rsdp as int) as int, mem@[manager.m_rsdp + 15], fuel)]
                        {
                            let c = spec_collect_revision(
                                mem@,
                                spec_root_table_addr(mem@, manager.m_rsdp as int) as int,
                                mem@[manager.m_rsdp + 15],
                                fuel,
                            );
                            &&& c is Some
                            &&& manager.m_enabled == (c->0).0
                            &&& manager.m_sdt_tables@ == (c->0).1
                        }
                },
                None => {
                    ||| !rsdp_searches_ok(mem@)
                    ||| spec_find_root_table(mem@) is None
                    ||| spec_collect_revision(
                        mem@,
                        spec_root_table_addr(mem@, spec_find_root_table(mem@)->0 as int) as int,
                        mem@[spec_find_root_table(mem@)->0 + 15],
                        acpi_walk_depth(mem@),
                    ) is None
                },
            },
    {
        if !rsdp_search_is_safe(mem, EBDA_START, EBDA_START + EBDA_SIZE) {
            return None;
        }
        if AcpiManager::find_root_table_ptr_in(mem, EBDA_START, EBDA_START + EBDA_SIZE).is_none()
            && !rsdp_search_is_safe(mem, BIOS_AREA_START, BIOS_AREA_START + BIOS_AREA_SIZE) {
            return None;
        }
        proof {
            assert(mem@.len() == mem.len());
        }
        let rsdp = match AcpiManager::find_root_table_ptr(mem) {
            Some(rsdp) => rsdp,
            None => {
                return None;
            },
        };
        proof {
            crate::arch::x86_64::acpi_manager::lemma_found_rsdp(mem@);
        }
        let revision = read_u8(mem, rsdp + 15);
        let root = if revision == 0 {
            (read_u32(mem, rsdp + 16) as u64) & PHYS_ADDR_MASK
        } else {
            crate::arch::x86_64::acpi_bytes::read_u64(mem, rsdp + 24) & PHYS_ADDR_MASK
        };
        let depth = mem.len() as u64;
        if !revision_collectable(mem, root, revision, depth) {
            return None;
        }
        proof {
            assert(collectable(mem@, rsdp as int));
        }
        AcpiManager::init_instance(mem)
    }

    /// Returns what registering the secondary CPUs asks for, as
    /// `register_ap_cpus` does, when every collected table is readable and
    /// the entries of the APIC tables are well formed; `None` otherwise
    pub fn try_register_ap_cpus(&self, mem: &[u8], bsp_cpu_id: CpuCoreId) -> (r: Option<
        Vec<AcpiApicEvent>,
    >)
        ensures
            match r {
                Some(events) => events@ == spec_tables_events(mem@, self.m_sdt_tables@, bsp_cpu_id),
                None => exists|i: int|
                    0 <= i < self.m_sdt_tables@.len() && !apic_table_ok(
                        mem@,
                        #[trigger] self.m_sdt_tables@[i] as int,
                    ),
            },
    {
        let mut t: usize = 0;
        while t < self.m_sdt_tables.len()
            invariant
                t <= self.m_sdt_tables@.len(),
                forall|i: int|
                    0 <= i < t ==> apic_table_ok(mem@, #[trigger] self.m_sdt_tables@[i] as int),
            decreases self.m_sdt_tables@.len() - t,
        {
            if !apic_table_is_readable(mem, self.m_sdt_tables[t]) {
                return None;
            }
            t = t + 1;
        }
        Some(self.register_ap_cpus(mem, bsp_cpu_id))
    }
}

} // verus!
