//! x86_64 ACPI support: finds the root system description pointer, collects
//! the system description tables and reads the APIC table entries, all out of
//! an image of the physical memory whose byte `i` is the byte at physical
//! address `i`
use vstd::prelude::*;
use crate::arch::x86_64::acpi_bytes::{
    in_image, le_u16, le_u32, le_u64, has_signature, valid_checksum, read_u8, read_u16,
    read_u32, read_u64, matches_signature, is_valid_checksum,
};
use crate::arch::x86_64::addr::hw_phys_addr::PHYS_ADDR_MASK;

verus! {

/// Identifier of a CPU core
pub type CpuCoreId = u32;

/// Size in bytes of the root system description pointer
pub const RSDP_SIZE: u64 = 33;

/// Size in bytes of the system description table header
pub const SDT_HEADER_SIZE: u64 = 36;

/// Size in bytes of the fixed ACPI description table prefix that is read
pub const FADT_SIZE: u64 = 44;

/// Size in bytes of the APIC table header, where its entries start
pub const APIC_TABLE_SIZE: u64 = 44;

/// Physical address and size of the first KiB of the extended BIOS data area
pub const EBDA_START: u64 = 0x40e;
pub const EBDA_SIZE: u64 = 1024;

/// Physical address and size of the BIOS area
pub const BIOS_AREA_START: u64 = 0xe0000;
pub const BIOS_AREA_SIZE: u64 = 0x10_0000;

/// "RSD PTR "
pub open spec fn sig_rsdp() -> Seq<u8> {
    seq![0x52u8, 0x53u8, 0x44u8, 0x20u8, 0x50u8, 0x54u8, 0x52u8, 0x20u8]
}

/// "RSDT"
pub open spec fn sig_rsdt() -> Seq<u8> {
    seq![0x52u8, 0x53u8, 0x44u8, 0x54u8]
}

/// "XSDT"
pub open spec fn sig_xsdt() -> Seq<u8> {
    seq![0x58u8, 0x53u8, 0x44u8, 0x54u8]
}

/// "FACP"
pub open spec fn sig_facp() -> Seq<u8> {
    seq![0x46u8, 0x41u8, 0x43u8, 0x50u8]
}

/// "APIC"
pub open spec fn sig_apic() -> Seq<u8> {
    seq![0x41u8, 0x50u8, 0x49u8, 0x43u8]
}

/// A valid root system description pointer is at `a`: its signature and the
/// checksum of the length that it declares
pub open spec fn is_rsdp(mem: Seq<u8>, a: int) -> bool {
    has_signature(mem, a, sig_rsdp()) && valid_checksum(mem, a, le_u32(mem, a + 20) as nat)
}

/// Every candidate from `a` (stepping 16 bytes) up to the first valid one
/// lies in the image, with the bytes of its checksum when its signature
/// matches
pub open spec fn rsdp_search_ok(mem: Seq<u8>, a: int, end: int) -> bool
    decreases (if a < end { end - a } else { 0 }),
{
    if a >= end {
        true
    } else {
        &&& in_image(mem, a, RSDP_SIZE as int)
        &&& has_signature(mem, a, sig_rsdp()) ==> in_image(mem, a, le_u32(mem, a + 20) as int)
        &&& is_rsdp(mem, a) || a + 16 > u64::MAX || rsdp_search_ok(mem, a + 16, end)
    }
}

/// The first valid root system description pointer among the candidates from
/// `a` (stepping 16 bytes) below `end`
pub open spec fn spec_find_rsdp(mem: Seq<u8>, a: int, end: int) -> Option<u64>
    decreases (if a < end { end - a } else { 0 }),
{
    if a >= end {
        None
    } else if is_rsdp(mem, a) {
        Some(a as u64)
    } else if a + 16 > u64::MAX {
        None
    } else {
        spec_find_rsdp(mem, a + 16, end)
    }
}

/// The physical address of the root table that the RSDP at `rsdp` points
/// to: the RSDT for revision 0, the XSDT otherwise
pub open spec fn spec_root_table_addr(mem: Seq<u8>, rsdp: int) -> u64 {
    if mem[rsdp + 15] == 0 {
        (le_u32(mem, rsdp + 16) as u64) & PHYS_ADDR_MASK
    } else {
        le_u64(mem, rsdp + 24) & PHYS_ADDR_MASK
    }
}

/// Address of the child table `i` of the root table whose entries start at
/// `entries`: 32 bit entries for revision 0, 64 bit otherwise
pub open spec fn spec_child_addr(mem: Seq<u8>, entries: int, revision: u8, i: int) -> u64 {
    if revision == 0 {
        (le_u32(mem, entries + 4 * i) as u64) & PHYS_ADDR_MASK
    } else {
        le_u64(mem, entries + 8 * i) & PHYS_ADDR_MASK
    }
}

/// Size in bytes of the root table entries of the given revision
pub open spec fn entry_size(revision: u8) -> int {
    if revision == 0 {
        4
    } else {
        8
    }
}

/// What collecting the root table at `addr` gives, within `fuel` nested
/// tables: whether the root table had the expected signature, and the
/// addresses of the tables collected; `None` when the collection needs more
/// fuel, reads outside the image, or meets a table shorter than its header
pub open spec fn spec_collect_revision(
    mem: Seq<u8>,
    addr: int,
    revision: u8,
    fuel: nat,
) -> Option<(bool, Seq<u64>)>
    decreases fuel, 0int,
{
    if fuel == 0 || !in_image(mem, addr, SDT_HEADER_SIZE as int) {
        None
    } else {
        let sig = if revision == 0 { sig_rsdt() } else { sig_xsdt() };
        if !has_signature(mem, addr, sig) {
            Some((false, Seq::empty()))
        } else {
            let len = le_u32(mem, addr + 4) as int;
            if len < SDT_HEADER_SIZE {
                None
            } else {
                let count = (len - SDT_HEADER_SIZE) / entry_size(revision);
                if !in_image(mem, addr + SDT_HEADER_SIZE, count * entry_size(revision)) {
                    None
                } else {
                    match spec_collect_children(
                        mem,
                        addr + SDT_HEADER_SIZE,
                        revision,
                        0,
                        count as nat,
                        (fuel - 1) as nat,
                    ) {
                        Some(tables) => Some((true, tables)),
                        None => None,
                    }
                }
            }
        }
    }
}

/// What collecting the child tables `i..count` gives
pub open spec fn spec_collect_children(
    mem: Seq<u8>,
    entries: int,
    revision: u8,
    i: nat,
    count: nat,
    fuel: nat,
) -> Option<Seq<u64>>
    decreases fuel, count - i + 2,
{
    if i >= count {
        Some(Seq::empty())
    } else {
        match spec_collect_table(mem, spec_child_addr(mem, entries, revision, i as int) as int, fuel) {
            None => None,
            Some(first) => match spec_collect_children(mem, entries, revision, i + 1, count, fuel) {
                None => None,
                Some(rest) => Some(first + rest),
            },
        }
    }
}

/// What collecting the table at `sdt` gives: the tables that the DSDT of a
/// FACP table collects, else the table itself when its checksum is valid
pub open spec fn spec_collect_table(mem: Seq<u8>, sdt: int, fuel: nat) -> Option<Seq<u64>>
    decreases fuel, 1int,
{
    if !in_image(mem, sdt, SDT_HEADER_SIZE as int) {
        None
    } else if has_signature(mem, sdt, sig_facp()) {
        if !in_image(mem, sdt, FADT_SIZE as int) {
            None
        } else {
            let dsdt = (le_u32(mem, sdt + 40) as u64) & PHYS_ADDR_MASK;
            match spec_collect_revision(mem, dsdt as int, mem[sdt + 8], fuel) {
                Some((_, tables)) => Some(tables),
                None => None,
            }
        }
    } else {
        let len = le_u32(mem, sdt + 4);
        if !in_image(mem, sdt, len as int) {
            None
        } else if valid_checksum(mem, sdt, len as nat) {
            Some(seq![sdt as u64])
        } else {
            Some(Seq::empty())
        }
    }
}

/// The tables reachable from the RSDP at `rsdp` can be collected
pub open spec fn collectable(mem: Seq<u8>, rsdp: int) -> bool {
    exists|fuel: nat|
        #[trigger] spec_collect_revision(mem, spec_root_table_addr(mem, rsdp) as int, mem[rsdp + 15], fuel) is Some
}

/// What the kernel does for one APIC table entry
#[derive(Clone, Copy, PartialEq, Eq, Structural, Debug)]
pub enum AcpiApicEvent {
    /// Register the enabled application processor core with this id
    RegisterCpu(CpuCoreId),
    /// Skip the hardware disabled core with this id
    SkipDisabledCpu(u8),
    /// Register the I/O APIC with this id, register base and first GSI
    AddIoApic { id: u8, address: u64, base_gsi: u32 },
    /// Configure the ISA interrupt `irq` to be delivered on `gsi`
    ConfigureIrq {
        irq: u8,
        gsi: u32,
        delivery_mode_fixed: bool,
        polarity_high_active: bool,
        trigger_edge: bool,
    },
}

/// Size in bytes of the APIC entry structure of the given type
pub open spec fn apic_entry_size(entry_type: u8) -> int {
    if entry_type == 0 {
        8
    } else if entry_type == 1 {
        12
    } else {
        10
    }
}

/// The APIC entries from `ptr`, with `rem` bytes remaining, are well formed:
/// each has a known type, a positive length not above the remaining bytes,
/// and lies in the image
pub open spec fn apic_entries_ok(mem: Seq<u8>, ptr: int, rem: int) -> bool
    decreases (if rem > 0 { rem } else { 0 }),
{
    if rem <= 0 {
        true
    } else {
        &&& in_image(mem, ptr, 2)
        &&& mem[ptr] <= 2
        &&& 0 < mem[ptr + 1] <= rem
        &&& in_image(mem, ptr, apic_entry_size(mem[ptr]))
        &&& in_image(mem, ptr, mem[ptr + 1] as int)
        &&& apic_entries_ok(mem, ptr + mem[ptr + 1], rem - mem[ptr + 1])
    }
}

/// The event of the APIC entry at `ptr`, if any
pub open spec fn spec_apic_event(mem: Seq<u8>, ptr: int, bsp_cpu_id: CpuCoreId) -> Option<
    AcpiApicEvent,
> {
    let entry_type = mem[ptr];
    if entry_type == 0 {
        let id = mem[ptr + 3];
        if le_u32(mem, ptr + 4) & 1 != 0 {
            if id as CpuCoreId == bsp_cpu_id {
                None
            } else {
                Some(AcpiApicEvent::RegisterCpu(id as CpuCoreId))
            }
        } else {
            Some(AcpiApicEvent::SkipDisabledCpu(id))
        }
    } else if entry_type == 1 {
        Some(
            AcpiApicEvent::AddIoApic {
                id: mem[ptr + 2],
                address: le_u32(mem, ptr + 4) as u64,
                base_gsi: le_u32(mem, ptr + 8),
            },
        )
    } else {
        let polarity_flags = le_u16(mem, ptr + 8) & 3;
        Some(
            AcpiApicEvent::ConfigureIrq {
                irq: mem[ptr + 3],
                gsi: le_u32(mem, ptr + 4),
                delivery_mode_fixed: true,
                polarity_high_active: polarity_flags == 1 || polarity_flags == 0,
                trigger_edge: true,
            },
        )
    }
}

/// The events of the APIC entries from `ptr` with `rem` bytes remaining
pub open spec fn spec_apic_events(mem: Seq<u8>, ptr: int, rem: int, bsp_cpu_id: CpuCoreId) -> Seq<
    AcpiApicEvent,
>
    decreases (if rem > 0 { rem } else { 0 }),
{
    if rem <= 0 || !(0 < mem[ptr + 1] <= rem) {
        Seq::empty()
    } else {
        let rest = spec_apic_events(mem, ptr + mem[ptr + 1], rem - mem[ptr + 1], bsp_cpu_id);
        match spec_apic_event(mem, ptr, bsp_cpu_id) {
            Some(e) => seq![e] + rest,
            None => rest,
        }
    }
}

/// The table at `sdt` is readable and, when it is the APIC table, its
/// entries are well formed
pub open spec fn apic_table_ok(mem: Seq<u8>, sdt: int) -> bool {
    &&& in_image(mem, sdt, SDT_HEADER_SIZE as int)
    &&& has_signature(mem, sdt, sig_apic()) ==> {
        &&& in_image(mem, sdt, APIC_TABLE_SIZE as int)
        &&& le_u32(mem, sdt + 4) >= APIC_TABLE_SIZE
        &&& apic_entries_ok(
            mem,
            sdt + APIC_TABLE_SIZE,
            le_u32(mem, sdt + 4) - APIC_TABLE_SIZE,
        )
    }
}

/// The events of the APIC tables among `tables`, in order
pub open spec fn spec_tables_events(mem: Seq<u8>, tables: Seq<u64>, bsp_cpu_id: CpuCoreId) -> Seq<
    AcpiApicEvent,
>
    decreases tables.len(),
{
    if tables.len() == 0 {
        Seq::empty()
    } else {
        let sdt = tables[0] as int;
        let first = if has_signature(mem, sdt, sig_apic()) {
            spec_apic_events(
                mem,
                sdt + APIC_TABLE_SIZE,
                le_u32(mem, sdt + 4) - APIC_TABLE_SIZE,
                bsp_cpu_id,
            )
        } else {
            Seq::empty()
        };
        first + spec_tables_events(mem, tables.drop_first(), bsp_cpu_id)
    }
}

/// ACPI manager: the RSDP address, the collected system description tables
/// and whether their collection succeeded
pub struct AcpiManager {
    pub m_rsdp: u64,
    pub m_sdt_tables: Vec<u64>,
    pub m_enabled: bool,
}

impl AcpiManager {
    /// Finds the RSDP and collects the tables it leads to; `None` when no
    /// RSDP is found
    pub fn init_instance(mem: &[u8]) -> (r: Option<AcpiManager>)
        requires
            rsdp_search_ok(mem@, EBDA_START as int, (EBDA_START + EBDA_SIZE) as int),
            spec_find_rsdp(mem@, EBDA_START as int, (EBDA_START + EBDA_SIZE) as int) is None
                ==> rsdp_search_ok(
                mem@,
                BIOS_AREA_START as int,
                (BIOS_AREA_START + BIOS_AREA_SIZE) as int,
            ),
            forall|a: u64| spec_find_root_table(mem@) == Some(a) ==> collectable(mem@, a as int),
        ensures
            match r {
                Some(manager) => {
                    &&& spec_find_root_table(mem@) == Some(manager.m_rsdp)
                    &&& exists|fuel: nat|
                        #![trigger spec_collect_revision(mem@, spec_root_table_addr(mem@, manager.m_rsdp as int) as int, mem@[manager.m_rsdp + 15], fuel)]
                        {
                            let c = spec_collect_revision(
                                mem@,
                                spec_root_table_addr(mem@, manager.m_rsdp as int) as int,
                                mem@[manager.m_rsdp + 15],
                                fuel,
                            );
                            &&& c is Some
                            &&& manager.m_enabled == (c->0).0
                            &&& manager.m_sdt_tables@ == (c->0).1
                        }
                },
                None => spec_find_root_table(mem@) is None,
            },
    {
        match Self::find_root_table_ptr(mem) {
            Some(rsdp) => {
                proof {
                    lemma_found_rsdp(mem@);
                }
                let mut acpi_manager = AcpiManager {
                    m_rsdp: rsdp,
                    m_sdt_tables: Vec::new(),
                    m_enabled: false,
                };
                let collected = acpi_manager.collect_tables(mem);
                acpi_manager.m_enabled = collected;
                proof {
                    let root = spec_root_table_addr(mem@, rsdp as int) as int;
                    let rev = mem@[rsdp + 15];
                    let f = choose|fuel: nat|
                        {
                            let c = #[trigger] spec_collect_revision(mem@, root, rev, fuel);
                            &&& c is Some
                            &&& collected == (c->0).0
                            &&& acpi_manager.m_sdt_tables@ == Seq::<u64>::empty() + (c->0).1
                        };
                    let c = spec_collect_revision(mem@, root, rev, f);
                    assert(Seq::<u64>::empty() + (c->0).1 == (c->0).1);
                    assert(acpi_manager.m_sdt_tables@ == (c->0).1);
                }
                Some(acpi_manager)
            },
            None => None,
        }
    }

    /// Collects all the available tables into `m_sdt_tables`, returning
    /// whether the root table had the signature its revision requires
    pub fn collect_tables(&mut self, mem: &[u8]) -> (r: bool)
        requires
            in_image(mem@, old(self).m_rsdp as int, RSDP_SIZE as int),
            collectable(mem@, old(self).m_rsdp as int),
        ensures
            final(self).m_rsdp == old(self).m_rsdp,
            final(self).m_enabled == old(self).m_enabled,
            exists|fuel: nat|
                #![trigger spec_collect_revision(mem@, spec_root_table_addr(mem@, old(self).m_rsdp as int) as int, mem@[old(self).m_rsdp + 15], fuel)]
                {
                    let c = spec_collect_revision(
                        mem@,
                        spec_root_table_addr(mem@, old(self).m_rsdp as int) as int,
                        mem@[old(self).m_rsdp + 15],
                        fuel,
                    );
                    &&& c is Some
                    &&& r == (c->0).0
                    &&& final(self).m_sdt_tables@ == old(self).m_sdt_tables@ + (c->0).1
                },
    {
        let n = mem.len();
        assert(n == mem@.len());
        let rsdp = self.m_rsdp;
        let revision = read_u8(mem, rsdp + 15);
        let root = if revision == 0 {
            (read_u32(mem, rsdp + 16) as u64) & PHYS_ADDR_MASK
        } else {
            read_u64(mem, rsdp + 24) & PHYS_ADDR_MASK
        };
        let ghost fuel = choose|fuel: nat|
            #[trigger] spec_collect_revision(mem@, root as int, revision, fuel) is Some;
        self.collect_tables_revision(mem, root, revision, Ghost(fuel))
    }

    /// Collects the tables of the root table at `rsdt_phys_addr`, which must
    /// be a RSDT for revision 0 and a XSDT otherwise
    fn collect_tables_revision(
        &mut self,
        mem: &[u8],
        rsdt_phys_addr: u64,
        revision: u8,
        Ghost(fuel): Ghost<nat>,
    ) -> (r: bool)
        requires
            spec_collect_revision(mem@, rsdt_phys_addr as int, revision, fuel) is Some,
        ensures
            ({
                let c = spec_collect_revision(mem@, rsdt_phys_addr as int, revision, fuel)->0;
                &&& r == c.0
                &&& final(self).m_sdt_tables@ == old(self).m_sdt_tables@ + c.1
            }),
            final(self).m_rsdp == old(self).m_rsdp,
            final(self).m_enabled == old(self).m_enabled,
        decreases fuel, 0int,
    {
        let n = mem.len();
        let is_root = if revision == 0 {
            matches_signature(mem, rsdt_phys_addr, &[0x52u8, 0x53u8, 0x44u8, 0x54u8])
        } else {
            matches_signature(mem, rsdt_phys_addr, &[0x58u8, 0x53u8, 0x44u8, 0x54u8])
        };
        if !is_root {
            assert(self.m_sdt_tables@ == old(self).m_sdt_tables@ + Seq::<u64>::empty());
            return false;
        }
        let len = read_u32(mem, rsdt_phys_addr + 4) as u64;
        let esize: u64 = if revision == 0 { 4 } else { 8 };
        let count = (len - SDT_HEADER_SIZE) / esize;
        let entries = rsdt_phys_addr + SDT_HEADER_SIZE;
        let ghost children_fuel = (fuel - 1) as nat;
        let ghost all = spec_collect_children(mem@, entries as int, revision, 0, count as nat, children_fuel);
        let mut i: u64 = 0;
        while i < count
            invariant
                n == mem@.len(),
                in_image(mem@, entries as int, count * entry_size(revision)),
                esize == entry_size(revision),
                i <= count,
                children_fuel < fuel,
                all is Some,
                spec_collect_children(mem@, entries as int, revision, i as nat, count as nat, children_fuel) is Some,
                old(self).m_sdt_tables@ + all->0 == self.m_sdt_tables@ + spec_collect_children(
                    mem@,
                    entries as int,
                    revision,
                    i as nat,
                    count as nat,
                    children_fuel,
                )->0,
                self.m_rsdp == old(self).m_rsdp,
                self.m_enabled == old(self).m_enabled,
            decreases count - i,
        {
            let ghost before = self.m_sdt_tables@;
            proof {
                assert(i * esize + esize <= count * esize) by (nonlinear_arith)
                    requires
                        i < count,
                        esize > 0,
                ;
            }
            let child = if revision == 0 {
                (read_u32(mem, entries + 4 * i) as u64) & PHYS_ADDR_MASK
            } else {
                read_u64(mem, entries + 8 * i) & PHYS_ADDR_MASK
            };
            self.collect_table(mem, child, Ghost(children_fuel));
            proof {
                let first = spec_collect_table(mem@, child as int, children_fuel)->0;
                let rest = spec_collect_children(
                    mem@,
                    entries as int,
                    revision,
                    (i + 1) as nat,
                    count as nat,
                    children_fuel,
                )->0;
                assert(before + (first + rest) == (before + first) + rest);
            }
            i = i + 1;
        }
        true
    }

    /// Stores into `m_sdt_tables` the table at `sdt_phys_addr`, or, for a
    /// FACP table, the tables that its DSDT collects
    fn collect_table(&mut self, mem: &[u8], sdt_phys_addr: u64, Ghost(fuel): Ghost<nat>)
        requires
            spec_collect_table(mem@, sdt_phys_addr as int, fuel) is Some,
        ensures
            final(self).m_sdt_tables@ == old(self).m_sdt_tables@ + spec_collect_table(
                mem@,
                sdt_phys_addr as int,
                fuel,
            )->0,
            final(self).m_rsdp == old(self).m_rsdp,
            final(self).m_enabled == old(self).m_enabled,
        decreases fuel, 1int,
    {
        let n = mem.len();
        assert(n == mem@.len());
        if matches_signature(mem, sdt_phys_addr, &[0x46u8, 0x41u8, 0x43u8, 0x50u8]) {
            let dsdt = (read_u32(mem, sdt_phys_addr + 40) as u64) & PHYS_ADDR_MASK;
            let revision = read_u8(mem, sdt_phys_addr + 8);
            self.collect_tables_revision(mem, dsdt, revision, Ghost(fuel));
        } else {
            let len = read_u32(mem, sdt_phys_addr + 4);
            if is_valid_checksum(mem, sdt_phys_addr, len) {
                self.m_sdt_tables.push(sdt_phys_addr);
            } else {
                assert(self.m_sdt_tables@ == old(self).m_sdt_tables@ + Seq::<u64>::empty());
            }
        }
    }

    /// Returns what registering the secondary CPUs asks for: for each entry
    /// of each APIC table, in order, the core to register (the bootstrap one
    /// excluded), the disabled core skipped, the I/O APIC to add or the
    /// interrupt to configure
    pub fn register_ap_cpus(&self, mem: &[u8], bsp_cpu_id: CpuCoreId) -> (r: Vec<AcpiApicEvent>)
        requires
            forall|i: int|
                0 <= i < self.m_sdt_tables@.len() ==> apic_table_ok(
                    mem@,
                    #[trigger] self.m_sdt_tables@[i] as int,
                ),
        ensures
            r@ == spec_tables_events(mem@, self.m_sdt_tables@, bsp_cpu_id),
    {
        let n = mem.len();
        let mut events: Vec<AcpiApicEvent> = Vec::new();
        let mut t: usize = 0;
        assert(self.m_sdt_tables@.skip(0) =~= self.m_sdt_tables@);
        assert(events@ + spec_tables_events(mem@, self.m_sdt_tables@, bsp_cpu_id) =~= spec_tables_events(mem@, self.m_sdt_tables@, bsp_cpu_id));
        while t < self.m_sdt_tables.len()
            invariant
                n == mem@.len(),
                t <= self.m_sdt_tables@.len(),
                forall|i: int|
                    0 <= i < self.m_sdt_tables@.len() ==> apic_table_ok(
                        mem@,
                        #[trigger] self.m_sdt_tables@[i] as int,
                    ),
                spec_tables_events(mem@, self.m_sdt_tables@, bsp_cpu_id) == events@
                    + spec_tables_events(mem@, self.m_sdt_tables@.skip(t as int), bsp_cpu_id),
            decreases self.m_sdt_tables@.len() - t,
        {
            let sdt = self.m_sdt_tables[t];
            let ghost tail = self.m_sdt_tables@.skip(t as int);
            assert(tail[0] == sdt);
            assert(tail.drop_first() == self.m_sdt_tables@.skip(t + 1));
            let ghost before = events@;
            assert(apic_table_ok(mem@, self.m_sdt_tables@[t as int] as int));
            if matches_signature(mem, sdt, &[0x41u8, 0x50u8, 0x49u8, 0x43u8]) {
                let len = read_u32(mem, sdt + 4);
                Self::apic_entries_events(mem, sdt + APIC_TABLE_SIZE, len - APIC_TABLE_SIZE as u32, bsp_cpu_id, &mut events);
            }
            proof {
                let first = if has_signature(mem@, sdt as int, sig_apic()) {
                    spec_apic_events(
                        mem@,
                        sdt + APIC_TABLE_SIZE,
                        le_u32(mem@, sdt + 4) - APIC_TABLE_SIZE,
                        bsp_cpu_id,
                    )
                } else {
                    Seq::empty()
                };
                assert(events@ == before + first);
                let rest = spec_tables_events(mem@, self.m_sdt_tables@.skip(t + 1), bsp_cpu_id);
                assert(before + (first + rest) == (before + first) + rest);
            }
            t = t + 1;
        }
        assert(self.m_sdt_tables@.skip(t as int).len() == 0);
        events
    }

    /// Appends to `events` the events of the APIC entries at `entry_ptr`,
    /// with `rem_len` bytes remaining
    fn apic_entries_events(
        mem: &[u8],
        entry_ptr: u64,
        rem_len: u32,
        bsp_cpu_id: CpuCoreId,
        events: &mut Vec<AcpiApicEvent>,
    )
        requires
            apic_entries_ok(mem@, entry_ptr as int, rem_len as int),
        ensures
            final(events)@ == old(events)@ + spec_apic_events(
                mem@,
                entry_ptr as int,
                rem_len as int,
                bsp_cpu_id,
            ),
    {
        let n = mem.len();
        let mut ptr = entry_ptr;
        let mut rem = rem_len;
        while rem > 0
            invariant
                n == mem@.len(),
                apic_entries_ok(mem@, ptr as int, rem as int),
                old(events)@ + spec_apic_events(mem@, entry_ptr as int, rem_len as int, bsp_cpu_id)
                    == events@ + spec_apic_events(mem@, ptr as int, rem as int, bsp_cpu_id),
            decreases rem,
        {
            let ghost before = events@;
            let entry_type = read_u8(mem, ptr);
            let entry_len = read_u8(mem, ptr + 1);
            let event = if entry_type == 0 {
                let id = read_u8(mem, ptr + 3);
                let flags = read_u32(mem, ptr + 4);
                if flags & 1 != 0 {
                    if id as CpuCoreId == bsp_cpu_id {
                        None
                    } else {
                        Some(AcpiApicEvent::RegisterCpu(id as CpuCoreId))
                    }
                } else {
                    Some(AcpiApicEvent::SkipDisabledCpu(id))
                }
            } else if entry_type == 1 {
                Some(
                    AcpiApicEvent::AddIoApic {
                        id: read_u8(mem, ptr + 2),
                        address: read_u32(mem, ptr + 4) as u64,
                        base_gsi: read_u32(mem, ptr + 8),
                    },
                )
            } else {
                let polarity_flags = read_u16(mem, ptr + 8) & 3;
                Some(
                    AcpiApicEvent::ConfigureIrq {
                        irq: read_u8(mem, ptr + 3),
                        gsi: read_u32(mem, ptr + 4),
                        delivery_mode_fixed: true,
                        polarity_high_active: polarity_flags == 1 || polarity_flags == 0,
                        trigger_edge: true,
                    },
                )
            };
            assert(event == spec_apic_event(mem@, ptr as int, bsp_cpu_id));
            match event {
                Some(e) => {
                    events.push(e);
                },
                None => {},
            }
            proof {
                let rest = spec_apic_events(
                    mem@,
                    ptr + entry_len,
                    rem - entry_len,
                    bsp_cpu_id,
                );
                match event {
                    Some(e) => {
                        assert(before + (seq![e] + rest) == (before + seq![e]) + rest);
                    },
                    None => {},
                }
            }
            ptr = ptr + entry_len as u64;
            rem = rem - entry_len as u32;
        }
    }

    /// Finds the RSDP in the first KiB of the extended BIOS data area, then in
    /// the BIOS area
    pub fn find_root_table_ptr(mem: &[u8]) -> (r: Option<u64>)
        requires
            rsdp_search_ok(mem@, EBDA_START as int, (EBDA_START + EBDA_SIZE) as int),
            spec_find_rsdp(mem@, EBDA_START as int, (EBDA_START + EBDA_SIZE) as int) is None
                ==> rsdp_search_ok(
                mem@,
                BIOS_AREA_START as int,
                (BIOS_AREA_START + BIOS_AREA_SIZE) as int,
            ),
        ensures
            r == spec_find_root_table(mem@),
    {
        if let Some(rsdp_ptr) = Self::find_root_table_ptr_in(mem, EBDA_START, EBDA_START + EBDA_SIZE) {
            Some(rsdp_ptr)
        } else if let Some(rsdp_ptr) = Self::find_root_table_ptr_in(
            mem,
            BIOS_AREA_START,
            BIOS_AREA_START + BIOS_AREA_SIZE,
        ) {
            Some(rsdp_ptr)
        } else {
            None
        }
    }

    /// Finds the RSDP among the addresses from `start` below `end`, stepping
    /// 16 bytes
    pub fn find_root_table_ptr_in(mem: &[u8], start: u64, end: u64) -> (r: Option<u64>)
        requires
            rsdp_search_ok(mem@, start as int, end as int),
        ensures
            r == spec_find_rsdp(mem@, start as int, end as int),
    {
        let n = mem.len();
        if start >= end {
            return None;
        }
        let mut virt_addr = start;
        while virt_addr < end
            invariant
                n == mem@.len(),
                virt_addr < end + 16,
                rsdp_search_ok(mem@, virt_addr as int, end as int),
                spec_find_rsdp(mem@, start as int, end as int) == spec_find_rsdp(
                    mem@,
                    virt_addr as int,
                    end as int,
                ),
            decreases end + 16 - virt_addr,
        {
            /* validate signature and checksum validity */
            if matches_signature(
                mem,
                virt_addr,
                &[0x52u8, 0x53u8, 0x44u8, 0x20u8, 0x50u8, 0x54u8, 0x52u8, 0x20u8],
            ) {
                let len = read_u32(mem, virt_addr + 20);
                if is_valid_checksum(mem, virt_addr, len) {
                    return Some(virt_addr);
                }
            }
            match virt_addr.checked_add(16) {
                Some(next) => {
                    virt_addr = next;
                },
                None => {
                    return None;
                },
            }
        }
        None
    }
}

proof fn lemma_found_rsdp_in(mem: Seq<u8>, a: int, end: int)
    requires
        end <= u64::MAX,
        rsdp_search_ok(mem, a, end),
        spec_find_rsdp(mem, a, end) is Some,
    ensures
        ({
            let x = spec_find_rsdp(mem, a, end)->0 as int;
            &&& in_image(mem, x, RSDP_SIZE as int)
            &&& is_rsdp(mem, x)
        }),
    decreases (if a < end { end - a } else { 0 }),
{
    if a < end && !is_rsdp(mem, a) && a + 16 <= u64::MAX {
        lemma_found_rsdp_in(mem, a + 16, end);
    }
}

/// A root table pointer that the search finds lies in the image and is valid
pub proof fn lemma_found_rsdp(mem: Seq<u8>)
    requires
        rsdp_search_ok(mem, EBDA_START as int, (EBDA_START + EBDA_SIZE) as int),
        spec_find_rsdp(mem, EBDA_START as int, (EBDA_START + EBDA_SIZE) as int) is None
            ==> rsdp_search_ok(
            mem,
            BIOS_AREA_START as int,
            (BIOS_AREA_START + BIOS_AREA_SIZE) as int,
        ),
        spec_find_root_table(mem) is Some,
    ensures
        in_image(mem, spec_find_root_table(mem)->0 as int, RSDP_SIZE as int),
        is_rsdp(mem, spec_find_root_table(mem)->0 as int),
{
    if spec_find_rsdp(mem, EBDA_START as int, (EBDA_START + EBDA_SIZE) as int) is Some {
        lemma_found_rsdp_in(mem, EBDA_START as int, (EBDA_START + EBDA_SIZE) as int);
    } else {
        lemma_found_rsdp_in(mem, BIOS_AREA_START as int, (BIOS_AREA_START + BIOS_AREA_SIZE) as int);
    }
}

/// The RSDP found in the extended BIOS data area, else in the BIOS area
pub open spec fn spec_find_root_table(mem: Seq<u8>) -> Option<u64> {
    match spec_find_rsdp(mem, EBDA_START as int, (EBDA_START + EBDA_SIZE) as int) {
        Some(a) => Some(a),
        None => spec_find_rsdp(
            mem,
            BIOS_AREA_START as int,
            (BIOS_AREA_START + BIOS_AREA_SIZE) as int,
        ),
    }
}

} // verus!
