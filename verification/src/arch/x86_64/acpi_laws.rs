//! Laws of the ACPI walk stated against the layouts of the ACPI structures:
//! the RSDP fields that lead to the root table, and the MADT entries that the
//! APIC events are read from
use vstd::prelude::*;
use crate::arch::x86_64::acpi_bytes::{le_u16, le_u32, le_u64};
use crate::arch::x86_64::acpi_manager::{
    apic_entries_ok, spec_apic_event, spec_apic_events, spec_root_table_addr, AcpiApicEvent,
    CpuCoreId,
};
use crate::arch::x86_64::addr::hw_phys_addr::PHYS_ADDR_MASK;

verus! {

/// The MADT entry at `q` is where the event `e` comes from, by the layout of
/// the MADT entries:
/// - processor local APIC (type 0): APIC id at offset 3, flags from offset 4,
///   bit 0 telling whether the processor is enabled;
/// - I/O APIC (type 1): I/O APIC id at offset 2, register address from
///   offset 4, first GSI from offset 8;
/// - interrupt source override (type 2): bus at offset 2, source IRQ at
///   offset 3, GSI from offset 4, flags from offset 8, whose two low bits
///   give the polarity (0 conforms to the bus, 1 is active high)
pub open spec fn madt_entry_yields(
    mem: Seq<u8>,
    q: int,
    e: AcpiApicEvent,
    bsp_cpu_id: CpuCoreId,
) -> bool {
    match e {
        AcpiApicEvent::RegisterCpu(id) => {
            &&& mem[q] == 0
            &&& id == mem[q + 3] as CpuCoreId
            &&& le_u32(mem, q + 4) & 1 != 0
            &&& id != bsp_cpu_id
        },
        AcpiApicEvent::SkipDisabledCpu(id) => {
            &&& mem[q] == 0
            &&& id == mem[q + 3]
            &&& le_u32(mem, q + 4) & 1 == 0
        },
        AcpiApicEvent::AddIoApic { id, address, base_gsi } => {
            &&& mem[q] == 1
            &&& id == mem[q + 2]
            &&& address == le_u32(mem, q + 4) as u64
            &&& base_gsi == le_u32(mem, q + 8)
        },
        AcpiApicEvent::ConfigureIrq {
            irq,
            gsi,
            delivery_mode_fixed,
            polarity_high_active,
            trigger_edge,
        } => {
            &&& mem[q] == 2
            &&& irq == mem[q + 3]
            &&& gsi == le_u32(mem, q + 4)
            &&& delivery_mode_fixed
            &&& trigger_edge
            &&& polarity_high_active == (le_u16(mem, q + 8) & 3 <= 1)
        },
    }
}

/// Law: every event read from well formed MADT entries comes from one of
/// these entries, by the MADT layout; an interrupt source override, in
/// particular, configures its source IRQ (offset 3), not its bus (offset 2)
pub proof fn lemma_apic_events_follow_madt_layout(
    mem: Seq<u8>,
    ptr: int,
    rem: int,
    bsp_cpu_id: CpuCoreId,
    k: int,
)
    requires
        apic_entries_ok(mem, ptr, rem),
        0 <= k < spec_apic_events(mem, ptr, rem, bsp_cpu_id).len(),
    ensures
        exists|q: int|
            ptr <= q < ptr + rem && #[trigger] madt_entry_yields(
                mem,
                q,
                spec_apic_events(mem, ptr, rem, bsp_cpu_id)[k],
                bsp_cpu_id,
            ),
    decreases rem,
{
    let len = mem[ptr + 1] as int;
    let rest = spec_apic_events(mem, ptr + len, rem - len, bsp_cpu_id);
    let events = spec_apic_events(mem, ptr, rem, bsp_cpu_id);
    match spec_apic_event(mem, ptr, bsp_cpu_id) {
        Some(e) => {
            assert(events == seq![e] + rest);
            if k == 0 {
                assert(events[k] == e);
                assert(madt_entry_yields(mem, ptr, e, bsp_cpu_id));
            } else {
                assert(events[k] == rest[k - 1]);
                lemma_apic_events_follow_madt_layout(mem, ptr + len, rem - len, bsp_cpu_id, k - 1);
                let q = choose|q: int|
                    ptr + len <= q < ptr + rem && #[trigger] madt_entry_yields(
                        mem,
                        q,
                        rest[k - 1],
                        bsp_cpu_id,
                    );
                assert(madt_entry_yields(mem, q, events[k], bsp_cpu_id));
            }
        },
        None => {
            assert(events == rest);
            lemma_apic_events_follow_madt_layout(mem, ptr + len, rem - len, bsp_cpu_id, k);
        },
    }
}

/// Law: an interrupt source override entry first in the entries configures
/// the IRQ of its source byte (offset 3) on the GSI read from offset 4
pub proof fn lemma_override_entry_configures_its_source(
    mem: Seq<u8>,
    ptr: int,
    rem: int,
    bsp_cpu_id: CpuCoreId,
)
    requires
        rem > 0,
        mem[ptr] == 2,
        0 < mem[ptr + 1] <= rem,
    ensures
        spec_apic_events(mem, ptr, rem, bsp_cpu_id).len() >= 1,
        spec_apic_events(mem, ptr, rem, bsp_cpu_id)[0] matches AcpiApicEvent::ConfigureIrq {
            irq,
            gsi,
            ..
        } && irq == mem[ptr + 3] && gsi == le_u32(mem, ptr + 4),
{
}

/// Law: the first MADT entry yields the first event, by the MADT layout, and
/// the entries after it yield the other events, unless it is the enabled
/// processor of the bootstrap core, which yields none
pub proof fn lemma_first_madt_entry_yields_first_event(
    mem: Seq<u8>,
    ptr: int,
    rem: int,
    bsp_cpu_id: CpuCoreId,
)
    requires
        rem > 0,
        mem[ptr] <= 2,
        0 < mem[ptr + 1] <= rem,
    ensures
        ({
            let events = spec_apic_events(mem, ptr, rem, bsp_cpu_id);
            let rest = spec_apic_events(mem, ptr + mem[ptr + 1], rem - mem[ptr + 1], bsp_cpu_id);
            if mem[ptr] == 0 && le_u32(mem, ptr + 4) & 1 != 0 && mem[ptr + 3] as CpuCoreId
                == bsp_cpu_id {
                events == rest
            } else {
                &&& events.len() == rest.len() + 1
                &&& madt_entry_yields(mem, ptr, events[0], bsp_cpu_id)
                &&& events.drop_first() == rest
            }
        }),
{
    let len = mem[ptr + 1] as int;
    let rest = spec_apic_events(mem, ptr + len, rem - len, bsp_cpu_id);
    let events = spec_apic_events(mem, ptr, rem, bsp_cpu_id);
    if let Some(e) = spec_apic_event(mem, ptr, bsp_cpu_id) {
        assert(events == seq![e] + rest);
        assert(events.drop_first() =~= rest);
    }
}

/// Law: the root table that the RSDP at `rsdp` leads to is, for revision 0
/// (offset 15), the 32 bit RSDT address at offset 16 and, for any later
/// revision, the 64 bit XSDT address at offset 24, masked to the physical
/// address width
pub proof fn lemma_root_table_by_revision(mem: Seq<u8>, rsdp: int)
    ensures
        mem[rsdp + 15] == 0 ==> spec_root_table_addr(mem, rsdp) == (le_u32(mem, rsdp + 16) as u64)
            & PHYS_ADDR_MASK,
        mem[rsdp + 15] != 0 ==> spec_root_table_addr(mem, rsdp) == le_u64(mem, rsdp + 24)
            & PHYS_ADDR_MASK,
{
}

/// Law: from revision 1 on, the RSDT address field (offsets 16 to 19) plays
/// no part: two images that differ only there lead to the same root table
pub proof fn lemma_xsdt_ignores_rsdt_field(mem: Seq<u8>, other: Seq<u8>, rsdp: int)
    requires
        mem.len() == other.len(),
        mem[rsdp + 15] != 0,
        forall|i: int|
            0 <= i < mem.len() && !(rsdp + 16 <= i < rsdp + 20) ==> mem[i] == other[i],
        0 <= rsdp,
        rsdp + 32 <= mem.len(),
    ensures
        spec_root_table_addr(mem, rsdp) == spec_root_table_addr(other, rsdp),
{
    assert(other[rsdp + 15] == mem[rsdp + 15]);
    assert(le_u32(mem, rsdp + 24) == le_u32(other, rsdp + 24)) by {
        assert(mem[rsdp + 24] == other[rsdp + 24]);
        assert(mem[rsdp + 25] == other[rsdp + 25]);
        assert(mem[rsdp + 26] == other[rsdp + 26]);
        assert(mem[rsdp + 27] == other[rsdp + 27]);
    }
    assert(le_u32(mem, rsdp + 28) == le_u32(other, rsdp + 28)) by {
        assert(mem[rsdp + 28] == other[rsdp + 28]);
        assert(mem[rsdp + 29] == other[rsdp + 29]);
        assert(mem[rsdp + 30] == other[rsdp + 30]);
        assert(mem[rsdp + 31] == other[rsdp + 31]);
    }
}

} // verus!
