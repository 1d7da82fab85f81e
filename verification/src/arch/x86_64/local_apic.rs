//! Local Advanced Programmable Interrupt Controller of each core
use vstd::prelude::*;
use crate::addr::virt_addr::VirtAddr;
use crate::arch::x86_64::apic_manager::{LapicRegister, RegisterWrite};

verus! {

/// Local APIC of a core: the address of its registers, once enabled
#[derive(Clone, Copy, PartialEq, Eq, Structural, Debug)]
pub struct LocalApic {
    pub m_virt_addr: VirtAddr,
    pub m_enabled: bool,
}

impl LocalApic {
    /// Constructs a disabled `LocalApic` with no registers address
    pub fn new() -> (r: Self)
        ensures
            r.m_virt_addr@ == 0,
            !r.m_enabled,
    {
        Self { m_virt_addr: VirtAddr::null(), m_enabled: false }
    }

    /// Enables the local APIC whose registers are at the address that a
    /// successful `init_apic` recorded, `apic_base_virt_addr`, which must be
    /// there: enabling before the APIC is initialized is refused. Returns the
    /// register writes to perform: the task priority and 16 as timer counter
    /// divider. The spurious interrupts register is written only when its
    /// value masked with the disable value (0) is not zero, which never
    /// happens
    pub fn enable(&mut self, apic_base_virt_addr: Option<VirtAddr>, spurious_value: u32) -> (r: Vec<
        RegisterWrite,
    >)
        requires
            apic_base_virt_addr is Some,
        ensures
            final(self).m_virt_addr == apic_base_virt_addr->0,
            final(self).m_enabled,
            r@ == seq![
                RegisterWrite { m_register: 0x080, m_value: 0x10 },
                RegisterWrite { m_register: 0x3E0, m_value: 0x3 },
            ],
    {
        self.m_virt_addr = match apic_base_virt_addr {
            Some(addr) => addr,
            None => self.m_virt_addr,
        };
        let mut writes: Vec<RegisterWrite> = Vec::new();
        let spurious_interrupt_disable: u32 = 0;
        if spurious_value & spurious_interrupt_disable != 0 {
            writes.push(
                RegisterWrite {
                    m_register: LapicRegister::SpuriousInterrupt.offset(),
                    m_value: 0x100,
                },
            );
        }
        assert(spurious_value & 0u32 == 0) by (bit_vector);
        writes.push(RegisterWrite { m_register: LapicRegister::TaskPrio.offset(), m_value: 0x10 });
        writes.push(
            RegisterWrite { m_register: LapicRegister::TimerDivideConfig.offset(), m_value: 0x3 },
        );
        self.m_enabled = true;
        writes
    }

    /// Returns whether this local APIC was enabled
    pub fn is_enabled(&self) -> (r: bool)
        ensures
            r == self.m_enabled,
    {
        self.m_enabled
    }
}

/// What `LocalApic::init_apic` found: the physical address of the registers
/// and the value to write back into the APIC base MSR, with the enable bit
#[derive(Clone, Copy, PartialEq, Eq, Structural, Debug)]
pub struct ApicInit {
    pub m_phys_base: u64,
    pub m_msr_value: u64,
}

/// Bit of the `edx` register of `cpuid` leaf 1 that tells APIC support
pub const CPUID_EDX_APIC: u32 = 9;

/// Bit of the APIC base MSR that enables the APIC
pub const APIC_BASE_ENABLE_BIT: u64 = 11;

impl LocalApic {
    /// Tells whether the `edx` register that `cpuid` leaf 1 gave shows APIC
    /// support
    pub fn is_supported(cpuid_edx: u32) -> (r: bool)
        ensures
            r == (cpuid_edx & (1u32 << CPUID_EDX_APIC) != 0),
    {
        cpuid_edx & (1u32 << CPUID_EDX_APIC) != 0
    }

    /// Decides the APIC initialization from the `cpuid` leaf 1 `edx` register
    /// and from the APIC base MSR value: none when the CPU has no APIC or the
    /// MSR shows it disabled, else the registers' physical address and the
    /// MSR value with the enable bit set
    pub fn init_apic(cpuid_edx: u32, apic_base: u64) -> (r: Option<ApicInit>)
        ensures
            r is None <==> (cpuid_edx & (1u32 << CPUID_EDX_APIC) == 0 || apic_base & (1u64
                << APIC_BASE_ENABLE_BIT) == 0),
            r matches Some(init) ==> init.m_phys_base == apic_base & 0xffff_f000u64
                && init.m_msr_value == apic_base | (1u64 << APIC_BASE_ENABLE_BIT),
    {
        if !Self::is_supported(cpuid_edx) {
            return None;
        }
        if apic_base & (1u64 << APIC_BASE_ENABLE_BIT) == 0 {
            return None;
        }
        Some(
            ApicInit {
                m_phys_base: apic_base & 0xffff_f000u64,
                m_msr_value: apic_base | (1u64 << APIC_BASE_ENABLE_BIT),
            },
        )
    }
}

} // verus!
