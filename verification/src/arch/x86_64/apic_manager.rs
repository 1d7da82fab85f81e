//! Advanced Programmable Interrupt Controller manager: the I/O APICs, the
//! ISA interrupts redirection configurations and the local APIC registers
use vstd::prelude::*;
use crate::addr::virt_addr::VirtAddr;
use crate::arch::x86_64::acpi_manager::CpuCoreId;
use crate::arch::x86_64::addr::hw_virt_addr::canonical;
use crate::arch::x86_64::hw_cpu_core::MsrWrite;
use crate::arch::x86_64::local_apic::CPUID_EDX_APIC;

verus! {

/// Number of ISA interrupts
pub const ISA_IRQ_COUNT: usize = 16;

pub const SPURIOUS_INTERRUPT_ENABLE: u32 = 0x100;
pub const DELIVERY_MODE_NORMAL: u32 = 0;
pub const DELIVERY_MODE_NON_MASKABLE: u32 = 0x400;
pub const DESTINATION_MODE_PHYSICAL: u32 = 0;
pub const POLARITY_HIGH_ACTIVE: u32 = 0;
pub const POLARITY_LOW_ACTIVE: u32 = 0x2000;
pub const TRIGGER_MODE_EDGE: u32 = 0;
pub const TRIGGER_MODE_LEVEL: u32 = 0x8000;
pub const INTERRUPT_MASK_DISABLE: u32 = 0;
pub const INTERRUPT_MASK_ENABLE: u32 = 0x1_0000;

/// The I/O APIC redirection table register
pub const IO_APIC_RED_TABLE: u32 = 0x10;

/// The APIC base model specific register enable bit
pub const APIC_BASE_ENABLE: u64 = 0x800;

/// Number of the model specific register that holds the APIC base
pub const APIC_BASE_MSR: u32 = 0x1B;

/// I/O APIC redirection configuration
#[derive(Clone, Copy, PartialEq, Eq, Structural, Debug)]
pub struct IoApicConfig {
    pub m_gsi: u32,
    pub m_delivery_mode: u32,
    pub m_polarity: u32,
    pub m_trigger_mode: u32,
}

/// The default configuration of the ISA interrupt `irq`
pub open spec fn default_config(irq: int) -> IoApicConfig {
    IoApicConfig {
        m_gsi: irq as u32,
        m_delivery_mode: DELIVERY_MODE_NORMAL,
        m_polarity: POLARITY_HIGH_ACTIVE,
        m_trigger_mode: TRIGGER_MODE_EDGE,
    }
}

/// I/O APIC: its id, version, register selector and data addresses and the
/// range of global system interrupts it serves, `m_gsi_end` excluded
#[derive(Clone, Copy, PartialEq, Eq, Structural, Debug)]
pub struct IoApic {
    pub m_id: u8,
    pub m_version: u8,
    pub m_reg_addr: VirtAddr,
    pub m_data_addr: VirtAddr,
    pub m_gsi_start: u32,
    pub m_gsi_end: u32,
}

impl IoApic {
    /// The I/O APIC serves `gsi`
    pub open spec fn serves(self, gsi: u32) -> bool {
        self.m_gsi_start <= gsi < self.m_gsi_end
    }

    /// Returns the highest redirection entry index that the version
    /// register value `version` declares
    pub fn count_max(version: u32) -> (r: u32)
        ensures
            r == (version >> 16u32) & 0xffu32,
            r <= 0xff,
    {
        let r = (version >> 16u32) & 0xffu32;
        assert(r <= 0xff) by (bit_vector)
            requires
                r == (version >> 16u32) & 0xffu32,
        ;
        r
    }

    /// Returns the register and the value to write to mask `gsi`, whose
    /// redirection register currently holds `current_value`
    pub fn mask(&self, gsi: u32, current_value: u32) -> (r: (u32, u32))
        requires
            IO_APIC_RED_TABLE + gsi * 2 <= u32::MAX,
        ensures
            r == ((IO_APIC_RED_TABLE + gsi * 2) as u32, current_value | INTERRUPT_MASK_ENABLE),
    {
        (IO_APIC_RED_TABLE + gsi * 2, current_value | INTERRUPT_MASK_ENABLE)
    }
}

/// A write to an APIC register
#[derive(Clone, Copy, PartialEq, Eq, Structural, Debug)]
pub struct RegisterWrite {
    pub m_register: u32,
    pub m_value: u32,
}

/// The two redirection register writes that enable an interrupt on an I/O
/// APIC
#[derive(Clone, Copy, PartialEq, Eq, Structural, Debug)]
pub struct IrqRedirection {
    pub m_io_apic_index: usize,
    pub m_high: RegisterWrite,
    pub m_low: RegisterWrite,
}

/// Advanced Programmable Interrupt Controller manager
pub struct ApicManager {
    pub m_base_virt_addr: VirtAddr,
    pub m_io_apics: Vec<IoApic>,
    pub m_io_apic_configs: Vec<IoApicConfig>,
}

/// The index of the first I/O APIC of `io_apics` that serves `gsi`
pub open spec fn first_serving(io_apics: Seq<IoApic>, gsi: u32, i: int) -> bool {
    &&& 0 <= i < io_apics.len()
    &&& io_apics[i].serves(gsi)
    &&& forall|j: int| 0 <= j < i ==> !(#[trigger] io_apics[j]).serves(gsi)
}

impl ApicManager {
    /// One configuration per ISA interrupt
    pub open spec fn wf(&self) -> bool {
        &&& self.m_io_apic_configs@.len() == ISA_IRQ_COUNT
        &&& forall|i: int|
            0 <= i < self.m_io_apics@.len() ==> (#[trigger] self.m_io_apics@[i]).m_gsi_end <= 0x100
    }

    /// Returns whether the APIC base register value has the enable bit set
    pub fn is_apic_base_enabled(apic_base: u64) -> (r: bool)
        ensures
            r == (apic_base & APIC_BASE_ENABLE != 0),
    {
        apic_base & APIC_BASE_ENABLE != 0
    }

    /// Returns the APIC base register value that enables the APIC
    pub fn enabled_apic_base(apic_base: u64) -> (r: u64)
        ensures
            r == apic_base | APIC_BASE_ENABLE,
    {
        apic_base | APIC_BASE_ENABLE
    }

    /// Constructs the manager on a CPU whose `cpuid` leaf 1 `edx` register
    /// shows APIC support, from the APIC base register (MSR 0x1B) value,
    /// whose enable bit must be set: the local APIC is at the identity mapping
    /// of the physical base, no I/O APIC is known yet, and each ISA interrupt
    /// has its default configuration. Returns the manager and the write that
    /// stores back the APIC base register with the enable bit
    pub fn init_instance(cpuid_edx: u32, apic_base: u64) -> (r: (ApicManager, MsrWrite))
        requires
            cpuid_edx & (1u32 << CPUID_EDX_APIC) != 0,
            apic_base & APIC_BASE_ENABLE != 0,
        ensures
            r.0.wf(),
            r.0.m_base_virt_addr@ == canonical(apic_base & 0xffff_f000u64),
            r.0.m_io_apics@.len() == 0,
            forall|i: int| 0 <= i < ISA_IRQ_COUNT ==> #[trigger] r.0.m_io_apic_configs@[i]
                == default_config(i),
            r.1 == (MsrWrite { m_register: APIC_BASE_MSR, m_value: apic_base | APIC_BASE_ENABLE }),
    {
        let apic_base_virt_addr = VirtAddr::from(apic_base & 0xffff_f000u64);
        let mut io_apic_configs: Vec<IoApicConfig> = Vec::new();
        let mut i: usize = 0;
        while i < ISA_IRQ_COUNT
            invariant
                i <= ISA_IRQ_COUNT,
                io_apic_configs@.len() == i,
                forall|j: int| 0 <= j < i ==> #[trigger] io_apic_configs@[j] == default_config(j),
            decreases ISA_IRQ_COUNT - i,
        {
            io_apic_configs.push(
                IoApicConfig {
                    m_gsi: i as u32,
                    m_delivery_mode: DELIVERY_MODE_NORMAL,
                    m_polarity: POLARITY_HIGH_ACTIVE,
                    m_trigger_mode: TRIGGER_MODE_EDGE,
                },
            );
            i = i + 1;
        }
        let manager = ApicManager {
            m_base_virt_addr: apic_base_virt_addr,
            m_io_apics: Vec::new(),
            m_io_apic_configs: io_apic_configs,
        };
        let enable_write = MsrWrite {
            m_register: APIC_BASE_MSR,
            m_value: Self::enabled_apic_base(apic_base),
        };
        (manager, enable_write)
    }

    /// Adds the I/O APIC `id` whose registers are at `base_addr` and whose
    /// version register holds `version`; it serves the interrupts from
    /// `base_gsi` up to the highest entry its version declares. Returns the
    /// redirection writes that mask all of them
    pub fn add_io_apic(&mut self, id: u8, base_addr: u64, base_gsi: u32, version: u32) -> (r: Vec<
        RegisterWrite,
    >)
        requires
            old(self).wf(),
            canonical(base_addr) + 10 <= u64::MAX,
        ensures
            final(self).wf(),
            final(self).m_io_apic_configs == old(self).m_io_apic_configs,
            final(self).m_base_virt_addr == old(self).m_base_virt_addr,
            final(self).m_io_apics@ == old(self).m_io_apics@.push(
                IoApic {
                    m_id: id,
                    m_version: version as u8,
                    m_reg_addr: VirtAddr { m_hw_virt_addr: crate::arch::x86_64::addr::hw_virt_addr::HwVirtAddr { m_raw_virt_addr: canonical(base_addr) } },
                    m_data_addr: VirtAddr { m_hw_virt_addr: crate::arch::x86_64::addr::hw_virt_addr::HwVirtAddr { m_raw_virt_addr: canonical((canonical(base_addr) + 10) as u64) } },
                    m_gsi_start: base_gsi,
                    m_gsi_end: (((version >> 16u32) & 0xffu32) + 1) as u32,
                },
            ),
            r@.len() == if base_gsi <= (version >> 16u32) & 0xffu32 {
                2 * (((version >> 16u32) & 0xffu32) + 1 - base_gsi)
            } else {
                0
            },
            forall|k: int|
                0 <= k < r@.len() ==> #[trigger] r@[k] == (if k % 2 == 0 {
                    RegisterWrite {
                        m_register: (IO_APIC_RED_TABLE + (base_gsi + k / 2) * 2) as u32,
                        m_value: INTERRUPT_MASK_ENABLE,
                    }
                } else {
                    RegisterWrite {
                        m_register: (IO_APIC_RED_TABLE + (base_gsi + k / 2) * 2 + 1) as u32,
                        m_value: 0,
                    }
                }),
    {
        let io_apic_base_addr = VirtAddr::from(base_addr);
        let count_max = IoApic::count_max(version);
        let io_apic = IoApic {
            m_id: id,
            m_version: version as u8,
            m_reg_addr: io_apic_base_addr,
            m_data_addr: io_apic_base_addr.offset(10),
            m_gsi_start: base_gsi,
            m_gsi_end: count_max + 1,
        };
        let mut writes: Vec<RegisterWrite> = Vec::new();
        if base_gsi <= count_max {
            let mut gsi = base_gsi;
            while gsi <= count_max
                invariant
                    count_max <= 0xff,
                    base_gsi <= gsi <= count_max + 1,
                    writes@.len() == 2 * (gsi - base_gsi),
                    forall|k: int|
                        0 <= k < writes@.len() ==> #[trigger] writes@[k] == (if k % 2 == 0 {
                            RegisterWrite {
                                m_register: (IO_APIC_RED_TABLE + (base_gsi + k / 2) * 2) as u32,
                                m_value: INTERRUPT_MASK_ENABLE,
                            }
                        } else {
                            RegisterWrite {
                                m_register: (IO_APIC_RED_TABLE + (base_gsi + k / 2) * 2 + 1) as u32,
                                m_value: 0,
                            }
                        }),
                decreases count_max + 1 - gsi,
            {
                let ghost m = gsi - base_gsi;
                let reg = IO_APIC_RED_TABLE + gsi * 2;
                writes.push(RegisterWrite { m_register: reg, m_value: INTERRUPT_MASK_ENABLE });
                writes.push(RegisterWrite { m_register: reg + 1, m_value: 0 });
                proof {
                    assert((2 * m) % 2 == 0 && (2 * m) / 2 == m) by (nonlinear_arith)
                        requires
                            m >= 0,
                    ;
                    assert((2 * m + 1) % 2 == 1 && (2 * m + 1) / 2 == m) by (nonlinear_arith)
                        requires
                            m >= 0,
                    ;
                }
                gsi = gsi + 1;
            }
        }
        self.m_io_apics.push(io_apic);
        writes
    }

    /// Configures the ISA interrupt `irq`, when an I/O APIC serves `gsi`
    pub fn configure_irq(
        &mut self,
        irq: u8,
        gsi: u32,
        delivery_mode_fixed: bool,
        polarity_high_active: bool,
        trigger_edge: bool,
    )
        requires
            old(self).wf(),
            irq < ISA_IRQ_COUNT,
        ensures
            final(self).wf(),
            final(self).m_io_apics == old(self).m_io_apics,
            final(self).m_base_virt_addr == old(self).m_base_virt_addr,
            final(self).m_io_apic_configs@ == if exists|i: int|
                first_serving(old(self).m_io_apics@, gsi, i) {
                old(self).m_io_apic_configs@.update(
                    irq as int,
                    IoApicConfig {
                        m_gsi: gsi,
                        m_delivery_mode: if delivery_mode_fixed {
                            DELIVERY_MODE_NORMAL
                        } else {
                            DELIVERY_MODE_NON_MASKABLE
                        },
                        m_polarity: if polarity_high_active {
                            POLARITY_HIGH_ACTIVE
                        } else {
                            POLARITY_LOW_ACTIVE
                        },
                        m_trigger_mode: if trigger_edge {
                            TRIGGER_MODE_EDGE
                        } else {
                            TRIGGER_MODE_LEVEL
                        },
                    },
                )
            } else {
                old(self).m_io_apic_configs@
            },
    {
        let delivery_mode = if delivery_mode_fixed {
            DELIVERY_MODE_NORMAL
        } else {
            DELIVERY_MODE_NON_MASKABLE
        };
        let polarity = if polarity_high_active {
            POLARITY_HIGH_ACTIVE
        } else {
            POLARITY_LOW_ACTIVE
        };
        let trigger_mode = if trigger_edge {
            TRIGGER_MODE_EDGE
        } else {
            TRIGGER_MODE_LEVEL
        };
        if let Some(_) = self.io_apic_by_gsi(gsi) {
            self.m_io_apic_configs.set(
                irq as usize,
                IoApicConfig {
                    m_gsi: gsi,
                    m_delivery_mode: delivery_mode,
                    m_polarity: polarity,
                    m_trigger_mode: trigger_mode,
                },
            );
        }
    }

    /// Returns the redirection writes that enable the ISA interrupt `irq` on
    /// the CPU core `cpu_core_id`, when an I/O APIC serves its GSI
    pub fn enable_irq(&self, irq: u8, cpu_core_id: CpuCoreId) -> (r: Option<IrqRedirection>)
        requires
            self.wf(),
            irq < ISA_IRQ_COUNT,
        ensures
            match r {
                Some(red) => {
                    let gsi = self.m_io_apic_configs@[irq as int].m_gsi;
                    let io_apic = self.m_io_apics@[red.m_io_apic_index as int];
                    let local_gsi = gsi - io_apic.m_gsi_start;
                    let config = self.m_io_apic_configs@[irq as int];
                    &&& first_serving(self.m_io_apics@, gsi, red.m_io_apic_index as int)
                    &&& red.m_high == RegisterWrite {
                        m_register: (IO_APIC_RED_TABLE + local_gsi * 2 + 1) as u32,
                        m_value: (cpu_core_id << 24u32) as u32,
                    }
                    &&& red.m_low == RegisterWrite {
                        m_register: (IO_APIC_RED_TABLE + local_gsi * 2) as u32,
                        m_value: INTERRUPT_MASK_DISABLE | DESTINATION_MODE_PHYSICAL | config.m_polarity
                            | config.m_trigger_mode | config.m_delivery_mode | (irq + 0x20) as u32,
                    }
                },
                None => !exists|i: int|
                    first_serving(self.m_io_apics@, self.m_io_apic_configs@[irq as int].m_gsi, i),
            },
    {
        let gsi = self.irq_to_gsi(irq);
        match self.io_apic_index_by_gsi(gsi) {
            Some(index) => {
                let io_apic = &self.m_io_apics[index];
                let local_gsi = gsi - io_apic.m_gsi_start;
                let config = &self.m_io_apic_configs[irq as usize];
                assert(local_gsi < 0x7fff_fff0) by {
                    assert(local_gsi < io_apic.m_gsi_end);
                }
                let high = RegisterWrite {
                    m_register: IO_APIC_RED_TABLE + local_gsi * 2 + 1,
                    m_value: cpu_core_id << 24u32,
                };
                let low = RegisterWrite {
                    m_register: IO_APIC_RED_TABLE + local_gsi * 2,
                    m_value: INTERRUPT_MASK_DISABLE | DESTINATION_MODE_PHYSICAL | config.m_polarity
                        | config.m_trigger_mode | config.m_delivery_mode | (irq + 0x20) as u32,
                };
                Some(IrqRedirection { m_io_apic_index: index, m_high: high, m_low: low })
            },
            None => None,
        }
    }

    /// Returns the local APIC of this core
    pub fn local_apic(&self) -> (r: LocalApic)
        ensures
            r.m_virt_addr == self.m_base_virt_addr,
    {
        LocalApic { m_virt_addr: self.m_base_virt_addr }
    }

    /// Returns the first I/O APIC that serves `gsi`
    pub fn io_apic_by_gsi(&self, gsi: u32) -> (r: Option<&IoApic>)
        ensures
            match r {
                Some(io_apic) => exists|i: int|
                    first_serving(self.m_io_apics@, gsi, i) && *io_apic == self.m_io_apics@[i],
                None => !exists|i: int| first_serving(self.m_io_apics@, gsi, i),
            },
    {
        match self.io_apic_index_by_gsi(gsi) {
            Some(index) => Some(&self.m_io_apics[index]),
            None => None,
        }
    }

    /// Returns the index of the first I/O APIC that serves `gsi`
    pub fn io_apic_index_by_gsi(&self, gsi: u32) -> (r: Option<usize>)
        ensures
            match r {
                Some(i) => first_serving(self.m_io_apics@, gsi, i as int),
                None => !exists|i: int| first_serving(self.m_io_apics@, gsi, i),
            },
    {
        let mut i: usize = 0;
        while i < self.m_io_apics.len()
            invariant
                i <= self.m_io_apics@.len(),
                forall|j: int| 0 <= j < i ==> !(#[trigger] self.m_io_apics@[j]).serves(gsi),
            decreases self.m_io_apics@.len() - i,
        {
            let io_apic = &self.m_io_apics[i];
            if io_apic.m_gsi_start <= gsi && gsi < io_apic.m_gsi_end {
                return Some(i);
            }
            i = i + 1;
        }
        None
    }

    /// Returns the GSI that the ISA interrupt `irq` is delivered on
    pub fn irq_to_gsi(&self, irq: u8) -> (r: u32)
        requires
            self.wf(),
            irq < ISA_IRQ_COUNT,
        ensures
            r == self.m_io_apic_configs@[irq as int].m_gsi,
    {
        self.m_io_apic_configs[irq as usize].m_gsi
    }
}

/// Local APIC registers
#[derive(Clone, Copy, PartialEq, Eq, Structural, Debug)]
pub enum LapicRegister {
    CoreId,
    TaskPrio,
    EndOfInterrupt,
    SpuriousInterrupt,
    IntrCommandLow,
    IntrCommandHigh,
    LocalVecTableTimer,
    LocalVecTableThermal,
    LocalVecTablePerfCounter,
    LocalVecTableLint0,
    LocalVecTableLint1,
    LocalVecTableError,
    TimerInitCounter,
    TimerCurrentCounter,
    TimerDivideConfig,
}

impl LapicRegister {
    /// The offset of the register from the local APIC base
    pub open spec fn spec_offset(self) -> u32 {
        match self {
            LapicRegister::CoreId => 0x020,
            LapicRegister::TaskPrio => 0x080,
            LapicRegister::EndOfInterrupt => 0x0B0,
            LapicRegister::SpuriousInterrupt => 0x0F0,
            LapicRegister::IntrCommandLow => 0x300,
            LapicRegister::IntrCommandHigh => 0x310,
            LapicRegister::LocalVecTableTimer => 0x320,
            LapicRegister::LocalVecTableThermal => 0x330,
            LapicRegister::LocalVecTablePerfCounter => 0x340,
            LapicRegister::LocalVecTableLint0 => 0x350,
            LapicRegister::LocalVecTableLint1 => 0x360,
            LapicRegister::LocalVecTableError => 0x370,
            LapicRegister::TimerInitCounter => 0x380,
            LapicRegister::TimerCurrentCounter => 0x390,
            LapicRegister::TimerDivideConfig => 0x3E0,
        }
    }

    /// Returns the offset of the register from the local APIC base
    pub fn offset(self) -> (r: u32)
        ensures
            r == self.spec_offset(),
    {
        match self {
            LapicRegister::CoreId => 0x020,
            LapicRegister::TaskPrio => 0x080,
            LapicRegister::EndOfInterrupt => 0x0B0,
            LapicRegister::SpuriousInterrupt => 0x0F0,
            LapicRegister::IntrCommandLow => 0x300,
            LapicRegister::IntrCommandHigh => 0x310,
            LapicRegister::LocalVecTableTimer => 0x320,
            LapicRegister::LocalVecTableThermal => 0x330,
            LapicRegister::LocalVecTablePerfCounter => 0x340,
            LapicRegister::LocalVecTableLint0 => 0x350,
            LapicRegister::LocalVecTableLint1 => 0x360,
            LapicRegister::LocalVecTableError => 0x370,
            LapicRegister::TimerInitCounter => 0x380,
            LapicRegister::TimerCurrentCounter => 0x390,
            LapicRegister::TimerDivideConfig => 0x3E0,
        }
    }
}

/// Local Advanced Programmable Interrupt Controller
#[derive(Clone, Copy, PartialEq, Eq, Structural, Debug)]
pub struct LocalApic {
    pub m_virt_addr: VirtAddr,
}

impl LocalApic {
    /// Returns the register writes that enable the local APIC whose spurious
    /// interrupt register holds `spurious_value`: enable the spurious
    /// interrupts when disabled, then set the task priority and 16 as timer
    /// counter divider
    pub fn enable(&self, spurious_value: u32) -> (r: Vec<RegisterWrite>)
        ensures
            r@ == (if spurious_value & SPURIOUS_INTERRUPT_ENABLE == 0 {
                seq![RegisterWrite { m_register: 0x0F0, m_value: SPURIOUS_INTERRUPT_ENABLE }]
            } else {
                Seq::empty()
            }) + seq![
                RegisterWrite { m_register: 0x080, m_value: 0x10 },
                RegisterWrite { m_register: 0x3E0, m_value: 0x3 },
            ],
    {
        let mut writes: Vec<RegisterWrite> = Vec::new();
        if spurious_value & SPURIOUS_INTERRUPT_ENABLE == 0 {
            writes.push(
                RegisterWrite {
                    m_register: LapicRegister::SpuriousInterrupt.offset(),
                    m_value: SPURIOUS_INTERRUPT_ENABLE,
                },
            );
        }
        writes.push(RegisterWrite { m_register: LapicRegister::TaskPrio.offset(), m_value: 0x10 });
        writes.push(
            RegisterWrite { m_register: LapicRegister::TimerDivideConfig.offset(), m_value: 0x3 },
        );
        writes
    }

    /// Returns the address of the given register
    pub fn register_addr(&self, register: LapicRegister) -> (r: VirtAddr)
        requires
            self.m_virt_addr@ + 0x3E0 <= u64::MAX,
        ensures
            r@ == canonical((self.m_virt_addr@ + register.spec_offset()) as u64),
    {
        self.m_virt_addr.offset(register.offset() as u64)
    }
}

} // verus!
