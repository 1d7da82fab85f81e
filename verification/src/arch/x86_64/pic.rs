//! Programmable interrupt controller
use vstd::prelude::*;
use crate::arch::x86_64::io_port::{IoPort, PortWrite};

verus! {

/// Port where the writes that wait for the PICs go
pub const WAIT_PORT: u16 = 0x80;

/// Programmable Interrupt Controller chip
pub struct Pic {
    pub m_offset: u8,
    pub m_command: IoPort<u8>,
    pub m_data: IoPort<u8>,
}

impl Pic {
    /// Returns whether the PIC handles `interrupt_num`: its 8 interrupts
    /// start at its offset
    pub fn can_handle_interrupt(&self, interrupt_num: u8) -> (r: bool)
        requires
            self.m_offset + 8 <= u8::MAX,
        ensures
            r == (self.m_offset <= interrupt_num < self.m_offset + 8),
    {
        self.m_offset <= interrupt_num && interrupt_num < self.m_offset + 8
    }

    /// Returns the write that notifies the end of interrupt
    pub fn end_of_interrupt(&self) -> (r: PortWrite)
        ensures
            r == (PortWrite { m_port: self.m_command.m_port, m_value: 0x20 }),
    {
        PortWrite { m_port: self.m_command.port(), m_value: 0x20 }
    }

    /// Returns the write that overwrites the interrupt mask
    pub fn set_interrupt_mask(&self, interrupt_mask: u8) -> (r: PortWrite)
        ensures
            r == (PortWrite { m_port: self.m_data.m_port, m_value: interrupt_mask }),
    {
        PortWrite { m_port: self.m_data.port(), m_value: interrupt_mask }
    }
}

/// Programmable Interrupt Controller manager: the master and the slave PIC,
/// used when the APIC is not available
pub struct PicManager {
    pub m_master_pic: Pic,
    pub m_slave_pic: Pic,
}

/// The writes that initialize the PICs: the init command, the interrupt
/// offsets, the chaining and the 8086 mode, each followed by a wait write,
/// then all the interrupts unmasked
pub open spec fn spec_init_sequence() -> Seq<PortWrite> {
    let wait = PortWrite { m_port: WAIT_PORT, m_value: 0 };
    seq![
        PortWrite { m_port: 0x20, m_value: 0x11 },
        wait,
        PortWrite { m_port: 0xa0, m_value: 0x11 },
        wait,
        PortWrite { m_port: 0x21, m_value: 32 },
        wait,
        PortWrite { m_port: 0xa1, m_value: 40 },
        wait,
        PortWrite { m_port: 0x21, m_value: 0x04 },
        wait,
        PortWrite { m_port: 0xa1, m_value: 0x02 },
        wait,
        PortWrite { m_port: 0x21, m_value: 0x01 },
        wait,
        PortWrite { m_port: 0xa1, m_value: 0x01 },
        wait,
        PortWrite { m_port: 0x21, m_value: 0 },
        PortWrite { m_port: 0xa1, m_value: 0 },
    ]
}

/// Law: the initialization sequence cascades the slave PIC on the master's
/// IRQ 2. Each PIC gets its init command, then its third initialization
/// byte on its data port: the master's is the mask of the line the slave is
/// wired to, `1 << 2`, and the slave's is its cascade identity, that line's
/// number `2`; so the master's mask is `1` shifted by the slave's identity
pub proof fn lemma_pic_cascade_on_irq_2()
    ensures
        ({
            let s = spec_init_sequence();
            &&& s[0] == PortWrite { m_port: 0x20, m_value: 0x11 }
            &&& s[2] == PortWrite { m_port: 0xa0, m_value: 0x11 }
            &&& s[8].m_port == 0x21
            &&& s[10].m_port == 0xa1
            &&& s[10].m_value == 2
            &&& s[8].m_value == 1u8 << s[10].m_value
            &&& s[8].m_value & (1u8 << 2u8) != 0
        }),
{
    assert(1u8 << 2u8 == 4u8 && 4u8 & 4u8 != 0u8) by (bit_vector);
}

impl PicManager {
    /// The master PIC serves the interrupts 32..40 on the ports 0x20 and
    /// 0x21, the slave the interrupts 40..48 on the ports 0xa0 and 0xa1
    pub open spec fn is_standard(&self) -> bool {
        &&& self.m_master_pic.m_offset == 32
        &&& self.m_master_pic.m_command.m_port == 0x20
        &&& self.m_master_pic.m_data.m_port == 0x21
        &&& self.m_slave_pic.m_offset == 40
        &&& self.m_slave_pic.m_command.m_port == 0xa0
        &&& self.m_slave_pic.m_data.m_port == 0xa1
    }

    /// Constructs the `PicManager` and returns the port writes that
    /// initialize the two PICs
    pub fn init_instance() -> (r: (PicManager, Vec<PortWrite>))
        ensures
            r.0.is_standard(),
            r.1@ == spec_init_sequence(),
    {
        let pic_manager = PicManager {
            m_master_pic: Pic {
                m_offset: 32,
                m_command: IoPort::new(0x20),
                m_data: IoPort::new(0x21),
            },
            m_slave_pic: Pic { m_offset: 40, m_command: IoPort::new(0xa0), m_data: IoPort::new(0xa1) },
        };
        let wait = PortWrite { m_port: WAIT_PORT, m_value: 0 };
        let mut writes: Vec<PortWrite> = Vec::new();
        /* the init command, which announces the 3 bytes sequence */
        writes.push(PortWrite { m_port: pic_manager.m_master_pic.m_command.port(), m_value: 0x11 });
        writes.push(wait);
        writes.push(PortWrite { m_port: pic_manager.m_slave_pic.m_command.port(), m_value: 0x11 });
        writes.push(wait);
        /* byte-1: the base interrupt offsets */
        writes.push(pic_manager.m_master_pic.set_interrupt_mask(pic_manager.m_master_pic.m_offset));
        writes.push(wait);
        writes.push(pic_manager.m_slave_pic.set_interrupt_mask(pic_manager.m_slave_pic.m_offset));
        writes.push(wait);
        /* byte-2: chaining between PIC-1 & PIC-2 */
        writes.push(pic_manager.m_master_pic.set_interrupt_mask(0x04));
        writes.push(wait);
        writes.push(pic_manager.m_slave_pic.set_interrupt_mask(0x02));
        writes.push(wait);
        /* byte-3: 8086 mode */
        writes.push(pic_manager.m_master_pic.set_interrupt_mask(0x01));
        writes.push(wait);
        writes.push(pic_manager.m_slave_pic.set_interrupt_mask(0x01));
        writes.push(wait);
        /* enable now all the interrupts */
        let mut masks = pic_manager.set_interrupts_masks(0, 0);
        writes.append(&mut masks);
        assert(writes@ =~= spec_init_sequence());
        (pic_manager, writes)
    }

    /// Returns whether one of the two PICs handles `interrupt_num`
    pub fn can_handle_interrupt(&self, interrupt_num: u8) -> (r: bool)
        requires
            self.m_master_pic.m_offset + 8 <= u8::MAX,
            self.m_slave_pic.m_offset + 8 <= u8::MAX,
        ensures
            r == (self.m_master_pic.m_offset <= interrupt_num < self.m_master_pic.m_offset + 8
                || self.m_slave_pic.m_offset <= interrupt_num < self.m_slave_pic.m_offset + 8),
    {
        self.m_master_pic.can_handle_interrupt(interrupt_num)
            || self.m_slave_pic.can_handle_interrupt(interrupt_num)
    }

    /// Returns the write that notifies the end of `interrupt_num` to the PIC
    /// that handles it, the master first
    pub fn end_of_interrupt(&self, interrupt_num: u8) -> (r: Option<PortWrite>)
        requires
            self.m_master_pic.m_offset + 8 <= u8::MAX,
            self.m_slave_pic.m_offset + 8 <= u8::MAX,
        ensures
            r == if self.m_master_pic.m_offset <= interrupt_num < self.m_master_pic.m_offset + 8 {
                Some(PortWrite { m_port: self.m_master_pic.m_command.m_port, m_value: 0x20 })
            } else if self.m_slave_pic.m_offset <= interrupt_num < self.m_slave_pic.m_offset + 8 {
                Some(PortWrite { m_port: self.m_slave_pic.m_command.m_port, m_value: 0x20 })
            } else {
                None::<PortWrite>
            },
    {
        if self.can_handle_interrupt(interrupt_num) {
            if self.m_master_pic.can_handle_interrupt(interrupt_num) {
                Some(self.m_master_pic.end_of_interrupt())
            } else {
                Some(self.m_slave_pic.end_of_interrupt())
            }
        } else {
            None
        }
    }

    /// Returns the writes that mask all the interrupts of both PICs
    pub fn disable(&self) -> (r: Vec<PortWrite>)
        ensures
            r@ == seq![
                PortWrite { m_port: self.m_master_pic.m_data.m_port, m_value: 0xff },
                PortWrite { m_port: self.m_slave_pic.m_data.m_port, m_value: 0xff },
            ],
    {
        self.set_interrupts_masks(u8::MAX, u8::MAX)
    }

    /// Returns the writes that overwrite the interrupt masks of both PICs
    pub fn set_interrupts_masks(&self, master_mask: u8, slave_mask: u8) -> (r: Vec<PortWrite>)
        ensures
            r@ == seq![
                PortWrite { m_port: self.m_master_pic.m_data.m_port, m_value: master_mask },
                PortWrite { m_port: self.m_slave_pic.m_data.m_port, m_value: slave_mask },
            ],
    {
        let mut writes: Vec<PortWrite> = Vec::new();
        writes.push(self.m_master_pic.set_interrupt_mask(master_mask));
        writes.push(self.m_slave_pic.set_interrupt_mask(slave_mask));
        assert(writes@ =~= seq![
            PortWrite { m_port: self.m_master_pic.m_data.m_port, m_value: master_mask },
            PortWrite { m_port: self.m_slave_pic.m_data.m_port, m_value: slave_mask },
        ]);
        writes
    }
}

} // verus!
