//! x86_64 programmable interval timer
use vstd::prelude::*;
use crate::arch::x86_64::io_port::{IoPort, PortWrite};

verus! {

/// Programmable interval timer: its control and data ports
pub struct PitManager {
    pub m_control_port: IoPort<u8>,
    pub m_data_port: IoPort<u8>,
}

impl PitManager {
    /// The timer input frequency in Hz
    pub const BASE_FREQUENCY: u64 = 1193182;

    /// Constructs the `PitManager` on the ports 0x43 and 0x40
    pub fn init_instance() -> (r: PitManager)
        ensures
            r.m_control_port.m_port == 0x43,
            r.m_data_port.m_port == 0x40,
    {
        PitManager { m_control_port: IoPort::new(0x43), m_data_port: IoPort::new(0x40) }
    }

    /// Returns the writes that start the periodic mode with the given
    /// divisor: the mode command, then the low and the high divisor byte
    pub fn enable_periodic(&self, divisor: u16) -> (r: Vec<PortWrite>)
        ensures
            r@ == seq![
                PortWrite { m_port: self.m_control_port.m_port, m_value: 0x34 },
                PortWrite { m_port: self.m_data_port.m_port, m_value: (divisor & 0xff) as u8 },
                PortWrite { m_port: self.m_data_port.m_port, m_value: (divisor >> 8u16) as u8 },
            ],
    {
        /* channel 0, low then high byte, rate generator, binary */
        let mode: u8 = 0x00 | 0x30 | 0x4 | 0x00;
        assert(mode == 0x34) by (bit_vector)
            requires
                mode == 0x00u8 | 0x30u8 | 0x4u8 | 0x00u8,
        ;
        let mut writes: Vec<PortWrite> = Vec::new();
        writes.push(PortWrite { m_port: self.m_control_port.port(), m_value: mode });
        writes.push(PortWrite { m_port: self.m_data_port.port(), m_value: (divisor & 0xff) as u8 });
        writes.push(PortWrite { m_port: self.m_data_port.port(), m_value: (divisor >> 8u16) as u8 });
        assert(writes@ =~= seq![
            PortWrite { m_port: self.m_control_port.m_port, m_value: 0x34 },
            PortWrite { m_port: self.m_data_port.m_port, m_value: (divisor & 0xff) as u8 },
            PortWrite { m_port: self.m_data_port.m_port, m_value: (divisor >> 8u16) as u8 },
        ]);
        writes
    }

    /// Returns the write that latches the counter before it is read
    pub fn read_counter_command(&self) -> (r: PortWrite)
        ensures
            r == (PortWrite { m_port: self.m_control_port.m_port, m_value: 0 }),
    {
        PortWrite { m_port: self.m_control_port.port(), m_value: 0x00 }
    }

    /// Returns the counter from its two bytes as the data port gives them,
    /// the low first
    pub fn counter_from_bytes(low: u8, high: u8) -> (r: u32)
        ensures
            r == low as u32 + high as u32 * 256,
    {
        let r = low as u32 | (high as u32) << 8u32;
        assert(low as u32 | (high as u32) << 8u32 == low as u32 + high as u32 * 256) by (bit_vector);
        r
    }
}

/// Writing a divisor and reading it back as counter bytes gives the divisor
pub proof fn lemma_divisor_bytes_round_trip(divisor: u16)
    ensures
        ((divisor & 0xff) as u8) as u32 + ((divisor >> 8u16) as u8) as u32 * 256 == divisor,
{
    assert(((divisor & 0xff) as u8) as u32 + ((divisor >> 8u16) as u8) as u32 * 256 == divisor)
        by (bit_vector);
}

} // verus!
