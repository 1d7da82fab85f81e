//! x86_64 UART on the Serial 16550 hardware
use vstd::prelude::*;
use vstd::string::StringSliceAdditionalSpecFns;
use crate::arch::x86_64::dev::io_port::IOPort;
use crate::arch::x86_64::io_port::PortWrite;

verus! {

/// Bit of the line status register set when the output buffer is empty
pub const LINE_STATUS_OUTPUT_EMPTY: u8 = 5;

/// x86_64 UART device on the Serial 16550 hardware: its COM number and its
/// six registers, which follow its base port
pub struct X64Serial16550Uart {
    pub m_com_port_number: u32,
    pub m_data: IOPort<u8>,
    pub m_intr_enabled: IOPort<u8>,
    pub m_fifo_ctrl: IOPort<u8>,
    pub m_line_ctrl: IOPort<u8>,
    pub m_modem_ctrl: IOPort<u8>,
    pub m_line_status: IOPort<u8>,
}

/// The bytes that the port receives to show `byte`: a backspace or a delete
/// erases the previous character, moving back, writing a space and moving
/// back again
pub open spec fn spec_send(byte: u8) -> Seq<u8> {
    if byte == 8 || byte == 0x7F {
        seq![8u8, 0x20u8, 8u8]
    } else {
        seq![byte]
    }
}

/// The bytes that the port receives to show `bytes`
pub open spec fn spec_send_all(bytes: Seq<u8>) -> Seq<u8>
    decreases bytes.len(),
{
    if bytes.len() == 0 {
        Seq::empty()
    } else {
        spec_send_all(bytes.drop_last()) + spec_send(bytes.last())
    }
}

impl X64Serial16550Uart {
    /// The registers follow the base port
    pub open spec fn wf(&self) -> bool {
        let base = self.m_data.m_port;
        &&& self.m_intr_enabled.m_port == base + 1
        &&& self.m_fifo_ctrl.m_port == base + 2
        &&& self.m_line_ctrl.m_port == base + 3
        &&& self.m_modem_ctrl.m_port == base + 4
        &&& self.m_line_status.m_port == base + 5
    }

    /// Constructs the uninitialized device of COM1
    pub fn new_com1() -> (r: Self)
        ensures
            r.wf(),
            r.m_data.m_port == 0x3f8,
            r.m_com_port_number == 1,
    {
        Self::new(0x3f8, 1)
    }

    /// Constructs the uninitialized device of COM2
    pub fn new_com2() -> (r: Self)
        ensures
            r.wf(),
            r.m_data.m_port == 0x2e8,
            r.m_com_port_number == 2,
    {
        Self::new(0x2e8, 2)
    }

    /// Constructs the uninitialized device of COM3
    pub fn new_com3() -> (r: Self)
        ensures
            r.wf(),
            r.m_data.m_port == 0x2f8,
            r.m_com_port_number == 3,
    {
        Self::new(0x2f8, 3)
    }

    /// Constructs the uninitialized device of COM4
    pub fn new_com4() -> (r: Self)
        ensures
            r.wf(),
            r.m_data.m_port == 0x3e8,
            r.m_com_port_number == 4,
    {
        Self::new(0x3e8, 4)
    }

    /// Constructs the uninitialized device whose registers begin at
    /// `serial_base`
    pub fn new(serial_base: u16, com_port_number: u32) -> (r: Self)
        requires
            serial_base + 5 <= u16::MAX,
        ensures
            r.wf(),
            r.m_data.m_port == serial_base,
            r.m_com_port_number == com_port_number,
    {
        Self {
            m_com_port_number: com_port_number,
            m_data: IOPort::new(serial_base),
            m_intr_enabled: IOPort::new(serial_base + 1),
            m_fifo_ctrl: IOPort::new(serial_base + 2),
            m_line_ctrl: IOPort::new(serial_base + 3),
            m_modem_ctrl: IOPort::new(serial_base + 4),
            m_line_status: IOPort::new(serial_base + 5),
        }
    }

    /// Returns the writes that initialize the hardware: interrupts off, the
    /// speed at 38400 bps, 8 bit words, the FIFO on with a 14 bytes
    /// watermark, the modem lines ready, and the interrupts on
    pub fn init_hw(&self) -> (r: Vec<PortWrite>)
        ensures
            r@ == seq![
                PortWrite { m_port: self.m_intr_enabled.m_port, m_value: 0x00 },
                PortWrite { m_port: self.m_line_ctrl.m_port, m_value: 0x80 },
                PortWrite { m_port: self.m_data.m_port, m_value: 0x03 },
                PortWrite { m_port: self.m_intr_enabled.m_port, m_value: 0x00 },
                PortWrite { m_port: self.m_line_ctrl.m_port, m_value: 0x03 },
                PortWrite { m_port: self.m_fifo_ctrl.m_port, m_value: 0xC7 },
                PortWrite { m_port: self.m_modem_ctrl.m_port, m_value: 0x0B },
                PortWrite { m_port: self.m_intr_enabled.m_port, m_value: 0x01 },
            ],
    {
        let mut writes: Vec<PortWrite> = Vec::new();
        writes.push(PortWrite { m_port: self.m_intr_enabled.port(), m_value: 0x00 });
        writes.push(PortWrite { m_port: self.m_line_ctrl.port(), m_value: 0x80 });
        writes.push(PortWrite { m_port: self.m_data.port(), m_value: 0x03 });
        writes.push(PortWrite { m_port: self.m_intr_enabled.port(), m_value: 0x00 });
        writes.push(PortWrite { m_port: self.m_line_ctrl.port(), m_value: 0x03 });
        writes.push(PortWrite { m_port: self.m_fifo_ctrl.port(), m_value: 0xC7 });
        writes.push(PortWrite { m_port: self.m_modem_ctrl.port(), m_value: 0x0B });
        writes.push(PortWrite { m_port: self.m_intr_enabled.port(), m_value: 0x01 });
        writes
    }

    /// Tells whether the line status `raw_line_status` shows an empty output
    /// buffer, ready for the next byte
    pub fn is_output_empty(raw_line_status: u8) -> (r: bool)
        ensures
            r == ((raw_line_status >> LINE_STATUS_OUTPUT_EMPTY) & 1 == 1),
    {
        (raw_line_status >> LINE_STATUS_OUTPUT_EMPTY) & 1 == 1
    }

    /// Returns the bytes that the data port receives to show `byte_to_send`
    pub fn send(byte_to_send: u8) -> (r: Vec<u8>)
        ensures
            r@ == spec_send(byte_to_send),
    {
        if byte_to_send == 8 || byte_to_send == 0x7F {
            let mut r: Vec<u8> = Vec::new();
            r.push(8);
            r.push(0x20);
            r.push(8);
            assert(r@ =~= seq![8u8, 0x20u8, 8u8]);
            r
        } else {
            let mut r: Vec<u8> = Vec::new();
            r.push(byte_to_send);
            assert(r@ =~= seq![byte_to_send]);
            r
        }
    }

    /// Returns the bytes that the data port receives to show `str`, byte by
    /// byte of its UTF-8 encoding
    pub fn write_str(str: &str) -> (r: Vec<u8>)
        ensures
            r@ == spec_send_all(str.spec_bytes()),
    {
        let bytes = str.as_bytes();
        let n = bytes.len();
        let mut out: Vec<u8> = Vec::new();
        let mut k: usize = 0;
        while k < n
            invariant
                n == bytes@.len(),
                bytes@ == str.spec_bytes(),
                k <= n,
                out@ == spec_send_all(bytes@.take(k as int)),
            decreases n - k,
        {
            let mut sent = Self::send(bytes[k]);
            proof {
                assert(bytes@.take(k + 1).drop_last() =~= bytes@.take(k as int));
            }
            out.append(&mut sent);
            k = k + 1;
        }
        proof {
            assert(bytes@.take(n as int) =~= bytes@);
        }
        out
    }
}

} // verus!
