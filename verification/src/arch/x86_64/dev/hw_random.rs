//! x86_64 random devices and the choice of the early devices
use vstd::prelude::*;

verus! {

/// Bit of the `ecx` register of `cpuid` leaf 1 that tells RDRAND support
pub const CPUID_ECX_RDRAND: u32 = 30;

/// Tells whether the `ecx` register that `cpuid` leaf 1 gave shows RDRAND
/// support
pub fn rdrand_supported(cpuid_ecx: u32) -> (r: bool)
    ensures
        r == (cpuid_ecx & (1u32 << CPUID_ECX_RDRAND) != 0),
{
    cpuid_ecx & (1u32 << CPUID_ECX_RDRAND) != 0
}

/// Random numbers from the RDRAND instruction
#[derive(Clone, Copy, PartialEq, Eq, Structural, Debug)]
pub struct X64RdRandRandom {
    pub m_serial_value: u32,
}

impl X64RdRandRandom {
    /// Constructs the device when the `ecx` register that `cpuid` leaf 1 gave
    /// shows RDRAND support
    pub fn try_new(serial_value: u32, cpuid_ecx: u32) -> (r: Option<Self>)
        ensures
            r is Some <==> (cpuid_ecx & (1u32 << CPUID_ECX_RDRAND) != 0),
            r matches Some(device) ==> device.m_serial_value == serial_value,
    {
        if rdrand_supported(cpuid_ecx) {
            Some(Self { m_serial_value: serial_value })
        } else {
            None
        }
    }
}

/// Random numbers from the RDTSC instruction
#[derive(Clone, Copy, PartialEq, Eq, Structural, Debug)]
pub struct X64RdTscRandom {
    pub m_serial_value: u32,
}

impl X64RdTscRandom {
    /// Constructs the device
    pub fn new(serial_value: u32) -> (r: Self)
        ensures
            r.m_serial_value == serial_value,
    {
        Self { m_serial_value: serial_value }
    }

    /// The random `u16` of the time stamp counter `tsc`: its low bits
    pub fn random_u16(tsc: u64) -> (r: u16)
        ensures
            r == tsc % 0x1_0000,
    {
        let r = tsc as u16;
        assert(tsc as u16 == tsc % 0x1_0000) by (bit_vector);
        r
    }

    /// The random `u32` of the time stamp counter `tsc`: its low bits
    pub fn random_u32(tsc: u64) -> (r: u32)
        ensures
            r == tsc % 0x1_0000_0000,
    {
        let r = tsc as u32;
        assert(tsc as u32 == tsc % 0x1_0000_0000) by (bit_vector);
        r
    }

    /// The random `u64` of the time stamp counter `tsc`: the counter itself
    pub fn random_u64(tsc: u64) -> (r: u64)
        ensures
            r == tsc,
    {
        tsc
    }
}

/// The architecture's random generator, which relies on RDRAND
#[derive(Clone, Copy, PartialEq, Eq, Structural, Debug)]
pub struct HwRandom;

impl HwRandom {
    /// Constructs the generator on a CPU whose `cpuid` leaf 1 `ecx` register
    /// shows RDRAND support
    pub fn new(cpuid_ecx: u32) -> (r: Self)
        requires
            cpuid_ecx & (1u32 << CPUID_ECX_RDRAND) != 0,
        ensures
            r == HwRandom,
    {
        HwRandom
    }
}

/// The early device drivers
#[derive(Clone, Copy, PartialEq, Eq, Structural, Debug)]
pub enum EarlyDevice {
    /// Random numbers from RDRAND
    RdRandRandom,
    /// Random numbers from RDTSC, when RDRAND is missing
    RdTscRandom,
    /// The serial port of the given COM number
    SerialCom(u32),
}

/// What the registration of the early devices asks next
#[derive(Clone, Copy, PartialEq, Eq, Structural, Debug)]
pub enum EarlyRegistration {
    /// Register this device
    Register(EarlyDevice),
    /// Every early device is registered
    Done,
    /// The registration of this device was refused: the boot cannot go on
    Failed(EarlyDevice),
}

/// What follows the registration of `device`, accepted or refused: a refused
/// RDRAND device gives way to the RDTSC one; the serial ports follow from
/// COM1 to COM4; any other refusal is a failure
pub open spec fn spec_after_registration(device: EarlyDevice, accepted: bool) -> EarlyRegistration {
    match device {
        EarlyDevice::RdRandRandom => if accepted {
            EarlyRegistration::Register(EarlyDevice::SerialCom(1))
        } else {
            EarlyRegistration::Register(EarlyDevice::RdTscRandom)
        },
        EarlyDevice::RdTscRandom => if accepted {
            EarlyRegistration::Register(EarlyDevice::SerialCom(1))
        } else {
            EarlyRegistration::Failed(EarlyDevice::RdTscRandom)
        },
        EarlyDevice::SerialCom(n) => if !accepted {
            EarlyRegistration::Failed(EarlyDevice::SerialCom(n))
        } else if n < 4 {
            EarlyRegistration::Register(EarlyDevice::SerialCom((n + 1) as u32))
        } else {
            EarlyRegistration::Done
        },
    }
}

/// The manager of the device drivers
pub struct DevManager;

impl DevManager {
    /// Starts the registration of the early devices: the RDRAND random
    /// device comes first
    pub fn register_early_devices(&self) -> (r: EarlyRegistration)
        ensures
            r == EarlyRegistration::Register(EarlyDevice::RdRandRandom),
    {
        EarlyRegistration::Register(EarlyDevice::RdRandRandom)
    }

    /// Decides what follows the registration of `device`, `accepted` telling
    /// whether it was accepted
    pub fn after_registration(&self, device: EarlyDevice, accepted: bool) -> (r: EarlyRegistration)
        requires
            device matches EarlyDevice::SerialCom(n) ==> 1 <= n <= 4,
        ensures
            r == spec_after_registration(device, accepted),
    {
        match device {
            EarlyDevice::RdRandRandom => if accepted {
                EarlyRegistration::Register(EarlyDevice::SerialCom(1))
            } else {
                EarlyRegistration::Register(EarlyDevice::RdTscRandom)
            },
            EarlyDevice::RdTscRandom => if accepted {
                EarlyRegistration::Register(EarlyDevice::SerialCom(1))
            } else {
                EarlyRegistration::Failed(EarlyDevice::RdTscRandom)
            },
            EarlyDevice::SerialCom(n) => if !accepted {
                EarlyRegistration::Failed(EarlyDevice::SerialCom(n))
            } else if n < 4 {
                EarlyRegistration::Register(EarlyDevice::SerialCom(n + 1))
            } else {
                EarlyRegistration::Done
            },
        }
    }
}

} // verus!
