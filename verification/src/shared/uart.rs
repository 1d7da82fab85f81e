//! Universal asynchronous receiver-transmitter writer
use vstd::prelude::*;

verus! {

/// The write of a string to the UART failed
#[derive(Clone, Copy, PartialEq, Eq, Structural, Debug)]
pub struct UartWriteError;

/// The hardware side of a UART, which the architecture implements
pub trait HwUartBase: Sized {
    /// Constructs the uninitialized hardware object
    fn new() -> Self;

    /// Initializes the hardware to make it ready to receive bytes; called
    /// once per instance
    fn init_hw(&mut self) -> bool;

    /// Sends the string to the hardware
    fn write_str(&mut self, s: &str) -> Result<(), UartWriteError>;
}

/// A possibly uninitialized hardware UART, whose hardware initialization is
/// attempted at most once
pub struct UartWriterInner<T: HwUartBase> {
    pub m_inited: bool,
    pub m_init_attempted: bool,
    pub m_inner: T,
}

impl<T: HwUartBase> UartWriterInner<T> {
    /// Constructs an uninitialized `UartWriterInner`, whose hardware
    /// initialization was not attempted yet
    pub fn new() -> (r: Self)
        ensures
            !r.m_inited,
            !r.m_init_attempted,
    {
        Self { m_inited: false, m_init_attempted: false, m_inner: T::new() }
    }

    /// Initializes the hardware: the first call runs `HwUartBase::init_hw`
    /// once and records its result, which it returns; every later call
    /// returns the recorded result and leaves the hardware object untouched
    pub fn init(&mut self) -> (r: bool)
        ensures
            old(self).m_init_attempted ==> r == old(self).m_inited && *final(self) == *old(self),
            !old(self).m_init_attempted ==> final(self).m_init_attempted && final(self).m_inited
                == r,
    {
        if self.m_init_attempted {
            /* the hardware initialization was already attempted */
            self.m_inited
        } else {
            let ready = self.m_inner.init_hw();
            self.m_init_attempted = true;
            self.m_inited = ready;
            ready
        }
    }

    /// Decides the sending of `str`: while the hardware is not initialized
    /// the write fails; once it is, `str` is what the hardware receives, as
    /// it is, through `HwUartBase::write_str`
    pub fn write_str<'a>(&self, str: &'a str) -> (r: Result<&'a str, UartWriteError>)
        ensures
            !self.m_inited ==> r == Err::<&'a str, UartWriteError>(UartWriteError),
            self.m_inited ==> r == Ok::<&'a str, UartWriteError>(str),
    {
        if self.m_inited {
            Ok(str)
        } else {
            Err(UartWriteError)
        }
    }
}

} // verus!
