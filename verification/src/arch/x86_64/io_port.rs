//! x86_64 I/O port
use vstd::prelude::*;
use core::marker::PhantomData;

verus! {

/// An x86 I/O port which reads and writes values of type `T`
#[derive(Debug)]
pub struct IoPort<T> {
    pub m_port: u16,
    pub _unused: PhantomData<T>,
}

impl<T> IoPort<T> {
    /// Constructs an `IoPort` which reads and writes on the given `port`
    pub fn new(port: u16) -> (r: Self)
        ensures
            r.m_port == port,
    {
        Self { m_port: port, _unused: PhantomData }
    }

    /// Returns the port number
    pub fn port(&self) -> (r: u16)
        ensures
            r == self.m_port,
    {
        self.m_port
    }
}

/// A byte to write to an I/O port
#[derive(Clone, Copy, PartialEq, Eq, Structural, Debug)]
pub struct PortWrite {
    pub m_port: u16,
    pub m_value: u8,
}

} // verus!
