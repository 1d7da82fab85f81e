//! Virtual & physical address wrappers
use vstd::prelude::*;

pub mod phys;
pub mod phys_addr;
pub mod virt_addr;

verus! {

/// `Address` creation error: holds the raw address that was refused
#[derive(Clone, Copy, PartialEq, Eq, Structural, Debug)]
pub struct AddressErr(pub u64);

impl AddressErr {
    /// Returns the raw address that was refused
    pub fn raw_value(&self) -> (r: u64)
        ensures
            r == self.0,
    {
        self.0
    }
}

} // verus!
