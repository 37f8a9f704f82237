//! A store to a memory-mapped hardware register, as a plain value. The library decides which
//! register gets which value; the program that owns the hardware carries the store out.

use vstd::prelude::*;

verus! {

/// A 32 bit store of `value` to the register at the uncached address `address`.
#[derive(Clone, Copy, Debug, PartialEq, Eq, Structural)]
pub struct RegisterWrite {
    pub address: u32,
    pub value: u32,
}

impl RegisterWrite {
    /// The store of `value` to `address`.
    pub fn new(address: u32, value: u32) -> (r: Self)
        ensures
            r == (RegisterWrite { address, value }),
    {
        RegisterWrite { address, value }
    }
}

} // verus!
