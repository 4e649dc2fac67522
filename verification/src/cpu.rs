//! The processor: its register file and the flags byte.

use vstd::prelude::*;

pub mod flag;
pub mod register;

verus! {

/// The processor state.
#[derive(Debug)]
pub struct CPU {
    pub register: register::Register,
}

impl Default for CPU {
    fn default() -> (cpu: CPU)
        ensures
            cpu.register == register::Register::zeroed(),
    {
        CPU { register: register::Register::default() }
    }
}

} // verus!
