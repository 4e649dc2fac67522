//! An instruction-set emulator for the Game Boy's 8-bit processor.
//!
//! The machine is a register file and a byte-addressed memory. [`instr::execute`]
//! carries out one instruction on it; [`GameBoy::run`] fetches and executes until an
//! instruction fails.

use vstd::prelude::*;

pub mod cpu;
pub mod error;
pub mod instr;
pub mod mem;

verus! {

/// The machine as the contracts see it: the register file and the bytes of memory.
pub struct Machine {
    pub register: cpu::register::Register,
    pub mem: Seq<u8>,
}

impl Machine {
    /// The flags byte.
    pub open spec fn flags(self) -> cpu::register::RegisterF {
        self.register.flags()
    }

    /// This machine with `flags` as its flags byte.
    pub open spec fn with_flags(self, flags: cpu::register::RegisterF) -> Machine {
        Machine { register: self.register.with_flags(flags), ..self }
    }

    /// This machine with `pc` as its program counter.
    pub open spec fn with_pc(self, pc: u16) -> Machine {
        Machine { register: self.register.with_pc(pc), ..self }
    }

    /// This machine with `sp` as its stack pointer.
    pub open spec fn with_sp(self, sp: u16) -> Machine {
        Machine { register: self.register.with_sp(sp), ..self }
    }

    /// The byte at the program counter.
    pub open spec fn next_opcode(self) -> u8 {
        mem::read_byte(self.mem, self.register.pc.pc)
    }

    /// This machine with the program counter moved forward by `steps`, wrapping at 16
    /// bits.
    pub open spec fn advanced(self, steps: u8) -> Machine {
        self.with_pc(((self.register.pc.pc + steps) % 0x1_0000) as u16)
    }

    /// The machine and the outcome after the instruction with the given opcode has
    /// been carried out and the program counter has been moved on by the steps that
    /// the instruction returned. Where the instruction fails no steps are added.
    /// The machine is then as the instruction left it: unchanged, but for a failure
    /// in the second table, where the escape has already moved the program counter
    /// on by one.
    #[verifier::opaque]
    pub open spec fn executed(self, opcode: u8) -> (Machine, Result<(), error::Error>) {
        let (after, steps) = instr::table::execute_spec(opcode, self);
        match steps {
            Ok(steps) => (after.advanced(steps), Ok(())),
            Err(error) => (after, Err(error)),
        }
    }

    /// One turn of the driver: the opcode at the program counter is fetched and
    /// executed.
    pub open spec fn step(self) -> (Machine, Result<(), error::Error>) {
        self.executed(self.next_opcode())
    }

    /// The machine and the outcome after at most `limit` turns of the driver: the
    /// run goes on until an instruction fails, and the error of that instruction is
    /// the outcome.
    pub open spec fn run(self, limit: nat) -> (Machine, Result<(), error::Error>)
        decreases limit,
    {
        if limit == 0 {
            (self, Ok(()))
        } else {
            let (next, done) = self.step();
            match done {
                Ok(_) => next.run((limit - 1) as nat),
                Err(error) => (next, Err(error)),
            }
        }
    }

    /// This machine with `mem` as its memory.
    pub open spec fn with_mem(self, mem: Seq<u8>) -> Machine {
        Machine { mem, ..self }
    }
}

/// The machine: a processor and its memory.
#[derive(Debug)]
pub struct GameBoy {
    pub cpu: cpu::CPU,
    pub mmu: mem::MMU,
}

impl View for GameBoy {
    type V = Machine;

    open spec fn view(&self) -> Machine {
        Machine { register: self.cpu.register, mem: self.mmu@ }
    }
}

impl Default for GameBoy {
    fn default() -> (gb: GameBoy)
        ensures
            gb@.register == cpu::register::Register::zeroed(),
            gb@.mem == Seq::new(mem::ADDRESS_SPACE as nat, |i: int| 0u8),
    {
        GameBoy { cpu: cpu::CPU::default(), mmu: mem::MMU::default() }
    }
}

impl GameBoy {
    /// The byte at the program counter: the opcode of the next instruction.
    pub fn fetch(&self) -> (opcode: u8)
        ensures
            opcode == self@.next_opcode(),
    {
        self.mmu.read_u8(*self.cpu.register.pc)
    }

    /// Fetches and executes instructions until one fails, and returns its error; or
    /// until `limit` instructions have been executed, and returns `Ok`.
    pub fn run(&mut self, limit: u64) -> (done: Result<(), error::Error>)
        ensures
            (final(self)@, done) == old(self)@.run(limit as nat),
    {
        let ghost start = self@;
        let mut left = limit;
        while left > 0
            invariant
                start == old(self)@,
                start.run(limit as nat) == self@.run(left as nat),
            decreases left,
        {
            let ghost before = self@;
            let opcode = self.fetch();
            let done = self.execute(opcode);
            assert(before.step() == (self@, done));
            assert(before.run(left as nat) == match done {
                Ok(_) => self@.run((left - 1) as nat),
                Err(error) => (self@, Err(error)),
            });
            match done {
                Ok(_) => {},
                Err(error) => {
                    return Err(error);
                },
            }
            left -= 1;
        }
        Ok(())
    }

    /// Executes the instruction with the given opcode and moves the program counter
    /// on by the steps that it returns.
    pub fn execute(&mut self, opcode: u8) -> (done: Result<(), error::Error>)
        ensures
            (final(self)@, done) == old(self)@.executed(opcode),
    {
        proof {
            reveal(Machine::executed);
        }
        let steps = instr::execute(opcode, self)?;
        self.advance_pc(steps);
        Ok(())
    }

    /// Moves the program counter forward by `steps`. After the last address comes the
    /// first.
    pub fn advance_pc(&mut self, steps: u8)
        ensures
            final(self)@ == old(self)@.advanced(steps),
    {
        let pc: &mut u16 = &mut self.cpu.register.pc;
        *pc = pc.wrapping_add(steps as u16);
    }
}

/// An opcode that names no instruction stops the run at once: the machine stays as
/// it is, and the error names the opcode.
pub proof fn law_unmapped_opcode_stops(m: Machine, limit: nat)
    requires
        instr::table::is_unmapped(m.next_opcode()),
        limit > 0,
    ensures
        m.step() == (m, Err::<(), error::Error>(error::Error::UnmappedOpcode(m.next_opcode()))),
        m.run(limit) == m.step(),
{
    reveal(Machine::executed);
}

/// A run that has failed stays failed however many more turns it is given, and a run
/// of no turns changes nothing.
pub proof fn law_run_stops_at_error(m: Machine, limit: nat, more: nat)
    requires
        m.run(limit).1 is Err,
    ensures
        m.run(limit + more) == m.run(limit),
        m.run(0) == (m, Ok::<(), error::Error>(())),
    decreases limit,
{
    if limit > 0 {
        let (next, done) = m.step();
        if done is Ok {
            law_run_stops_at_error(next, (limit - 1) as nat, more);
            assert(m.run(limit + more) == next.run((limit + more - 1) as nat));
        }
    }
}

} // verus!
