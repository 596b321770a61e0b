use crate::cpu::step_spec;
use crate::cpu::word_of_bytes;
use crate::cpu::Cpu;
use crate::cpu::Step;
use crate::cpu::VmError;
use crate::cpu::VmState;
use crate::cpu::MEM_SIZE;
use vstd::prelude::*;

verus! {

/// The virtual machine: a thin shell around the execution engine.
pub struct Machine {
    cpu: Cpu,
}

impl View for Machine {
    type V = VmState;

    closed spec fn view(&self) -> VmState {
        self.cpu@
    }
}

impl Machine {
    /// Well-formed: the memory holds exactly 32768 words.
    pub open spec fn wf(self) -> bool {
        self@.mem.len() == crate::cpu::MEM_SIZE as int
    }

    /// A fresh machine: program counter at 0, registers zeroed, stack empty,
    /// memory zeroed.
    pub fn new() -> (m: Machine)
        ensures
            m.wf(),
            m@.pc == 0,
            m@.regs == seq![0u16, 0u16, 0u16, 0u16, 0u16, 0u16, 0u16, 0u16],
            m@.stack == Seq::<u16>::empty(),
            forall|a: int| 0 <= a < MEM_SIZE as int ==> m@.mem[a] == 0,
    {
        Machine { cpu: Cpu::new() }
    }

    /// Load a binary image into memory: consecutive byte pairs, low byte
    /// first, become the words at addresses 0, 1, 2, ... The rest of memory,
    /// the registers, the stack and the program counter are untouched.
    pub fn load_bin(&mut self, bin: &Vec<u8>)
        requires
            old(self).wf(),
            bin@.len() % 2 == 0,
            bin@.len() <= 2 * MEM_SIZE as int,
        ensures
            final(self).wf(),
            final(self)@.pc == old(self)@.pc,
            final(self)@.regs == old(self)@.regs,
            final(self)@.stack == old(self)@.stack,
            forall|i: int|
                0 <= i < bin@.len() / 2 ==> final(self)@.mem[i] == word_of_bytes(
                    bin@[2 * i],
                    bin@[2 * i + 1],
                ),
            forall|i: int|
                bin@.len() / 2 <= i < MEM_SIZE as int ==> final(self)@.mem[i] == old(
                    self,
                )@.mem[i],
    {
        self.cpu.load_bin(bin);
    }

    /// One fetch-decode-execute cycle, exactly as `step_spec` states.
    pub fn cycle(&mut self, input: Option<u8>) -> (r: Result<Step, VmError>)
        requires
            old(self).wf(),
        ensures
            final(self).wf(),
            (final(self)@, r) == step_spec(old(self)@, input),
    {
        self.cpu.cycle(input)
    }
}

} // verus!
