use crate::op::{decode_spec, Opcode};
use vstd::prelude::*;

verus! {

/// Number of addressable words of memory; also the first word that does not
/// stand for itself when used as an operand.
pub const MEM_SIZE: u16 = 32768;

/// The fault kinds that abort a run. InvalidOperand names a word outside
/// 0..=32775 resolved as a value; it also covers an address outside memory
/// and a zero divisor, the two other ways an operand can be unusable.
#[derive(Clone, Copy, Debug, PartialEq, Eq, Structural)]
pub enum VmError {
    InvalidOperand,
    UnknownRegister,
    UnknownOpcode,
    StackUnderflow,
    InputExhausted,
}

/// What one instruction cycle reports back: the run goes on, the run halted
/// cleanly, or one byte was written to the output stream (and the run goes on).
#[derive(Clone, Copy, Debug, PartialEq, Eq, Structural)]
pub enum Step {
    Running,
    Halted,
    Output(u8),
}

/// The mathematical state of the machine: the program counter, the eight
/// registers, the stack (top at the end), and the 32768 words of memory.
#[verifier::ext_equal]
pub struct VmState {
    pub pc: u16,
    pub regs: Seq<u16>,
    pub stack: Seq<u16>,
    pub mem: Seq<u16>,
}

/// A word below 32768 stands for itself when used as an operand.
pub open spec fn is_literal(w: u16) -> bool {
    w < 32768
}

/// A word in 32768..=32775 names one of the eight registers.
pub open spec fn is_reg_ref(w: u16) -> bool {
    32768 <= w && w <= 32775
}

/// The effective value of an operand word: a literal passes through, a
/// register reference reads the named register, and every other word is an
/// invalid operand.
pub open spec fn resolve_spec(regs: Seq<u16>, w: u16) -> Result<u16, VmError> {
    if is_literal(w) {
        Ok(w)
    } else if is_reg_ref(w) {
        Ok(regs[w - 32768])
    } else {
        Err(VmError::InvalidOperand)
    }
}

/// The word stored at address a, or a fault when a lies outside memory.
pub open spec fn word_at(s: VmState, a: int) -> Result<u16, VmError> {
    if 0 <= a && a < MEM_SIZE as int {
        Ok(s.mem[a])
    } else {
        Err(VmError::InvalidOperand)
    }
}

/// Fetch the operand word `step` places past the program counter and
/// resolve it to its effective value.
pub open spec fn read_loc_spec(s: VmState, step: u16) -> Result<u16, VmError> {
    match word_at(s, s.pc + step) {
        Ok(w) => resolve_spec(s.regs, w),
        Err(e) => Err(e),
    }
}

/// Store v in the register named by dst and move the program counter to
/// new_pc; a dst outside the register range faults with UnknownRegister and
/// changes nothing.
pub open spec fn store_reg(s: VmState, dst: u16, v: u16, new_pc: int) -> (VmState, Result<
    Step,
    VmError,
>) {
    if is_reg_ref(dst) {
        (
            VmState {
                pc: new_pc as u16,
                regs: s.regs.update(dst - 32768, v),
                stack: s.stack,
                mem: s.mem,
            },
            Ok(Step::Running),
        )
    } else {
        (s, Err(VmError::UnknownRegister))
    }
}

/// The seven instructions that combine two resolved values into a register.
pub open spec fn is_binop(op: Opcode) -> bool {
    op == Opcode::Add || op == Opcode::Mult || op == Opcode::Mod || op == Opcode::Eq || op
        == Opcode::Gt || op == Opcode::And || op == Opcode::Or
}

/// The value a two-operand instruction computes from its resolved operands.
/// Add and Mult reduce modulo 32768; Mod faults on a zero divisor.
pub open spec fn binop_value(op: Opcode, b: u16, c: u16) -> Result<u16, VmError> {
    match op {
        Opcode::Add => Ok((((b as int) + (c as int)) % 32768) as u16),
        Opcode::Mult => Ok((((b as int) * (c as int)) % 32768) as u16),
        Opcode::Mod => if c == 0 {
            Err(VmError::InvalidOperand)
        } else {
            Ok(((b as int) % (c as int)) as u16)
        },
        Opcode::Eq => Ok(if b == c { 1u16 } else { 0u16 }),
        Opcode::Gt => Ok(if b > c { 1u16 } else { 0u16 }),
        Opcode::And => Ok(b & c),
        Opcode::Or => Ok(b | c),
        _ => Err(VmError::UnknownOpcode),
    }
}

/// A two-operand instruction: read the destination word, resolve both value
/// operands, combine them, store the result, and step past the four words.
pub open spec fn step_binop(s: VmState, op: Opcode) -> (VmState, Result<Step, VmError>) {
    match word_at(s, s.pc + 1) {
        Err(e) => (s, Err(e)),
        Ok(dst) => match read_loc_spec(s, 2) {
            Err(e) => (s, Err(e)),
            Ok(b) => match read_loc_spec(s, 3) {
                Err(e) => (s, Err(e)),
                Ok(c) => match binop_value(op, b, c) {
                    Err(e) => (s, Err(e)),
                    Ok(v) => store_reg(s, dst, v, s.pc + 4),
                },
            },
        },
    }
}

/// Set: the destination register receives the resolved value operand.
pub open spec fn step_set(s: VmState) -> (VmState, Result<Step, VmError>) {
    match word_at(s, s.pc + 1) {
        Err(e) => (s, Err(e)),
        Ok(dst) => match read_loc_spec(s, 2) {
            Err(e) => (s, Err(e)),
            Ok(v) => store_reg(s, dst, v, s.pc + 3),
        },
    }
}

/// Not: the destination register receives the 15-bit complement of the
/// resolved value operand.
pub open spec fn step_not(s: VmState) -> (VmState, Result<Step, VmError>) {
    match word_at(s, s.pc + 1) {
        Err(e) => (s, Err(e)),
        Ok(dst) => match read_loc_spec(s, 2) {
            Err(e) => (s, Err(e)),
            Ok(v) => store_reg(s, dst, !v & 0x7fff, s.pc + 3),
        },
    }
}

/// Push: the resolved value operand goes on top of the stack.
pub open spec fn step_push(s: VmState) -> (VmState, Result<Step, VmError>) {
    match read_loc_spec(s, 1) {
        Err(e) => (s, Err(e)),
        Ok(v) => (
            VmState { pc: (s.pc + 2) as u16, regs: s.regs, stack: s.stack.push(v), mem: s.mem },
            Ok(Step::Running),
        ),
    }
}

/// Pop: the top of the stack moves into the destination register; an empty
/// stack faults with StackUnderflow.
pub open spec fn step_pop(s: VmState) -> (VmState, Result<Step, VmError>) {
    if s.stack.len() == 0 {
        (s, Err(VmError::StackUnderflow))
    } else {
        match word_at(s, s.pc + 1) {
            Err(e) => (s, Err(e)),
            Ok(dst) => if is_reg_ref(dst) {
                (
                    VmState {
                        pc: (s.pc + 2) as u16,
                        regs: s.regs.update(dst - 32768, s.stack.last()),
                        stack: s.stack.drop_last(),
                        mem: s.mem,
                    },
                    Ok(Step::Running),
                )
            } else {
                (s, Err(VmError::UnknownRegister))
            },
        }
    }
}

/// Jmp: the program counter moves to the resolved target.
pub open spec fn step_jmp(s: VmState) -> (VmState, Result<Step, VmError>) {
    match read_loc_spec(s, 1) {
        Err(e) => (s, Err(e)),
        Ok(t) => (
            VmState { pc: t, regs: s.regs, stack: s.stack, mem: s.mem },
            Ok(Step::Running),
        ),
    }
}

/// Jt: branch to the resolved target exactly when the resolved value is
/// non-zero; otherwise step past the three words. The target operand is
/// only read when the branch is taken.
pub open spec fn step_jt(s: VmState) -> (VmState, Result<Step, VmError>) {
    match read_loc_spec(s, 1) {
        Err(e) => (s, Err(e)),
        Ok(cond) => if cond != 0 {
            match read_loc_spec(s, 2) {
                Err(e) => (s, Err(e)),
                Ok(t) => (
                    VmState { pc: t, regs: s.regs, stack: s.stack, mem: s.mem },
                    Ok(Step::Running),
                ),
            }
        } else {
            (
                VmState { pc: (s.pc + 3) as u16, regs: s.regs, stack: s.stack, mem: s.mem },
                Ok(Step::Running),
            )
        },
    }
}

/// Jf: branch to the resolved target exactly when the resolved value is
/// zero; otherwise step past the three words. The target operand is only
/// read when the branch is taken.
pub open spec fn step_jf(s: VmState) -> (VmState, Result<Step, VmError>) {
    match read_loc_spec(s, 1) {
        Err(e) => (s, Err(e)),
        Ok(cond) => if cond == 0 {
            match read_loc_spec(s, 2) {
                Err(e) => (s, Err(e)),
                Ok(t) => (
                    VmState { pc: t, regs: s.regs, stack: s.stack, mem: s.mem },
                    Ok(Step::Running),
                ),
            }
        } else {
            (
                VmState { pc: (s.pc + 3) as u16, regs: s.regs, stack: s.stack, mem: s.mem },
                Ok(Step::Running),
            )
        },
    }
}

/// Call: the address of the word after the instruction goes on the stack,
/// and the program counter moves to the resolved target.
pub open spec fn step_call(s: VmState) -> (VmState, Result<Step, VmError>) {
    match read_loc_spec(s, 1) {
        Err(e) => (s, Err(e)),
        Ok(t) => (
            VmState {
                pc: t,
                regs: s.regs,
                stack: s.stack.push((s.pc + 2) as u16),
                mem: s.mem,
            },
            Ok(Step::Running),
        ),
    }
}

/// Ret: the program counter moves to the popped top of the stack; an empty
/// stack faults with StackUnderflow.
pub open spec fn step_ret(s: VmState) -> (VmState, Result<Step, VmError>) {
    if s.stack.len() == 0 {
        (s, Err(VmError::StackUnderflow))
    } else {
        (
            VmState { pc: s.stack.last(), regs: s.regs, stack: s.stack.drop_last(), mem: s.mem },
            Ok(Step::Running),
        )
    }
}

/// Out: the low 8 bits of the resolved value are written to the output
/// stream.
pub open spec fn step_out(s: VmState) -> (VmState, Result<Step, VmError>) {
    match read_loc_spec(s, 1) {
        Err(e) => (s, Err(e)),
        Ok(v) => (
            VmState { pc: (s.pc + 2) as u16, regs: s.regs, stack: s.stack, mem: s.mem },
            Ok(Step::Output((v % 256) as u8)),
        ),
    }
}

/// In: one byte from the input stream, zero-extended, moves into the
/// destination register; an absent byte faults with InputExhausted.
pub open spec fn step_in(s: VmState, input: Option<u8>) -> (VmState, Result<Step, VmError>) {
    match word_at(s, s.pc + 1) {
        Err(e) => (s, Err(e)),
        Ok(dst) => match input {
            None => (s, Err(VmError::InputExhausted)),
            Some(b) => store_reg(s, dst, b as u16, s.pc + 2),
        },
    }
}

/// Rmem: the word at the resolved address moves into the destination
/// register.
pub open spec fn step_rmem(s: VmState) -> (VmState, Result<Step, VmError>) {
    match word_at(s, s.pc + 1) {
        Err(e) => (s, Err(e)),
        Ok(dst) => match read_loc_spec(s, 2) {
            Err(e) => (s, Err(e)),
            Ok(loc) => if loc < MEM_SIZE {
                store_reg(s, dst, s.mem[loc as int], s.pc + 3)
            } else {
                (s, Err(VmError::InvalidOperand))
            },
        },
    }
}

/// Wmem: the resolved value is written to memory at the resolved address.
pub open spec fn step_wmem(s: VmState) -> (VmState, Result<Step, VmError>) {
    match read_loc_spec(s, 1) {
        Err(e) => (s, Err(e)),
        Ok(a) => match read_loc_spec(s, 2) {
            Err(e) => (s, Err(e)),
            Ok(b) => if a < MEM_SIZE {
                (
                    VmState {
                        pc: (s.pc + 3) as u16,
                        regs: s.regs,
                        stack: s.stack,
                        mem: s.mem.update(a as int, b),
                    },
                    Ok(Step::Running),
                )
            } else {
                (s, Err(VmError::InvalidOperand))
            },
        },
    }
}

/// Noop: only the program counter moves.
pub open spec fn step_noop(s: VmState) -> (VmState, Result<Step, VmError>) {
    (
        VmState { pc: (s.pc + 1) as u16, regs: s.regs, stack: s.stack, mem: s.mem },
        Ok(Step::Running),
    )
}

/// One fetch-decode-execute cycle over the abstract state: fetch the word at
/// the program counter, decode it, and apply the instruction's semantics.
/// On a fault the state is returned unchanged.
pub open spec fn step_spec(s: VmState, input: Option<u8>) -> (VmState, Result<Step, VmError>) {
    match word_at(s, s.pc as int) {
        Err(e) => (s, Err(e)),
        Ok(w) => match decode_spec(w) {
            Err(e) => (s, Err(e)),
            Ok(op) => match op {
                Opcode::Halt => (s, Ok(Step::Halted)),
                Opcode::SetReg => step_set(s),
                Opcode::Push => step_push(s),
                Opcode::Pop => step_pop(s),
                Opcode::Eq => step_binop(s, op),
                Opcode::Gt => step_binop(s, op),
                Opcode::Jmp => step_jmp(s),
                Opcode::Jt => step_jt(s),
                Opcode::Jf => step_jf(s),
                Opcode::Add => step_binop(s, op),
                Opcode::Mult => step_binop(s, op),
                Opcode::Mod => step_binop(s, op),
                Opcode::And => step_binop(s, op),
                Opcode::Or => step_binop(s, op),
                Opcode::Not => step_not(s),
                Opcode::Rmem => step_rmem(s),
                Opcode::Wmem => step_wmem(s),
                Opcode::Call => step_call(s),
                Opcode::Ret => step_ret(s),
                Opcode::Out => step_out(s),
                Opcode::In => step_in(s, input),
                Opcode::Noop => step_noop(s),
            },
        },
    }
}

/// The word two little-endian bytes encode: low byte first.
pub open spec fn word_of_bytes(lo: u8, hi: u8) -> u16 {
    (lo + 256 * hi) as u16
}

/// The low byte of a word's little-endian encoding.
pub open spec fn lo_byte(w: u16) -> u8 {
    (w % 256) as u8
}

/// The high byte of a word's little-endian encoding.
pub open spec fn hi_byte(w: u16) -> u8 {
    (w / 256) as u8
}

/// The little-endian byte image of a word sequence, low byte first.
pub open spec fn bytes_of_words(ws: Seq<u16>) -> Seq<u8> {
    Seq::new(
        2 * ws.len(),
        |i: int| if i % 2 == 0 {
            lo_byte(ws[i / 2])
        } else {
            hi_byte(ws[i / 2])
        },
    )
}

/// The execution engine: registers, stack, memory and program counter,
/// driven one instruction at a time by `cycle`.
pub struct Cpu {
    opcode: u16,
    pc: u16,
    pub r0: u16,
    pub r1: u16,
    pub r2: u16,
    pub r3: u16,
    pub r4: u16,
    pub r5: u16,
    pub r6: u16,
    pub r7: u16,
    pub stack: Vec<u16>,
    memory: Vec<u16>,
}

impl View for Cpu {
    type V = VmState;

    closed spec fn view(&self) -> VmState {
        VmState {
            pc: self.pc,
            regs: seq![self.r0, self.r1, self.r2, self.r3, self.r4, self.r5, self.r6, self.r7],
            stack: self.stack@,
            mem: self.memory@,
        }
    }
}

impl Cpu {
    /// Well-formed: the memory holds exactly 32768 words. Established by
    /// `new` and preserved by every operation.
    pub open spec fn wf(self) -> bool {
        self@.mem.len() == MEM_SIZE as int
    }

    /// A fresh machine: program counter at 0, registers zeroed, stack empty,
    /// memory zeroed.
    pub fn new() -> (c: Cpu)
        ensures
            c.wf(),
            c@.pc == 0,
            c@.regs == seq![0u16, 0u16, 0u16, 0u16, 0u16, 0u16, 0u16, 0u16],
            c@.stack == Seq::<u16>::empty(),
            forall|a: int| 0 <= a < MEM_SIZE as int ==> c@.mem[a] == 0,
    {
        let mut memory: Vec<u16> = Vec::new();
        while memory.len() < 32768
            invariant
                memory@.len() <= 32768,
                forall|a: int| 0 <= a < memory@.len() ==> memory@[a] == 0,
            decreases 32768 - memory@.len(),
        {
            memory.push(0u16);
        }
        let c = Cpu {
            opcode: 0,
            pc: 0,
            r0: 0,
            r1: 0,
            r2: 0,
            r3: 0,
            r4: 0,
            r5: 0,
            r6: 0,
            r7: 0,
            stack: Vec::new(),
            memory,
        };
        proof {
            assert(c@.stack =~= Seq::<u16>::empty());
        }
        c
    }

    /// Load a binary image into memory: consecutive byte pairs, low byte
    /// first, become the words at addresses 0, 1, 2, ... The rest of memory,
    /// the registers, the stack and the program counter are untouched.
    pub fn load_bin(&mut self, bin: &Vec<u8>)
        requires
            old(self).wf(),
            bin@.len() % 2 == 0,
            bin@.len() <= 2 * MEM_SIZE as int,
        ensures
            final(self).wf(),
            final(self)@.pc == old(self)@.pc,
            final(self)@.regs == old(self)@.regs,
            final(self)@.stack == old(self)@.stack,
            forall|i: int|
                0 <= i < bin@.len() / 2 ==> final(self)@.mem[i] == word_of_bytes(
                    bin@[2 * i],
                    bin@[2 * i + 1],
                ),
            forall|i: int|
                bin@.len() / 2 <= i < MEM_SIZE as int ==> final(self)@.mem[i] == old(
                    self,
                )@.mem[i],
    {
        let n: usize = bin.len() / 2;
        let mut count: usize = 0;
        while count < n
            invariant
                self.wf(),
                n == bin@.len() / 2,
                bin@.len() <= 2 * MEM_SIZE as int,
                count <= n,
                self@.pc == old(self)@.pc,
                self@.regs == old(self)@.regs,
                self@.stack == old(self)@.stack,
                forall|i: int|
                    0 <= i < count ==> self@.mem[i] == word_of_bytes(bin@[2 * i], bin@[2 * i + 1]),
                forall|i: int| count <= i < MEM_SIZE as int ==> self@.mem[i] == old(self)@.mem[i],
            decreases n - count,
        {
            let lower: u8 = bin[2 * count];
            let upper: u8 = bin[2 * count + 1];
            let value: u16 = (lower as u16) + 256 * (upper as u16);
            self.memory[count] = value;
            count = count + 1;
        }
    }

    /// The word at the current program counter, to be decoded next.
    pub fn get_opcode(&mut self) -> (r: u16)
        requires
            old(self).wf(),
            old(self)@.pc < MEM_SIZE,
        ensures
            *final(self) == *old(self),
            r == old(self)@.mem[old(self)@.pc as int],
    {
        self.memory[self.pc as usize]
    }

    /// The word stored at the given memory address.
    pub fn read_mem(&self, address: u16) -> (w: u16)
        requires
            self.wf(),
            address < MEM_SIZE,
        ensures
            w == self@.mem[address as int],
    {
        self.memory[address as usize]
    }

    /// Read the register named by a word in 32768..=32775; any other word
    /// faults with UnknownRegister.
    pub fn get_reg(&mut self, register: u16) -> (r: Result<u16, VmError>)
        ensures
            *final(self) == *old(self),
            is_reg_ref(register) ==> r == Ok::<u16, VmError>(old(self)@.regs[register - 32768]),
            !is_reg_ref(register) ==> r == Err::<u16, VmError>(VmError::UnknownRegister),
    {
        match register {
            32768 => Ok(self.r0),
            32769 => Ok(self.r1),
            32770 => Ok(self.r2),
            32771 => Ok(self.r3),
            32772 => Ok(self.r4),
            32773 => Ok(self.r5),
            32774 => Ok(self.r6),
            32775 => Ok(self.r7),
            _ => Err(VmError::UnknownRegister),
        }
    }

    /// Write a value to the register named by a word in 32768..=32775; any
    /// other word faults with UnknownRegister and changes nothing.
    pub fn set_reg(&mut self, register: u16, value: u16) -> (r: Result<(), VmError>)
        ensures
            is_reg_ref(register) ==> r == Ok::<(), VmError>(())
                && final(self)@.regs == old(self)@.regs.update(register - 32768, value)
                && final(self)@.pc == old(self)@.pc
                && final(self)@.stack == old(self)@.stack
                && final(self)@.mem == old(self)@.mem,
            !is_reg_ref(register) ==> r == Err::<(), VmError>(VmError::UnknownRegister)
                && *final(self) == *old(self),
            final(self).wf() == old(self).wf(),
    {
        match register {
            32768 => {
                self.r0 = value;
            },
            32769 => {
                self.r1 = value;
            },
            32770 => {
                self.r2 = value;
            },
            32771 => {
                self.r3 = value;
            },
            32772 => {
                self.r4 = value;
            },
            32773 => {
                self.r5 = value;
            },
            32774 => {
                self.r6 = value;
            },
            32775 => {
                self.r7 = value;
            },
            _ => {
                return Err(VmError::UnknownRegister);
            },
        }
        proof {
            assert(self@.regs =~= old(self)@.regs.update(register - 32768, value));
        }
        Ok(())
    }

    /// Fetch the operand word `step` places past the program counter and
    /// resolve it.
    fn read_location(&mut self, step: u16) -> (r: Result<u16, VmError>)
        requires
            old(self).wf(),
            old(self)@.pc < MEM_SIZE,
            step <= 3,
        ensures
            *final(self) == *old(self),
            r == read_loc_spec(old(self)@, step),
    {
        let idx: usize = self.pc as usize + step as usize;
        if idx >= 32768 {
            return Err(VmError::InvalidOperand);
        }
        let number: u16 = self.memory[idx];
        self.parse_number(number)
    }

    /// Set: the destination register receives the resolved value operand.
    fn exec_set(&mut self) -> (r: Result<Step, VmError>)
        requires
            old(self).wf(),
            old(self)@.pc < MEM_SIZE,
        ensures
            final(self).wf(),
            (final(self)@, r) == step_set(old(self)@),
    {
        let pcu: usize = self.pc as usize;
        if pcu + 1 >= 32768 {
            return Err(VmError::InvalidOperand);
        }
        let number: u16 = self.memory[pcu + 1];
        let value: u16 = match self.read_location(2) {
            Ok(v) => v,
            Err(e) => {
                return Err(e);
            },
        };
        match self.set_reg(number, value) {
            Ok(()) => {
                self.pc = self.pc + 3;
                Ok(Step::Running)
            },
            Err(e) => Err(e),
        }
    }

    /// Push: the resolved value operand goes on top of the stack.
    fn exec_push(&mut self) -> (r: Result<Step, VmError>)
        requires
            old(self).wf(),
            old(self)@.pc < MEM_SIZE,
        ensures
            final(self).wf(),
            (final(self)@, r) == step_push(old(self)@),
    {
        let a: u16 = match self.read_location(1) {
            Ok(v) => v,
            Err(e) => {
                return Err(e);
            },
        };
        self.stack.push(a);
        self.pc = self.pc + 2;
        Ok(Step::Running)
    }

    /// Pop: the top of the stack moves into the destination register.
    fn exec_pop(&mut self) -> (r: Result<Step, VmError>)
        requires
            old(self).wf(),
            old(self)@.pc < MEM_SIZE,
        ensures
            final(self).wf(),
            (final(self)@, r) == step_pop(old(self)@),
    {
        if self.stack.len() == 0 {
            return Err(VmError::StackUnderflow);
        }
        let pcu: usize = self.pc as usize;
        if pcu + 1 >= 32768 {
            return Err(VmError::InvalidOperand);
        }
        let reg: u16 = self.memory[pcu + 1];
        if reg < 32768 || reg > 32775 {
            return Err(VmError::UnknownRegister);
        }
        let value: u16 = match self.stack.pop() {
            Some(v) => v,
            None => {
                proof {
                    assert(false);
                }
                return Err(VmError::StackUnderflow);
            },
        };
        match self.set_reg(reg, value) {
            Ok(()) => {
                self.pc = self.pc + 2;
                proof {
                    assert(self@.stack =~= old(self)@.stack.drop_last());
                }
                Ok(Step::Running)
            },
            Err(e) => {
                proof {
                    assert(false);
                }
                Err(e)
            },
        }
    }

    /// A two-operand instruction: combine the two resolved values and store
    /// the result in the destination register.
    fn exec_binop(&mut self, op: Opcode) -> (r: Result<Step, VmError>)
        requires
            old(self).wf(),
            old(self)@.pc < MEM_SIZE,
            is_binop(op),
        ensures
            final(self).wf(),
            (final(self)@, r) == step_binop(old(self)@, op),
    {
        let pcu: usize = self.pc as usize;
        if pcu + 1 >= 32768 {
            return Err(VmError::InvalidOperand);
        }
        let number: u16 = self.memory[pcu + 1];
        let b: u16 = match self.read_location(2) {
            Ok(v) => v,
            Err(e) => {
                return Err(e);
            },
        };
        let c: u16 = match self.read_location(3) {
            Ok(v) => v,
            Err(e) => {
                return Err(e);
            },
        };
        let value: u16 = match op {
            Opcode::Add => (((b as u32) + (c as u32)) % 32768) as u16,
            Opcode::Mult => {
                proof {
                    assert((b as int) * (c as int) <= 65535 * 65535) by (nonlinear_arith)
                        requires
                            b <= 65535,
                            c <= 65535,
                    ;
                }
                (((b as u32) * (c as u32)) % 32768) as u16
            },
            Opcode::Mod => {
                if c == 0 {
                    return Err(VmError::InvalidOperand);
                }
                b % c
            },
            Opcode::Eq => if b == c {
                1
            } else {
                0
            },
            Opcode::Gt => if b > c {
                1
            } else {
                0
            },
            Opcode::And => b & c,
            Opcode::Or => b | c,
            _ => {
                proof {
                    assert(false);
                }
                return Err(VmError::UnknownOpcode);
            },
        };
        match self.set_reg(number, value) {
            Ok(()) => {
                self.pc = self.pc + 4;
                Ok(Step::Running)
            },
            Err(e) => Err(e),
        }
    }

    /// Not: the destination register receives the 15-bit complement of the
    /// resolved value operand.
    fn exec_not(&mut self) -> (r: Result<Step, VmError>)
        requires
            old(self).wf(),
            old(self)@.pc < MEM_SIZE,
        ensures
            final(self).wf(),
            (final(self)@, r) == step_not(old(self)@),
    {
        let pcu: usize = self.pc as usize;
        if pcu + 1 >= 32768 {
            return Err(VmError::InvalidOperand);
        }
        let reg: u16 = self.memory[pcu + 1];
        let number: u16 = match self.read_location(2) {
            Ok(v) => v,
            Err(e) => {
                return Err(e);
            },
        };
        match self.set_reg(reg, !number & 0x7fff) {
            Ok(()) => {
                self.pc = self.pc + 3;
                Ok(Step::Running)
            },
            Err(e) => Err(e),
        }
    }

    /// Jmp: the program counter moves to the resolved target.
    fn exec_jmp(&mut self) -> (r: Result<Step, VmError>)
        requires
            old(self).wf(),
            old(self)@.pc < MEM_SIZE,
        ensures
            final(self).wf(),
            (final(self)@, r) == step_jmp(old(self)@),
    {
        let location: u16 = match self.read_location(1) {
            Ok(v) => v,
            Err(e) => {
                return Err(e);
            },
        };
        self.pc = location;
        Ok(Step::Running)
    }

    /// Jt: branch to the resolved target exactly when the resolved value is
    /// non-zero.
    fn exec_jt(&mut self) -> (r: Result<Step, VmError>)
        requires
            old(self).wf(),
            old(self)@.pc < MEM_SIZE,
        ensures
            final(self).wf(),
            (final(self)@, r) == step_jt(old(self)@),
    {
        let cond: u16 = match self.read_location(1) {
            Ok(v) => v,
            Err(e) => {
                return Err(e);
            },
        };
        if cond != 0 {
            let t: u16 = match self.read_location(2) {
                Ok(v) => v,
                Err(e) => {
                    return Err(e);
                },
            };
            self.pc = t;
        } else {
            self.pc = self.pc + 3;
        }
        Ok(Step::Running)
    }

    /// Jf: branch to the resolved target exactly when the resolved value is
    /// zero.
    fn exec_jf(&mut self) -> (r: Result<Step, VmError>)
        requires
            old(self).wf(),
            old(self)@.pc < MEM_SIZE,
        ensures
            final(self).wf(),
            (final(self)@, r) == step_jf(old(self)@),
    {
        let cond: u16 = match self.read_location(1) {
            Ok(v) => v,
            Err(e) => {
                return Err(e);
            },
        };
        if cond == 0 {
            let t: u16 = match self.read_location(2) {
                Ok(v) => v,
                Err(e) => {
                    return Err(e);
                },
            };
            self.pc = t;
        } else {
            self.pc = self.pc + 3;
        }
        Ok(Step::Running)
    }

    /// Call: push the return address, then jump to the resolved target.
    fn exec_call(&mut self) -> (r: Result<Step, VmError>)
        requires
            old(self).wf(),
            old(self)@.pc < MEM_SIZE,
        ensures
            final(self).wf(),
            (final(self)@, r) == step_call(old(self)@),
    {
        let call: u16 = match self.read_location(1) {
            Ok(v) => v,
            Err(e) => {
                return Err(e);
            },
        };
        self.stack.push(self.pc + 2);
        self.pc = call;
        Ok(Step::Running)
    }

    /// Ret: the program counter moves to the popped top of the stack.
    fn exec_ret(&mut self) -> (r: Result<Step, VmError>)
        requires
            old(self).wf(),
            old(self)@.pc < MEM_SIZE,
        ensures
            final(self).wf(),
            (final(self)@, r) == step_ret(old(self)@),
    {
        let value: u16 = match self.stack.pop() {
            Some(v) => v,
            None => {
                return Err(VmError::StackUnderflow);
            },
        };
        self.pc = value;
        proof {
            assert(self@.stack =~= old(self)@.stack.drop_last());
        }
        Ok(Step::Running)
    }

    /// Out: report the low 8 bits of the resolved value as one output byte.
    fn exec_out(&mut self) -> (r: Result<Step, VmError>)
        requires
            old(self).wf(),
            old(self)@.pc < MEM_SIZE,
        ensures
            final(self).wf(),
            (final(self)@, r) == step_out(old(self)@),
    {
        let value: u16 = match self.read_location(1) {
            Ok(v) => v,
            Err(e) => {
                return Err(e);
            },
        };
        self.pc = self.pc + 2;
        Ok(Step::Output((value % 256) as u8))
    }

    /// In: store the supplied input byte, zero-extended, in the destination
    /// register; without a byte the run faults with InputExhausted.
    fn exec_in(&mut self, input: Option<u8>) -> (r: Result<Step, VmError>)
        requires
            old(self).wf(),
            old(self)@.pc < MEM_SIZE,
        ensures
            final(self).wf(),
            (final(self)@, r) == step_in(old(self)@, input),
    {
        let pcu: usize = self.pc as usize;
        if pcu + 1 >= 32768 {
            return Err(VmError::InvalidOperand);
        }
        let location: u16 = self.memory[pcu + 1];
        match input {
            Some(val) => match self.set_reg(location, val as u16) {
                Ok(()) => {
                    self.pc = self.pc + 2;
                    Ok(Step::Running)
                },
                Err(e) => Err(e),
            },
            None => Err(VmError::InputExhausted),
        }
    }

    /// Rmem: the word at the resolved address moves into the destination
    /// register.
    fn exec_rmem(&mut self) -> (r: Result<Step, VmError>)
        requires
            old(self).wf(),
            old(self)@.pc < MEM_SIZE,
        ensures
            final(self).wf(),
            (final(self)@, r) == step_rmem(old(self)@),
    {
        let pcu: usize = self.pc as usize;
        if pcu + 1 >= 32768 {
            return Err(VmError::InvalidOperand);
        }
        let reg: u16 = self.memory[pcu + 1];
        let location: u16 = match self.read_location(2) {
            Ok(v) => v,
            Err(e) => {
                return Err(e);
            },
        };
        if location >= MEM_SIZE {
            return Err(VmError::InvalidOperand);
        }
        let value: u16 = self.memory[location as usize];
        match self.set_reg(reg, value) {
            Ok(()) => {
                self.pc = self.pc + 3;
                Ok(Step::Running)
            },
            Err(e) => Err(e),
        }
    }

    /// Wmem: the resolved value is written to memory at the resolved
    /// address.
    fn exec_wmem(&mut self) -> (r: Result<Step, VmError>)
        requires
            old(self).wf(),
            old(self)@.pc < MEM_SIZE,
        ensures
            final(self).wf(),
            (final(self)@, r) == step_wmem(old(self)@),
    {
        let a: u16 = match self.read_location(1) {
            Ok(v) => v,
            Err(e) => {
                return Err(e);
            },
        };
        let b: u16 = match self.read_location(2) {
            Ok(v) => v,
            Err(e) => {
                return Err(e);
            },
        };
        if a >= MEM_SIZE {
            return Err(VmError::InvalidOperand);
        }
        self.memory[a as usize] = b;
        self.pc = self.pc + 3;
        Ok(Step::Running)
    }

    /// One fetch-decode-execute cycle. The word at the program counter is
    /// decoded and its instruction applied, exactly as `step_spec` states:
    /// the run either goes on, reports an output byte, halts, or faults
    /// with the state unchanged. The In instruction consumes the supplied
    /// input byte and faults with InputExhausted when there is none.
    pub fn cycle(&mut self, input: Option<u8>) -> (r: Result<Step, VmError>)
        requires
            old(self).wf(),
        ensures
            final(self).wf(),
            (final(self)@, r) == step_spec(old(self)@, input),
    {
        if self.pc >= MEM_SIZE {
            return Err(VmError::InvalidOperand);
        }
        self.opcode = self.memory[self.pc as usize];
        let op: Opcode = match Opcode::parse(self.opcode) {
            Ok(op) => op,
            Err(e) => {
                return Err(e);
            },
        };
        match op {
            Opcode::Halt => Ok(Step::Halted),
            Opcode::SetReg => self.exec_set(),
            Opcode::Push => self.exec_push(),
            Opcode::Pop => self.exec_pop(),
            Opcode::Eq => self.exec_binop(op),
            Opcode::Gt => self.exec_binop(op),
            Opcode::Jmp => self.exec_jmp(),
            Opcode::Jt => self.exec_jt(),
            Opcode::Jf => self.exec_jf(),
            Opcode::Add => self.exec_binop(op),
            Opcode::Mult => self.exec_binop(op),
            Opcode::Mod => self.exec_binop(op),
            Opcode::And => self.exec_binop(op),
            Opcode::Or => self.exec_binop(op),
            Opcode::Not => self.exec_not(),
            Opcode::Rmem => self.exec_rmem(),
            Opcode::Wmem => self.exec_wmem(),
            Opcode::Call => self.exec_call(),
            Opcode::Ret => self.exec_ret(),
            Opcode::Out => self.exec_out(),
            Opcode::In => self.exec_in(input),
            Opcode::Noop => {
                self.pc = self.pc + 1;
                Ok(Step::Running)
            },
        }
    }

    /// Resolve a raw word to its effective value: literals pass through,
    /// register references read the register, and every word in
    /// 32776..=65535 faults with InvalidOperand. No side effects.
    pub fn parse_number(&mut self, number: u16) -> (r: Result<u16, VmError>)
        ensures
            *final(self) == *old(self),
            r == resolve_spec(old(self)@.regs, number),
    {
        if number < 32768 {
            Ok(number)
        } else if number <= 32775 {
            self.get_reg(number)
        } else {
            Err(VmError::InvalidOperand)
        }
    }
}

} // verus!
