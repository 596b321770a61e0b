use crate::cpu::bytes_of_words;
use crate::cpu::hi_byte;
use crate::cpu::is_reg_ref;
use crate::cpu::lo_byte;
use crate::cpu::resolve_spec;
use crate::cpu::step_spec;
use crate::cpu::word_of_bytes;
use crate::cpu::Step;
use crate::cpu::VmError;
use crate::cpu::VmState;
use crate::cpu::MEM_SIZE;
use crate::op::OPCODE_ADD;
use crate::op::OPCODE_JF;
use crate::op::OPCODE_JT;
use crate::op::OPCODE_MOD;
use crate::op::OPCODE_MULT;
use crate::op::OPCODE_NOT;
use crate::op::OPCODE_POP;
use crate::op::OPCODE_PUSH;
use crate::op::OPCODE_RET;
use vstd::prelude::*;

verus! {

/// Writing a value to a register and then resolving that register's
/// reference word yields the written value, for every register.
pub proof fn lemma_register_write_read(regs: Seq<u16>, r: u16, v: u16)
    requires
        regs.len() == 8,
        is_reg_ref(r),
    ensures
        resolve_spec(regs.update(r - 32768, v), r) == Ok::<u16, VmError>(v),
{
}

/// For all literal operands a and b below 32768: Add stores (a + b) modulo
/// 32768, Mult stores (a * b) modulo 32768, and Mod (with b non-zero)
/// stores a % b; each advances the program counter past the four words.
pub proof fn lemma_arith_semantics(s: VmState, dst: u16, a: u16, b: u16)
    requires
        s.mem.len() == MEM_SIZE as int,
        s.regs.len() == 8,
        s.pc + 3 < MEM_SIZE,
        is_reg_ref(dst),
        a < 32768,
        b < 32768,
        s.mem[s.pc + 1] == dst,
        s.mem[s.pc + 2] == a,
        s.mem[s.pc + 3] == b,
    ensures
        s.mem[s.pc as int] == OPCODE_ADD ==> step_spec(s, None) == (
            VmState {
                pc: (s.pc + 4) as u16,
                regs: s.regs.update(dst - 32768, (((a as int) + (b as int)) % 32768) as u16),
                stack: s.stack,
                mem: s.mem,
            },
            Ok::<Step, VmError>(Step::Running),
        ),
        s.mem[s.pc as int] == OPCODE_MULT ==> step_spec(s, None) == (
            VmState {
                pc: (s.pc + 4) as u16,
                regs: s.regs.update(dst - 32768, (((a as int) * (b as int)) % 32768) as u16),
                stack: s.stack,
                mem: s.mem,
            },
            Ok::<Step, VmError>(Step::Running),
        ),
        s.mem[s.pc as int] == OPCODE_MOD && b != 0 ==> step_spec(s, None) == (
            VmState {
                pc: (s.pc + 4) as u16,
                regs: s.regs.update(dst - 32768, ((a as int) % (b as int)) as u16),
                stack: s.stack,
                mem: s.mem,
            },
            Ok::<Step, VmError>(Step::Running),
        ),
{
}

/// Not stores the bitwise complement of its resolved value masked to 15
/// bits, for every literal operand below 32768; the stored word is again
/// below 32768.
pub proof fn lemma_not_semantics(s: VmState, dst: u16, v: u16)
    requires
        s.mem.len() == MEM_SIZE as int,
        s.regs.len() == 8,
        s.pc + 2 < MEM_SIZE,
        is_reg_ref(dst),
        v < 32768,
        s.mem[s.pc as int] == OPCODE_NOT,
        s.mem[s.pc + 1] == dst,
        s.mem[s.pc + 2] == v,
    ensures
        step_spec(s, None) == (
            VmState {
                pc: (s.pc + 3) as u16,
                regs: s.regs.update(dst - 32768, !v & 0x7fff),
                stack: s.stack,
                mem: s.mem,
            },
            Ok::<Step, VmError>(Step::Running),
        ),
        (!v & 0x7fff) < 32768,
{
    assert((!v & 0x7fff) < 32768) by (bit_vector);
}

/// Push x followed immediately by Pop stores x in the destination register
/// and leaves the stack exactly as it was: the stack is a proper LIFO.
pub proof fn lemma_push_pop_round_trip(s: VmState, x: u16, dst: u16)
    requires
        s.mem.len() == MEM_SIZE as int,
        s.regs.len() == 8,
        s.pc + 3 < MEM_SIZE,
        x < 32768,
        is_reg_ref(dst),
        s.mem[s.pc as int] == OPCODE_PUSH,
        s.mem[s.pc + 1] == x,
        s.mem[s.pc + 2] == OPCODE_POP,
        s.mem[s.pc + 3] == dst,
    ensures
        ({
            let (s1, r1) = step_spec(s, None);
            let (s2, r2) = step_spec(s1, None);
            r1 == Ok::<Step, VmError>(Step::Running) && r2 == Ok::<Step, VmError>(Step::Running)
                && s2.regs == s.regs.update(dst - 32768, x) && s2.stack == s.stack && s2.mem
                == s.mem && s2.pc == s.pc + 4
        }),
{
    let (s1, r1) = step_spec(s, None);
    assert(s1.stack == s.stack.push(x));
    assert(s.stack.push(x).drop_last() =~= s.stack);
}

/// Jt branches exactly when its value operand resolves to non-zero, and Jf
/// exactly when it resolves to zero; otherwise the program counter advances
/// past the instruction's three words.
pub proof fn lemma_branch_semantics(s: VmState, v: u16, t: u16)
    requires
        s.mem.len() == MEM_SIZE as int,
        s.regs.len() == 8,
        s.pc + 2 < MEM_SIZE,
        v < 32768,
        t < 32768,
        s.mem[s.pc + 1] == v,
        s.mem[s.pc + 2] == t,
    ensures
        s.mem[s.pc as int] == OPCODE_JT && v != 0 ==> step_spec(s, None) == (
            VmState { pc: t, regs: s.regs, stack: s.stack, mem: s.mem },
            Ok::<Step, VmError>(Step::Running),
        ),
        s.mem[s.pc as int] == OPCODE_JT && v == 0 ==> step_spec(s, None) == (
            VmState { pc: (s.pc + 3) as u16, regs: s.regs, stack: s.stack, mem: s.mem },
            Ok::<Step, VmError>(Step::Running),
        ),
        s.mem[s.pc as int] == OPCODE_JF && v == 0 ==> step_spec(s, None) == (
            VmState { pc: t, regs: s.regs, stack: s.stack, mem: s.mem },
            Ok::<Step, VmError>(Step::Running),
        ),
        s.mem[s.pc as int] == OPCODE_JF && v != 0 ==> step_spec(s, None) == (
            VmState { pc: (s.pc + 3) as u16, regs: s.regs, stack: s.stack, mem: s.mem },
            Ok::<Step, VmError>(Step::Running),
        ),
{
}

/// Pop and Ret against an empty stack fault with StackUnderflow and leave
/// the state unchanged: no default value is ever produced.
pub proof fn lemma_stack_underflow(s: VmState)
    requires
        s.mem.len() == MEM_SIZE as int,
        s.pc < MEM_SIZE,
        s.stack.len() == 0,
        s.mem[s.pc as int] == OPCODE_POP || s.mem[s.pc as int] == OPCODE_RET,
    ensures
        step_spec(s, None) == (s, Err::<Step, VmError>(VmError::StackUnderflow)),
{
}

/// A cycle that faults leaves the machine exactly as it was: registers,
/// stack, memory and program counter are all unchanged.
pub proof fn lemma_fault_preserves_state(s: VmState, input: Option<u8>)
    requires
        step_spec(s, input).1 is Err,
    ensures
        step_spec(s, input).0 == s,
{
}

/// Resolving any word in 32776..=65535 yields InvalidOperand, whatever the
/// registers hold.
pub proof fn lemma_resolve_invalid(regs: Seq<u16>, w: u16)
    requires
        32776 <= w,
    ensures
        resolve_spec(regs, w) == Err::<u16, VmError>(VmError::InvalidOperand),
{
}

/// A word survives the round trip through its little-endian encoding.
pub proof fn lemma_word_round_trip(w: u16)
    ensures
        word_of_bytes(lo_byte(w), hi_byte(w)) == w,
{
}

/// Loading the little-endian byte image of a word sequence reproduces that
/// sequence word for word: byte pair i of the image encodes exactly word i.
pub proof fn lemma_image_round_trip(ws: Seq<u16>)
    ensures
        bytes_of_words(ws).len() == 2 * ws.len(),
        bytes_of_words(ws).len() % 2 == 0,
        forall|i: int|
            0 <= i < ws.len() ==> word_of_bytes(
                bytes_of_words(ws)[2 * i],
                bytes_of_words(ws)[2 * i + 1],
            ) == ws[i],
{
    assert forall|i: int| 0 <= i < ws.len() implies word_of_bytes(
        bytes_of_words(ws)[2 * i],
        bytes_of_words(ws)[2 * i + 1],
    ) == ws[i] by {
        assert(bytes_of_words(ws)[2 * i] == lo_byte(ws[i]));
        assert(bytes_of_words(ws)[2 * i + 1] == hi_byte(ws[i]));
        lemma_word_round_trip(ws[i]);
    }
}

} // verus!

