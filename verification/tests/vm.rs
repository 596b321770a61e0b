use synacor_vm::cpu::{Cpu, Step, VmError};
use synacor_vm::machine::Machine;
use synacor_vm::op::Opcode;

/// Little-endian byte image of a word list, low byte first.
fn image(words: &[u16]) -> Vec<u8> {
    let mut bytes: Vec<u8> = Vec::new();
    for w in words {
        bytes.push((w & 0xff) as u8);
        bytes.push((w >> 8) as u8);
    }
    bytes
}

/// A machine with the given program loaded at address 0.
fn loaded(words: &[u16]) -> Cpu {
    let mut cpu = Cpu::new();
    let bytes = image(words);
    cpu.load_bin(&bytes);
    cpu
}

/// Run until halt or fault, collecting output bytes; panics if the program
/// does not finish within the cycle limit.
fn run(cpu: &mut Cpu, limit: usize) -> (Vec<u8>, Result<(), VmError>) {
    let mut out: Vec<u8> = Vec::new();
    for _ in 0..limit {
        match cpu.cycle(None) {
            Ok(Step::Running) => {}
            Ok(Step::Output(b)) => out.push(b),
            Ok(Step::Halted) => return (out, Ok(())),
            Err(e) => return (out, Err(e)),
        }
    }
    panic!("program did not finish within the cycle limit");
}

#[test]
fn register_write_then_read_returns_value() {
    let mut cpu = Cpu::new();
    for i in 0..8u16 {
        let reg = 32768 + i;
        let v = 1000 + 17 * i;
        assert_eq!(cpu.set_reg(reg, v), Ok(()));
        assert_eq!(cpu.get_reg(reg), Ok(v));
    }
    // Writing one register leaves the others alone.
    assert_eq!(cpu.get_reg(32768), Ok(1000));
    assert_eq!(cpu.get_reg(32775), Ok(1000 + 17 * 7));
}

#[test]
fn unknown_register_faults() {
    let mut cpu = Cpu::new();
    assert_eq!(cpu.get_reg(32776), Err(VmError::UnknownRegister));
    assert_eq!(cpu.get_reg(5), Err(VmError::UnknownRegister));
    assert_eq!(cpu.set_reg(32776, 1), Err(VmError::UnknownRegister));
    assert_eq!(cpu.set_reg(0, 1), Err(VmError::UnknownRegister));
}

#[test]
fn resolve_literal_passes_through() {
    let mut cpu = Cpu::new();
    assert_eq!(cpu.parse_number(0), Ok(0));
    assert_eq!(cpu.parse_number(12345), Ok(12345));
    assert_eq!(cpu.parse_number(32767), Ok(32767));
}

#[test]
fn resolve_register_reads_register() {
    let mut cpu = Cpu::new();
    cpu.r3 = 999;
    assert_eq!(cpu.parse_number(32771), Ok(999));
    assert_eq!(cpu.parse_number(32768), Ok(0));
}

#[test]
fn resolve_invalid_range_faults() {
    let mut cpu = Cpu::new();
    assert_eq!(cpu.parse_number(32776), Err(VmError::InvalidOperand));
    assert_eq!(cpu.parse_number(40000), Err(VmError::InvalidOperand));
    assert_eq!(cpu.parse_number(65535), Err(VmError::InvalidOperand));
}

#[test]
fn decode_all_opcodes() {
    let expected = [
        Opcode::Halt,
        Opcode::SetReg,
        Opcode::Push,
        Opcode::Pop,
        Opcode::Eq,
        Opcode::Gt,
        Opcode::Jmp,
        Opcode::Jt,
        Opcode::Jf,
        Opcode::Add,
        Opcode::Mult,
        Opcode::Mod,
        Opcode::And,
        Opcode::Or,
        Opcode::Not,
        Opcode::Rmem,
        Opcode::Wmem,
        Opcode::Call,
        Opcode::Ret,
        Opcode::Out,
        Opcode::In,
        Opcode::Noop,
    ];
    for (num, op) in expected.iter().enumerate() {
        assert_eq!(Opcode::parse(num as u16), Ok(*op));
    }
    assert_eq!(Opcode::parse(22), Err(VmError::UnknownOpcode));
    assert_eq!(Opcode::parse(65535), Err(VmError::UnknownOpcode));
}

#[test]
fn unknown_opcode_faults_the_run() {
    let mut cpu = loaded(&[22]);
    assert_eq!(cpu.cycle(None), Err(VmError::UnknownOpcode));
}

#[test]
fn add_reduces_modulo_32768() {
    let mut cpu = loaded(&[9, 32768, 32758, 15, 0]);
    assert_eq!(cpu.cycle(None), Ok(Step::Running));
    assert_eq!(cpu.r0, 5);
}

#[test]
fn add_exact_value() {
    let mut cpu = loaded(&[9, 32769, 1200, 34, 0]);
    assert_eq!(cpu.cycle(None), Ok(Step::Running));
    assert_eq!(cpu.r1, 1234);
}

#[test]
fn mult_reduces_modulo_32768() {
    // 4000 * 4000 = 16000000, and 16000000 mod 32768 = 9216.
    let mut cpu = loaded(&[10, 32768, 4000, 4000, 0]);
    assert_eq!(cpu.cycle(None), Ok(Step::Running));
    assert_eq!(cpu.r0, 9216);
}

#[test]
fn mult_matches_wrapping_semantics() {
    // Wrapping 16-bit multiplication followed by mod 32768 agrees with
    // the full product mod 32768.
    let a: u16 = 31000;
    let b: u16 = 29000;
    let mut cpu = loaded(&[10, 32768, a, b, 0]);
    assert_eq!(cpu.cycle(None), Ok(Step::Running));
    assert_eq!(cpu.r0, a.wrapping_mul(b) % 32768);
    assert_eq!(cpu.r0 as u64, (a as u64 * b as u64) % 32768);
}

#[test]
fn mod_computes_remainder() {
    let mut cpu = loaded(&[11, 32768, 17, 5, 0]);
    assert_eq!(cpu.cycle(None), Ok(Step::Running));
    assert_eq!(cpu.r0, 2);
}

#[test]
fn mod_zero_divisor_faults() {
    let mut cpu = loaded(&[11, 32768, 17, 0, 0]);
    assert_eq!(cpu.cycle(None), Err(VmError::InvalidOperand));
}

#[test]
fn eq_and_gt_store_one_or_zero() {
    let mut cpu = loaded(&[4, 32768, 7, 7, 4, 32769, 7, 8, 5, 32770, 9, 8, 5, 32771, 8, 9, 0]);
    assert_eq!(cpu.cycle(None), Ok(Step::Running));
    assert_eq!(cpu.cycle(None), Ok(Step::Running));
    assert_eq!(cpu.cycle(None), Ok(Step::Running));
    assert_eq!(cpu.cycle(None), Ok(Step::Running));
    assert_eq!(cpu.r0, 1);
    assert_eq!(cpu.r1, 0);
    assert_eq!(cpu.r2, 1);
    assert_eq!(cpu.r3, 0);
}

#[test]
fn and_or_are_bitwise() {
    let mut cpu = loaded(&[12, 32768, 0b1100, 0b1010, 13, 32769, 0b1100, 0b1010, 0]);
    assert_eq!(cpu.cycle(None), Ok(Step::Running));
    assert_eq!(cpu.cycle(None), Ok(Step::Running));
    assert_eq!(cpu.r0, 0b1000);
    assert_eq!(cpu.r1, 0b1110);
}

#[test]
fn not_is_fifteen_bit_complement() {
    let mut cpu = loaded(&[14, 32768, 0, 14, 32769, 5, 14, 32770, 32767, 0]);
    assert_eq!(cpu.cycle(None), Ok(Step::Running));
    assert_eq!(cpu.cycle(None), Ok(Step::Running));
    assert_eq!(cpu.cycle(None), Ok(Step::Running));
    assert_eq!(cpu.r0, 32767);
    assert_eq!(cpu.r1, !5u16 & 0x7fff);
    assert_eq!(cpu.r1, 32762);
    assert_eq!(cpu.r2, 0);
}

#[test]
fn stack_is_lifo() {
    let mut cpu = loaded(&[2, 1, 2, 2, 3, 32768, 3, 32769, 0]);
    assert_eq!(cpu.cycle(None), Ok(Step::Running));
    assert_eq!(cpu.cycle(None), Ok(Step::Running));
    assert_eq!(cpu.stack, vec![1, 2]);
    assert_eq!(cpu.cycle(None), Ok(Step::Running));
    assert_eq!(cpu.cycle(None), Ok(Step::Running));
    assert_eq!(cpu.r0, 2);
    assert_eq!(cpu.r1, 1);
    assert!(cpu.stack.is_empty());
}

#[test]
fn pop_on_empty_stack_underflows() {
    let mut cpu = loaded(&[3, 32768]);
    assert_eq!(cpu.cycle(None), Err(VmError::StackUnderflow));
    assert_eq!(cpu.r0, 0);
}

#[test]
fn ret_on_empty_stack_underflows() {
    let mut cpu = loaded(&[18]);
    assert_eq!(cpu.cycle(None), Err(VmError::StackUnderflow));
}

#[test]
fn set_with_invalid_destination_faults() {
    let mut cpu = loaded(&[1, 40000, 5]);
    assert_eq!(cpu.cycle(None), Err(VmError::UnknownRegister));
}

#[test]
fn out_emits_low_eight_bits() {
    let mut cpu = loaded(&[19, 321, 0]);
    let (out, end) = run(&mut cpu, 10);
    assert_eq!(out, vec![65]);
    assert_eq!(end, Ok(()));
}

#[test]
fn out_of_invalid_operand_faults() {
    let mut cpu = loaded(&[19, 40000]);
    assert_eq!(cpu.cycle(None), Err(VmError::InvalidOperand));
}

#[test]
fn in_stores_byte_and_retries_after_fault() {
    let mut cpu = loaded(&[20, 32768, 20, 32769, 0]);
    assert_eq!(cpu.cycle(Some(65)), Ok(Step::Running));
    assert_eq!(cpu.r0, 65);
    // Without a byte the In instruction faults and changes nothing, so the
    // same instruction can be retried once a byte is available.
    assert_eq!(cpu.cycle(None), Err(VmError::InputExhausted));
    assert_eq!(cpu.cycle(Some(7)), Ok(Step::Running));
    assert_eq!(cpu.r1, 7);
}

#[test]
fn wmem_then_rmem_round_trips() {
    let mut cpu = loaded(&[16, 100, 4242, 15, 32768, 100, 0]);
    assert_eq!(cpu.cycle(None), Ok(Step::Running));
    assert_eq!(cpu.read_mem(100), 4242);
    assert_eq!(cpu.cycle(None), Ok(Step::Running));
    assert_eq!(cpu.r0, 4242);
}

#[test]
fn load_bin_round_trips_word_for_word() {
    let words = [0u16, 1, 2, 21, 32767, 32768, 40000, 65535, 9, 19];
    let mut cpu = Cpu::new();
    let bytes = image(&words);
    cpu.load_bin(&bytes);
    for (i, w) in words.iter().enumerate() {
        assert_eq!(cpu.read_mem(i as u16), *w);
    }
    // Memory past the image stays zeroed.
    assert_eq!(cpu.read_mem(words.len() as u16), 0);
    assert_eq!(cpu.read_mem(32767), 0);
}

#[test]
fn load_bin_keeps_rest_of_state() {
    let mut cpu = Cpu::new();
    cpu.r5 = 77;
    cpu.stack.push(3);
    cpu.load_bin(&image(&[21, 0]));
    assert_eq!(cpu.r5, 77);
    assert_eq!(cpu.stack, vec![3]);
    assert_eq!(cpu.get_opcode(), 21);
}

#[test]
fn get_opcode_reads_word_at_pc() {
    let mut cpu = loaded(&[21, 19, 65, 0]);
    assert_eq!(cpu.get_opcode(), 21);
    assert_eq!(cpu.cycle(None), Ok(Step::Running));
    assert_eq!(cpu.get_opcode(), 19);
}

#[test]
fn machine_runs_a_program() {
    let mut m = Machine::new();
    m.load_bin(&image(&[1, 32768, 65, 19, 32768, 0]));
    let mut out: Vec<u8> = Vec::new();
    loop {
        match m.cycle(None) {
            Ok(Step::Running) => {}
            Ok(Step::Output(b)) => out.push(b),
            Ok(Step::Halted) => break,
            Err(e) => panic!("unexpected fault {:?}", e),
        }
    }
    assert_eq!(out, vec![b'A']);
}
