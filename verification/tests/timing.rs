//! Tests of the timing module

use ezpc::cpu::timing::{DIRECT_ADDRESS_CYCLES, WORD_TRANSFER_PENALTY, calculate_ea_cycles, calculate_transfer_penalty};
use ezpc::cpu::decode::{Operand, OperandType};

#[test]
fn test_ea_cycles_register() {
    let reg = Operand::reg16(0);
    assert_eq!(calculate_ea_cycles(&reg), 0);
}

#[test]
fn test_ea_cycles_direct() {
    let direct = Operand::new(OperandType::Mem16, 0xFF).with_disp(0x1234);
    assert_eq!(calculate_ea_cycles(&direct), DIRECT_ADDRESS_CYCLES);
}

#[test]
fn test_ea_cycles_bx_si() {
    // [BX+SI] = 7 cycles
    let mem = Operand::mem16(0);
    assert_eq!(calculate_ea_cycles(&mem), 7);
}

#[test]
fn test_ea_cycles_with_disp() {
    // [BX+SI+disp] = 7 + 4 = 11 cycles
    let mem = Operand::mem16_disp(0, 0x10);
    assert_eq!(calculate_ea_cycles(&mem), 11);
}

#[test]
fn test_transfer_penalty_word() {
    let mem16 = Operand::mem16(0);
    assert_eq!(calculate_transfer_penalty(&mem16), WORD_TRANSFER_PENALTY);
}

#[test]
fn test_transfer_penalty_byte() {
    let mem8 = Operand::mem8(0);
    assert_eq!(calculate_transfer_penalty(&mem8), 0);
}
