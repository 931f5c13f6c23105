use zeerust::cpu::opcodes::opcode;
use zeerust::ops::JumpConditional::{
    Carry, NoCarry, NonZero, ParityEven, ParityOdd, SignNegative, SignPositive, Unconditional, Zero,
};
use zeerust::ops::Location16::{Immediate as I16, Reg as R16};
use zeerust::ops::Location8::{Immediate, ImmediateIndirect, Reg, RegIndirect};
use zeerust::ops::Op;
use zeerust::ops::Op::{
    ADC, ADD8, AND, BIT, CCF, CPL, DEC, DJNZ, HALT, IN, INC, JP, JR, LD16, LD8, NEG, NOP, OR, OUT,
    RES, RL, RLA, RLC, RLCA, RLD, RR, RRA, RRC, RRCA, RRD, SBC, SCF, SET, SLA, SRA, SRL, SUB8, XOR,
};
use zeerust::ops::Reg16::{BC, DE, HL, IX, IY, SP};
use zeerust::ops::Reg8::{A, B, C, D, E, H, L};

#[test]
fn test_nop() {
    assert_eq!(opcode([0x00, 0x00, 0x00, 0x00]), Ok((NOP, 1)));
}

#[test]
fn test_halt() {
    assert_eq!(opcode([0x76, 0x00, 0x00, 0x00]), Ok((HALT, 1)));
}

#[test]
fn test_inc() {
    assert_eq!(opcode([0x3C, 0x00, 0x00, 0x00]), Ok((INC(Reg(A)), 1)));
    assert_eq!(opcode([0x04, 0x00, 0x00, 0x00]), Ok((INC(Reg(B)), 1)));
    assert_eq!(opcode([0x0C, 0x00, 0x00, 0x00]), Ok((INC(Reg(C)), 1)));
    assert_eq!(opcode([0x14, 0x00, 0x00, 0x00]), Ok((INC(Reg(D)), 1)));
    assert_eq!(opcode([0x1C, 0x00, 0x00, 0x00]), Ok((INC(Reg(E)), 1)));
    assert_eq!(opcode([0x24, 0x00, 0x00, 0x00]), Ok((INC(Reg(H)), 1)));
    assert_eq!(opcode([0x2C, 0x00, 0x00, 0x00]), Ok((INC(Reg(L)), 1)));

    assert_eq!(opcode([0x34, 0x00, 0x00, 0x00]), Ok((INC(RegIndirect(HL)), 1)));
}

#[test]
fn test_dec() {
    assert_eq!(opcode([0x3D, 0x00, 0x00, 0x00]), Ok((DEC(Reg(A)), 1)));
    assert_eq!(opcode([0x05, 0x00, 0x00, 0x00]), Ok((DEC(Reg(B)), 1)));
    assert_eq!(opcode([0x0D, 0x00, 0x00, 0x00]), Ok((DEC(Reg(C)), 1)));
    assert_eq!(opcode([0x15, 0x00, 0x00, 0x00]), Ok((DEC(Reg(D)), 1)));
    assert_eq!(opcode([0x1D, 0x00, 0x00, 0x00]), Ok((DEC(Reg(E)), 1)));
    assert_eq!(opcode([0x25, 0x00, 0x00, 0x00]), Ok((DEC(Reg(H)), 1)));
    assert_eq!(opcode([0x2D, 0x00, 0x00, 0x00]), Ok((DEC(Reg(L)), 1)));

    assert_eq!(opcode([0x35, 0x00, 0x00, 0x00]), Ok((DEC(RegIndirect(HL)), 1)));
}

#[test]
fn test_add() {
    assert_eq!(opcode([0x87, 0x00, 0x00, 0x00]), Ok((ADD8(Reg(A), Reg(A)), 1)));
    assert_eq!(opcode([0x80, 0x00, 0x00, 0x00]), Ok((ADD8(Reg(A), Reg(B)), 1)));
    assert_eq!(opcode([0x81, 0x00, 0x00, 0x00]), Ok((ADD8(Reg(A), Reg(C)), 1)));
    assert_eq!(opcode([0x82, 0x00, 0x00, 0x00]), Ok((ADD8(Reg(A), Reg(D)), 1)));
    assert_eq!(opcode([0x83, 0x00, 0x00, 0x00]), Ok((ADD8(Reg(A), Reg(E)), 1)));
    assert_eq!(opcode([0x84, 0x00, 0x00, 0x00]), Ok((ADD8(Reg(A), Reg(H)), 1)));
    assert_eq!(opcode([0x85, 0x00, 0x00, 0x00]), Ok((ADD8(Reg(A), Reg(L)), 1)));

    assert_eq!(opcode([0x86, 0x00, 0x00, 0x00]), Ok((ADD8(Reg(A), RegIndirect(HL)), 1)));
    assert_eq!(opcode([0xC6, 0x75, 0x00, 0x00]), Ok((ADD8(Reg(A), Immediate(0x75)), 2)));
}

#[test]
fn test_adc() {
    assert_eq!(opcode([0x8F, 0x00, 0x00, 0x00]), Ok((ADC(Reg(A), Reg(A)), 1)));
    assert_eq!(opcode([0x88, 0x00, 0x00, 0x00]), Ok((ADC(Reg(A), Reg(B)), 1)));
    assert_eq!(opcode([0x89, 0x00, 0x00, 0x00]), Ok((ADC(Reg(A), Reg(C)), 1)));
    assert_eq!(opcode([0x8A, 0x00, 0x00, 0x00]), Ok((ADC(Reg(A), Reg(D)), 1)));
    assert_eq!(opcode([0x8B, 0x00, 0x00, 0x00]), Ok((ADC(Reg(A), Reg(E)), 1)));
    assert_eq!(opcode([0x8C, 0x00, 0x00, 0x00]), Ok((ADC(Reg(A), Reg(H)), 1)));
    assert_eq!(opcode([0x8D, 0x00, 0x00, 0x00]), Ok((ADC(Reg(A), Reg(L)), 1)));

    assert_eq!(opcode([0x8E, 0x00, 0x00, 0x00]), Ok((ADC(Reg(A), RegIndirect(HL)), 1)));
    assert_eq!(opcode([0xCE, 0xF5, 0x00, 0x00]), Ok((ADC(Reg(A), Immediate(0xF5)), 2)));
}

#[test]
fn test_sub() {
    assert_eq!(opcode([0x97, 0x00, 0x00, 0x00]), Ok((SUB8(Reg(A), Reg(A)), 1)));
    assert_eq!(opcode([0x90, 0x00, 0x00, 0x00]), Ok((SUB8(Reg(A), Reg(B)), 1)));
    assert_eq!(opcode([0x91, 0x00, 0x00, 0x00]), Ok((SUB8(Reg(A), Reg(C)), 1)));
    assert_eq!(opcode([0x92, 0x00, 0x00, 0x00]), Ok((SUB8(Reg(A), Reg(D)), 1)));
    assert_eq!(opcode([0x93, 0x00, 0x00, 0x00]), Ok((SUB8(Reg(A), Reg(E)), 1)));
    assert_eq!(opcode([0x94, 0x00, 0x00, 0x00]), Ok((SUB8(Reg(A), Reg(H)), 1)));
    assert_eq!(opcode([0x95, 0x00, 0x00, 0x00]), Ok((SUB8(Reg(A), Reg(L)), 1)));

    assert_eq!(opcode([0x96, 0x00, 0x00, 0x00]), Ok((SUB8(Reg(A), RegIndirect(HL)), 1)));
    assert_eq!(opcode([0xD6, 0x75, 0x00, 0x00]), Ok((SUB8(Reg(A), Immediate(0x75)), 2)));
}

#[test]
fn test_sbc() {
    assert_eq!(opcode([0x9F, 0x00, 0x00, 0x00]), Ok((SBC(Reg(A), Reg(A)), 1)));
    assert_eq!(opcode([0x98, 0x00, 0x00, 0x00]), Ok((SBC(Reg(A), Reg(B)), 1)));
    assert_eq!(opcode([0x99, 0x00, 0x00, 0x00]), Ok((SBC(Reg(A), Reg(C)), 1)));
    assert_eq!(opcode([0x9A, 0x00, 0x00, 0x00]), Ok((SBC(Reg(A), Reg(D)), 1)));
    assert_eq!(opcode([0x9B, 0x00, 0x00, 0x00]), Ok((SBC(Reg(A), Reg(E)), 1)));
    assert_eq!(opcode([0x9C, 0x00, 0x00, 0x00]), Ok((SBC(Reg(A), Reg(H)), 1)));
    assert_eq!(opcode([0x9D, 0x00, 0x00, 0x00]), Ok((SBC(Reg(A), Reg(L)), 1)));

    assert_eq!(opcode([0x9E, 0x00, 0x00, 0x00]), Ok((SBC(Reg(A), RegIndirect(HL)), 1)));
    assert_eq!(opcode([0xDE, 0xF5, 0x00, 0x00]), Ok((SBC(Reg(A), Immediate(0xF5)), 2)));
}

#[test]
fn test_ld_rr() {
    assert_eq!(opcode([0x7F, 0x00, 0x00, 0x00]), Ok((LD8(Reg(A), Reg(A)), 1)));
    assert_eq!(opcode([0x78, 0x00, 0x00, 0x00]), Ok((LD8(Reg(A), Reg(B)), 1)));
    assert_eq!(opcode([0x79, 0x00, 0x00, 0x00]), Ok((LD8(Reg(A), Reg(C)), 1)));
    assert_eq!(opcode([0x7A, 0x00, 0x00, 0x00]), Ok((LD8(Reg(A), Reg(D)), 1)));
    assert_eq!(opcode([0x7B, 0x00, 0x00, 0x00]), Ok((LD8(Reg(A), Reg(E)), 1)));
    assert_eq!(opcode([0x7C, 0x00, 0x00, 0x00]), Ok((LD8(Reg(A), Reg(H)), 1)));
    assert_eq!(opcode([0x7D, 0x00, 0x00, 0x00]), Ok((LD8(Reg(A), Reg(L)), 1)));
    assert_eq!(opcode([0x7E, 0x00, 0x00, 0x00]), Ok((LD8(Reg(A), RegIndirect(HL)), 1)));

    assert_eq!(opcode([0x47, 0x00, 0x00, 0x00]), Ok((LD8(Reg(B), Reg(A)), 1)));
    assert_eq!(opcode([0x40, 0x00, 0x00, 0x00]), Ok((LD8(Reg(B), Reg(B)), 1)));
    assert_eq!(opcode([0x41, 0x00, 0x00, 0x00]), Ok((LD8(Reg(B), Reg(C)), 1)));
    assert_eq!(opcode([0x42, 0x00, 0x00, 0x00]), Ok((LD8(Reg(B), Reg(D)), 1)));
    assert_eq!(opcode([0x43, 0x00, 0x00, 0x00]), Ok((LD8(Reg(B), Reg(E)), 1)));
    assert_eq!(opcode([0x44, 0x00, 0x00, 0x00]), Ok((LD8(Reg(B), Reg(H)), 1)));
    assert_eq!(opcode([0x45, 0x00, 0x00, 0x00]), Ok((LD8(Reg(B), Reg(L)), 1)));
    assert_eq!(opcode([0x46, 0x00, 0x00, 0x00]), Ok((LD8(Reg(B), RegIndirect(HL)), 1)));

    assert_eq!(opcode([0x4F, 0x00, 0x00, 0x00]), Ok((LD8(Reg(C), Reg(A)), 1)));
    assert_eq!(opcode([0x48, 0x00, 0x00, 0x00]), Ok((LD8(Reg(C), Reg(B)), 1)));
    assert_eq!(opcode([0x49, 0x00, 0x00, 0x00]), Ok((LD8(Reg(C), Reg(C)), 1)));
    assert_eq!(opcode([0x4A, 0x00, 0x00, 0x00]), Ok((LD8(Reg(C), Reg(D)), 1)));
    assert_eq!(opcode([0x4B, 0x00, 0x00, 0x00]), Ok((LD8(Reg(C), Reg(E)), 1)));
    assert_eq!(opcode([0x4C, 0x00, 0x00, 0x00]), Ok((LD8(Reg(C), Reg(H)), 1)));
    assert_eq!(opcode([0x4D, 0x00, 0x00, 0x00]), Ok((LD8(Reg(C), Reg(L)), 1)));
    assert_eq!(opcode([0x4E, 0x00, 0x00, 0x00]), Ok((LD8(Reg(C), RegIndirect(HL)), 1)));

    assert_eq!(opcode([0x57, 0x00, 0x00, 0x00]), Ok((LD8(Reg(D), Reg(A)), 1)));
    assert_eq!(opcode([0x50, 0x00, 0x00, 0x00]), Ok((LD8(Reg(D), Reg(B)), 1)));
    assert_eq!(opcode([0x51, 0x00, 0x00, 0x00]), Ok((LD8(Reg(D), Reg(C)), 1)));
    assert_eq!(opcode([0x52, 0x00, 0x00, 0x00]), Ok((LD8(Reg(D), Reg(D)), 1)));
    assert_eq!(opcode([0x53, 0x00, 0x00, 0x00]), Ok((LD8(Reg(D), Reg(E)), 1)));
    assert_eq!(opcode([0x54, 0x00, 0x00, 0x00]), Ok((LD8(Reg(D), Reg(H)), 1)));
    assert_eq!(opcode([0x55, 0x00, 0x00, 0x00]), Ok((LD8(Reg(D), Reg(L)), 1)));
    assert_eq!(opcode([0x56, 0x00, 0x00, 0x00]), Ok((LD8(Reg(D), RegIndirect(HL)), 1)));

    assert_eq!(opcode([0x5F, 0x00, 0x00, 0x00]), Ok((LD8(Reg(E), Reg(A)), 1)));
    assert_eq!(opcode([0x58, 0x00, 0x00, 0x00]), Ok((LD8(Reg(E), Reg(B)), 1)));
    assert_eq!(opcode([0x59, 0x00, 0x00, 0x00]), Ok((LD8(Reg(E), Reg(C)), 1)));
    assert_eq!(opcode([0x5A, 0x00, 0x00, 0x00]), Ok((LD8(Reg(E), Reg(D)), 1)));
    assert_eq!(opcode([0x5B, 0x00, 0x00, 0x00]), Ok((LD8(Reg(E), Reg(E)), 1)));
    assert_eq!(opcode([0x5C, 0x00, 0x00, 0x00]), Ok((LD8(Reg(E), Reg(H)), 1)));
    assert_eq!(opcode([0x5D, 0x00, 0x00, 0x00]), Ok((LD8(Reg(E), Reg(L)), 1)));
    assert_eq!(opcode([0x5E, 0x00, 0x00, 0x00]), Ok((LD8(Reg(E), RegIndirect(HL)), 1)));

    assert_eq!(opcode([0x67, 0x00, 0x00, 0x00]), Ok((LD8(Reg(H), Reg(A)), 1)));
    assert_eq!(opcode([0x60, 0x00, 0x00, 0x00]), Ok((LD8(Reg(H), Reg(B)), 1)));
    assert_eq!(opcode([0x61, 0x00, 0x00, 0x00]), Ok((LD8(Reg(H), Reg(C)), 1)));
    assert_eq!(opcode([0x62, 0x00, 0x00, 0x00]), Ok((LD8(Reg(H), Reg(D)), 1)));
    assert_eq!(opcode([0x63, 0x00, 0x00, 0x00]), Ok((LD8(Reg(H), Reg(E)), 1)));
    assert_eq!(opcode([0x64, 0x00, 0x00, 0x00]), Ok((LD8(Reg(H), Reg(H)), 1)));
    assert_eq!(opcode([0x65, 0x00, 0x00, 0x00]), Ok((LD8(Reg(H), Reg(L)), 1)));
    assert_eq!(opcode([0x66, 0x00, 0x00, 0x00]), Ok((LD8(Reg(H), RegIndirect(HL)), 1)));

    assert_eq!(opcode([0x6F, 0x00, 0x00, 0x00]), Ok((LD8(Reg(L), Reg(A)), 1)));
    assert_eq!(opcode([0x68, 0x00, 0x00, 0x00]), Ok((LD8(Reg(L), Reg(B)), 1)));
    assert_eq!(opcode([0x69, 0x00, 0x00, 0x00]), Ok((LD8(Reg(L), Reg(C)), 1)));
    assert_eq!(opcode([0x6A, 0x00, 0x00, 0x00]), Ok((LD8(Reg(L), Reg(D)), 1)));
    assert_eq!(opcode([0x6B, 0x00, 0x00, 0x00]), Ok((LD8(Reg(L), Reg(E)), 1)));
    assert_eq!(opcode([0x6C, 0x00, 0x00, 0x00]), Ok((LD8(Reg(L), Reg(H)), 1)));
    assert_eq!(opcode([0x6D, 0x00, 0x00, 0x00]), Ok((LD8(Reg(L), Reg(L)), 1)));
    assert_eq!(opcode([0x6E, 0x00, 0x00, 0x00]), Ok((LD8(Reg(L), RegIndirect(HL)), 1)));

    assert_eq!(opcode([0x77, 0x00, 0x00, 0x00]), Ok((LD8(RegIndirect(HL), Reg(A)), 1)));
    assert_eq!(opcode([0x70, 0x00, 0x00, 0x00]), Ok((LD8(RegIndirect(HL), Reg(B)), 1)));
    assert_eq!(opcode([0x71, 0x00, 0x00, 0x00]), Ok((LD8(RegIndirect(HL), Reg(C)), 1)));
    assert_eq!(opcode([0x72, 0x00, 0x00, 0x00]), Ok((LD8(RegIndirect(HL), Reg(D)), 1)));
    assert_eq!(opcode([0x73, 0x00, 0x00, 0x00]), Ok((LD8(RegIndirect(HL), Reg(E)), 1)));
    assert_eq!(opcode([0x74, 0x00, 0x00, 0x00]), Ok((LD8(RegIndirect(HL), Reg(H)), 1)));
    assert_eq!(opcode([0x75, 0x00, 0x00, 0x00]), Ok((LD8(RegIndirect(HL), Reg(L)), 1)));
    // ld (hl), (hl) is HALT
}

#[test]
fn test_ld_immediate() {
    assert_eq!(opcode([0x3E, 0x25, 0x00, 0x00]), Ok((LD8(Reg(A), Immediate(0x25)), 2)));
    assert_eq!(opcode([0x06, 0x99, 0x00, 0x00]), Ok((LD8(Reg(B), Immediate(0x99)), 2)));
    assert_eq!(opcode([0x0E, 0xAA, 0x00, 0x00]), Ok((LD8(Reg(C), Immediate(0xAA)), 2)));
    assert_eq!(opcode([0x16, 0xCD, 0x00, 0x00]), Ok((LD8(Reg(D), Immediate(0xCD)), 2)));
    assert_eq!(opcode([0x1E, 0xDA, 0x00, 0x00]), Ok((LD8(Reg(E), Immediate(0xDA)), 2)));
    assert_eq!(opcode([0x26, 0xFA, 0x00, 0x00]), Ok((LD8(Reg(H), Immediate(0xFA)), 2)));
    assert_eq!(opcode([0x2E, 0xCA, 0x00, 0x00]), Ok((LD8(Reg(L), Immediate(0xCA)), 2)));
    assert_eq!(opcode([0x36, 0xC7, 0x00, 0x00]), Ok((LD8(RegIndirect(HL), Immediate(0xC7)), 2)));
}

#[test]
fn ld_immediate_16() {
    assert_eq!(opcode([0x01, 0xBA, 0xAB, 0x00]), Ok((LD16(R16(BC), I16(0xABBA)), 3)));
    assert_eq!(opcode([0x11, 0xC0, 0xAC, 0x00]), Ok((LD16(R16(DE), I16(0xACC0)), 3)));
    assert_eq!(opcode([0x21, 0x37, 0x13, 0x00]), Ok((LD16(R16(HL), I16(0x1337)), 3)));
    assert_eq!(opcode([0x31, 0x04, 0x40, 0x00]), Ok((LD16(R16(SP), I16(0x4004)), 3)));

    assert_eq!(opcode([0xDD, 0x21, 0xA2, 0x45]), Ok((LD16(R16(IX), I16(0x45A2)), 4)));
    assert_eq!(opcode([0xFD, 0x21, 0xA2, 0x45]), Ok((LD16(R16(IY), I16(0x45A2)), 4)));
}

#[test]
fn test_ld_indirect() {
    // HL is in ld_rr above, because "register" 110 is (HL)
    assert_eq!(opcode([0x0A, 0x00, 0x00, 0x00]), Ok((LD8(Reg(A), RegIndirect(BC)), 1)));
    assert_eq!(opcode([0x1A, 0x00, 0x00, 0x00]), Ok((LD8(Reg(A), RegIndirect(DE)), 1)));
    assert_eq!(opcode([0x3A, 0x32, 0x0F, 0x00]), Ok((LD8(Reg(A), ImmediateIndirect(0x0F32)), 3)));

    assert_eq!(opcode([0x02, 0x00, 0x00, 0x00]), Ok((LD8(RegIndirect(BC), Reg(A)), 1)));
    assert_eq!(opcode([0x12, 0x00, 0x00, 0x00]), Ok((LD8(RegIndirect(DE), Reg(A)), 1)));
    assert_eq!(opcode([0x32, 0xAA, 0x01, 0x00]), Ok((LD8(ImmediateIndirect(0x01AA), Reg(A)), 3)));
}

#[test]
fn cpl() {
    assert_eq!(opcode([0x2f, 0x00, 0x00, 0x00]), Ok((CPL, 1)));
}

#[test]
fn neg() {
    assert_eq!(opcode([0xED, 0x44, 0x00, 0x00]), Ok((NEG, 2)));
}

#[test]
fn ccf() {
    assert_eq!(opcode([0x3F, 0x00, 0x00, 0x00]), Ok((CCF, 1)));
}

#[test]
fn scf() {
    assert_eq!(opcode([0x37, 0x00, 0x00, 0x00]), Ok((SCF, 1)));
}

#[test]
fn and() {
    assert_eq!(opcode([0xA7, 0x00, 0x00, 0x00]), Ok((AND(Reg(A)), 1)));
    assert_eq!(opcode([0xA0, 0x00, 0x00, 0x00]), Ok((AND(Reg(B)), 1)));
    assert_eq!(opcode([0xA1, 0x00, 0x00, 0x00]), Ok((AND(Reg(C)), 1)));
    assert_eq!(opcode([0xA2, 0x00, 0x00, 0x00]), Ok((AND(Reg(D)), 1)));
    assert_eq!(opcode([0xA3, 0x00, 0x00, 0x00]), Ok((AND(Reg(E)), 1)));
    assert_eq!(opcode([0xA4, 0x00, 0x00, 0x00]), Ok((AND(Reg(H)), 1)));
    assert_eq!(opcode([0xA5, 0x00, 0x00, 0x00]), Ok((AND(Reg(L)), 1)));
    assert_eq!(opcode([0xA6, 0x00, 0x00, 0x00]), Ok((AND(RegIndirect(HL)), 1)));

    assert_eq!(opcode([0xE6, 0xAB, 0x00, 0x00]), Ok((AND(Immediate(0xAB)), 2)));
}

#[test]
fn or() {
    assert_eq!(opcode([0xB7, 0x00, 0x00, 0x00]), Ok((OR(Reg(A)), 1)));
    assert_eq!(opcode([0xB0, 0x00, 0x00, 0x00]), Ok((OR(Reg(B)), 1)));
    assert_eq!(opcode([0xB1, 0x00, 0x00, 0x00]), Ok((OR(Reg(C)), 1)));
    assert_eq!(opcode([0xB2, 0x00, 0x00, 0x00]), Ok((OR(Reg(D)), 1)));
    assert_eq!(opcode([0xB3, 0x00, 0x00, 0x00]), Ok((OR(Reg(E)), 1)));
    assert_eq!(opcode([0xB4, 0x00, 0x00, 0x00]), Ok((OR(Reg(H)), 1)));
    assert_eq!(opcode([0xB5, 0x00, 0x00, 0x00]), Ok((OR(Reg(L)), 1)));
    assert_eq!(opcode([0xB6, 0x00, 0x00, 0x00]), Ok((OR(RegIndirect(HL)), 1)));
    assert_eq!(opcode([0xF6, 0xBA, 0x00, 0x00]), Ok((OR(Immediate(0xBA)), 2)));
}

#[test]
fn xor() {
    assert_eq!(opcode([0xAF, 0x00, 0x00, 0x00]), Ok((XOR(Reg(A)), 1)));
    assert_eq!(opcode([0xA8, 0x00, 0x00, 0x00]), Ok((XOR(Reg(B)), 1)));
    assert_eq!(opcode([0xA9, 0x00, 0x00, 0x00]), Ok((XOR(Reg(C)), 1)));
    assert_eq!(opcode([0xAA, 0x00, 0x00, 0x00]), Ok((XOR(Reg(D)), 1)));
    assert_eq!(opcode([0xAB, 0x00, 0x00, 0x00]), Ok((XOR(Reg(E)), 1)));
    assert_eq!(opcode([0xAC, 0x00, 0x00, 0x00]), Ok((XOR(Reg(H)), 1)));
    assert_eq!(opcode([0xAD, 0x00, 0x00, 0x00]), Ok((XOR(Reg(L)), 1)));
    assert_eq!(opcode([0xAE, 0x00, 0x00, 0x00]), Ok((XOR(RegIndirect(HL)), 1)));
    assert_eq!(opcode([0xEE, 0xCA, 0x00, 0x00]), Ok((XOR(Immediate(0xCA)), 2)));
}

#[test]
fn cp() {
    // Name collision on bare CP
    assert_eq!(opcode([0xBF, 0x00, 0x00, 0x00]), Ok((Op::CP(Reg(A)), 1)));
    assert_eq!(opcode([0xB8, 0x00, 0x00, 0x00]), Ok((Op::CP(Reg(B)), 1)));
    assert_eq!(opcode([0xB9, 0x00, 0x00, 0x00]), Ok((Op::CP(Reg(C)), 1)));
    assert_eq!(opcode([0xBA, 0x00, 0x00, 0x00]), Ok((Op::CP(Reg(D)), 1)));
    assert_eq!(opcode([0xBB, 0x00, 0x00, 0x00]), Ok((Op::CP(Reg(E)), 1)));
    assert_eq!(opcode([0xBC, 0x00, 0x00, 0x00]), Ok((Op::CP(Reg(H)), 1)));
    assert_eq!(opcode([0xBD, 0x00, 0x00, 0x00]), Ok((Op::CP(Reg(L)), 1)));
    assert_eq!(opcode([0xBE, 0x00, 0x00, 0x00]), Ok((Op::CP(RegIndirect(HL)), 1)));
    assert_eq!(opcode([0xFE, 0xAC, 0x00, 0x00]), Ok((Op::CP(Immediate(0xAC)), 2)));
}

#[test]
fn get() {
    assert_eq!(opcode([0xCB, 0x47, 0x00, 0x00]), Ok((BIT(0, Reg(A)), 2)));
    assert_eq!(opcode([0xCB, 0x40, 0x00, 0x00]), Ok((BIT(0, Reg(B)), 2)));
    assert_eq!(opcode([0xCB, 0x41, 0x00, 0x00]), Ok((BIT(0, Reg(C)), 2)));
    assert_eq!(opcode([0xCB, 0x42, 0x00, 0x00]), Ok((BIT(0, Reg(D)), 2)));
    assert_eq!(opcode([0xCB, 0x43, 0x00, 0x00]), Ok((BIT(0, Reg(E)), 2)));
    assert_eq!(opcode([0xCB, 0x44, 0x00, 0x00]), Ok((BIT(0, Reg(H)), 2)));
    assert_eq!(opcode([0xCB, 0x45, 0x00, 0x00]), Ok((BIT(0, Reg(L)), 2)));
    assert_eq!(opcode([0xCB, 0x46, 0x00, 0x00]), Ok((BIT(0, RegIndirect(HL)), 2)));

    assert_eq!(opcode([0xCB, 0x4F, 0x00, 0x00]), Ok((BIT(1, Reg(A)), 2)));
    assert_eq!(opcode([0xCB, 0x48, 0x00, 0x00]), Ok((BIT(1, Reg(B)), 2)));
    assert_eq!(opcode([0xCB, 0x49, 0x00, 0x00]), Ok((BIT(1, Reg(C)), 2)));
    assert_eq!(opcode([0xCB, 0x4A, 0x00, 0x00]), Ok((BIT(1, Reg(D)), 2)));
    assert_eq!(opcode([0xCB, 0x4B, 0x00, 0x00]), Ok((BIT(1, Reg(E)), 2)));
    assert_eq!(opcode([0xCB, 0x4C, 0x00, 0x00]), Ok((BIT(1, Reg(H)), 2)));
    assert_eq!(opcode([0xCB, 0x4D, 0x00, 0x00]), Ok((BIT(1, Reg(L)), 2)));
    assert_eq!(opcode([0xCB, 0x4E, 0x00, 0x00]), Ok((BIT(1, RegIndirect(HL)), 2)));

    assert_eq!(opcode([0xCB, 0x57, 0x00, 0x00]), Ok((BIT(2, Reg(A)), 2)));
    assert_eq!(opcode([0xCB, 0x50, 0x00, 0x00]), Ok((BIT(2, Reg(B)), 2)));
    assert_eq!(opcode([0xCB, 0x51, 0x00, 0x00]), Ok((BIT(2, Reg(C)), 2)));
    assert_eq!(opcode([0xCB, 0x52, 0x00, 0x00]), Ok((BIT(2, Reg(D)), 2)));
    assert_eq!(opcode([0xCB, 0x53, 0x00, 0x00]), Ok((BIT(2, Reg(E)), 2)));
    assert_eq!(opcode([0xCB, 0x54, 0x00, 0x00]), Ok((BIT(2, Reg(H)), 2)));
    assert_eq!(opcode([0xCB, 0x55, 0x00, 0x00]), Ok((BIT(2, Reg(L)), 2)));
    assert_eq!(opcode([0xCB, 0x56, 0x00, 0x00]), Ok((BIT(2, RegIndirect(HL)), 2)));

    assert_eq!(opcode([0xCB, 0x5F, 0x00, 0x00]), Ok((BIT(3, Reg(A)), 2)));
    assert_eq!(opcode([0xCB, 0x58, 0x00, 0x00]), Ok((BIT(3, Reg(B)), 2)));
    assert_eq!(opcode([0xCB, 0x59, 0x00, 0x00]), Ok((BIT(3, Reg(C)), 2)));
    assert_eq!(opcode([0xCB, 0x5A, 0x00, 0x00]), Ok((BIT(3, Reg(D)), 2)));
    assert_eq!(opcode([0xCB, 0x5B, 0x00, 0x00]), Ok((BIT(3, Reg(E)), 2)));
    assert_eq!(opcode([0xCB, 0x5C, 0x00, 0x00]), Ok((BIT(3, Reg(H)), 2)));
    assert_eq!(opcode([0xCB, 0x5D, 0x00, 0x00]), Ok((BIT(3, Reg(L)), 2)));
    assert_eq!(opcode([0xCB, 0x5E, 0x00, 0x00]), Ok((BIT(3, RegIndirect(HL)), 2)));

    assert_eq!(opcode([0xCB, 0x67, 0x00, 0x00]), Ok((BIT(4, Reg(A)), 2)));
    assert_eq!(opcode([0xCB, 0x60, 0x00, 0x00]), Ok((BIT(4, Reg(B)), 2)));
    assert_eq!(opcode([0xCB, 0x61, 0x00, 0x00]), Ok((BIT(4, Reg(C)), 2)));
    assert_eq!(opcode([0xCB, 0x62, 0x00, 0x00]), Ok((BIT(4, Reg(D)), 2)));
    assert_eq!(opcode([0xCB, 0x63, 0x00, 0x00]), Ok((BIT(4, Reg(E)), 2)));
    assert_eq!(opcode([0xCB, 0x64, 0x00, 0x00]), Ok((BIT(4, Reg(H)), 2)));
    assert_eq!(opcode([0xCB, 0x65, 0x00, 0x00]), Ok((BIT(4, Reg(L)), 2)));
    assert_eq!(opcode([0xCB, 0x66, 0x00, 0x00]), Ok((BIT(4, RegIndirect(HL)), 2)));

    assert_eq!(opcode([0xCB, 0x6F, 0x00, 0x00]), Ok((BIT(5, Reg(A)), 2)));
    assert_eq!(opcode([0xCB, 0x68, 0x00, 0x00]), Ok((BIT(5, Reg(B)), 2)));
    assert_eq!(opcode([0xCB, 0x69, 0x00, 0x00]), Ok((BIT(5, Reg(C)), 2)));
    assert_eq!(opcode([0xCB, 0x6A, 0x00, 0x00]), Ok((BIT(5, Reg(D)), 2)));
    assert_eq!(opcode([0xCB, 0x6B, 0x00, 0x00]), Ok((BIT(5, Reg(E)), 2)));
    assert_eq!(opcode([0xCB, 0x6C, 0x00, 0x00]), Ok((BIT(5, Reg(H)), 2)));
    assert_eq!(opcode([0xCB, 0x6D, 0x00, 0x00]), Ok((BIT(5, Reg(L)), 2)));
    assert_eq!(opcode([0xCB, 0x6E, 0x00, 0x00]), Ok((BIT(5, RegIndirect(HL)), 2)));

    assert_eq!(opcode([0xCB, 0x77, 0x00, 0x00]), Ok((BIT(6, Reg(A)), 2)));
    assert_eq!(opcode([0xCB, 0x70, 0x00, 0x00]), Ok((BIT(6, Reg(B)), 2)));
    assert_eq!(opcode([0xCB, 0x71, 0x00, 0x00]), Ok((BIT(6, Reg(C)), 2)));
    assert_eq!(opcode([0xCB, 0x72, 0x00, 0x00]), Ok((BIT(6, Reg(D)), 2)));
    assert_eq!(opcode([0xCB, 0x73, 0x00, 0x00]), Ok((BIT(6, Reg(E)), 2)));
    assert_eq!(opcode([0xCB, 0x74, 0x00, 0x00]), Ok((BIT(6, Reg(H)), 2)));
    assert_eq!(opcode([0xCB, 0x75, 0x00, 0x00]), Ok((BIT(6, Reg(L)), 2)));
    assert_eq!(opcode([0xCB, 0x76, 0x00, 0x00]), Ok((BIT(6, RegIndirect(HL)), 2)));

    assert_eq!(opcode([0xCB, 0x7F, 0x00, 0x00]), Ok((BIT(7, Reg(A)), 2)));
    assert_eq!(opcode([0xCB, 0x78, 0x00, 0x00]), Ok((BIT(7, Reg(B)), 2)));
    assert_eq!(opcode([0xCB, 0x79, 0x00, 0x00]), Ok((BIT(7, Reg(C)), 2)));
    assert_eq!(opcode([0xCB, 0x7A, 0x00, 0x00]), Ok((BIT(7, Reg(D)), 2)));
    assert_eq!(opcode([0xCB, 0x7B, 0x00, 0x00]), Ok((BIT(7, Reg(E)), 2)));
    assert_eq!(opcode([0xCB, 0x7C, 0x00, 0x00]), Ok((BIT(7, Reg(H)), 2)));
    assert_eq!(opcode([0xCB, 0x7D, 0x00, 0x00]), Ok((BIT(7, Reg(L)), 2)));
    assert_eq!(opcode([0xCB, 0x7E, 0x00, 0x00]), Ok((BIT(7, RegIndirect(HL)), 2)));
}

#[test]
fn reset() {
    assert_eq!(opcode([0xCB, 0x87, 0x00, 0x00]), Ok((RES(0, Reg(A)), 2)));
    assert_eq!(opcode([0xCB, 0x80, 0x00, 0x00]), Ok((RES(0, Reg(B)), 2)));
    assert_eq!(opcode([0xCB, 0x81, 0x00, 0x00]), Ok((RES(0, Reg(C)), 2)));
    assert_eq!(opcode([0xCB, 0x82, 0x00, 0x00]), Ok((RES(0, Reg(D)), 2)));
    assert_eq!(opcode([0xCB, 0x83, 0x00, 0x00]), Ok((RES(0, Reg(E)), 2)));
    assert_eq!(opcode([0xCB, 0x84, 0x00, 0x00]), Ok((RES(0, Reg(H)), 2)));
    assert_eq!(opcode([0xCB, 0x85, 0x00, 0x00]), Ok((RES(0, Reg(L)), 2)));
    assert_eq!(opcode([0xCB, 0x86, 0x00, 0x00]), Ok((RES(0, RegIndirect(HL)), 2)));

    assert_eq!(opcode([0xCB, 0x8F, 0x00, 0x00]), Ok((RES(1, Reg(A)), 2)));
    assert_eq!(opcode([0xCB, 0x88, 0x00, 0x00]), Ok((RES(1, Reg(B)), 2)));
    assert_eq!(opcode([0xCB, 0x89, 0x00, 0x00]), Ok((RES(1, Reg(C)), 2)));
    assert_eq!(opcode([0xCB, 0x8A, 0x00, 0x00]), Ok((RES(1, Reg(D)), 2)));
    assert_eq!(opcode([0xCB, 0x8B, 0x00, 0x00]), Ok((RES(1, Reg(E)), 2)));
    assert_eq!(opcode([0xCB, 0x8C, 0x00, 0x00]), Ok((RES(1, Reg(H)), 2)));
    assert_eq!(opcode([0xCB, 0x8D, 0x00, 0x00]), Ok((RES(1, Reg(L)), 2)));
    assert_eq!(opcode([0xCB, 0x8E, 0x00, 0x00]), Ok((RES(1, RegIndirect(HL)), 2)));

    assert_eq!(opcode([0xCB, 0x97, 0x00, 0x00]), Ok((RES(2, Reg(A)), 2)));
    assert_eq!(opcode([0xCB, 0x90, 0x00, 0x00]), Ok((RES(2, Reg(B)), 2)));
    assert_eq!(opcode([0xCB, 0x91, 0x00, 0x00]), Ok((RES(2, Reg(C)), 2)));
    assert_eq!(opcode([0xCB, 0x92, 0x00, 0x00]), Ok((RES(2, Reg(D)), 2)));
    assert_eq!(opcode([0xCB, 0x93, 0x00, 0x00]), Ok((RES(2, Reg(E)), 2)));
    assert_eq!(opcode([0xCB, 0x94, 0x00, 0x00]), Ok((RES(2, Reg(H)), 2)));
    assert_eq!(opcode([0xCB, 0x95, 0x00, 0x00]), Ok((RES(2, Reg(L)), 2)));
    assert_eq!(opcode([0xCB, 0x96, 0x00, 0x00]), Ok((RES(2, RegIndirect(HL)), 2)));

    assert_eq!(opcode([0xCB, 0x9F, 0x00, 0x00]), Ok((RES(3, Reg(A)), 2)));
    assert_eq!(opcode([0xCB, 0x98, 0x00, 0x00]), Ok((RES(3, Reg(B)), 2)));
    assert_eq!(opcode([0xCB, 0x99, 0x00, 0x00]), Ok((RES(3, Reg(C)), 2)));
    assert_eq!(opcode([0xCB, 0x9A, 0x00, 0x00]), Ok((RES(3, Reg(D)), 2)));
    assert_eq!(opcode([0xCB, 0x9B, 0x00, 0x00]), Ok((RES(3, Reg(E)), 2)));
    assert_eq!(opcode([0xCB, 0x9C, 0x00, 0x00]), Ok((RES(3, Reg(H)), 2)));
    assert_eq!(opcode([0xCB, 0x9D, 0x00, 0x00]), Ok((RES(3, Reg(L)), 2)));
    assert_eq!(opcode([0xCB, 0x9E, 0x00, 0x00]), Ok((RES(3, RegIndirect(HL)), 2)));

    assert_eq!(opcode([0xCB, 0xA7, 0x00, 0x00]), Ok((RES(4, Reg(A)), 2)));
    assert_eq!(opcode([0xCB, 0xA0, 0x00, 0x00]), Ok((RES(4, Reg(B)), 2)));
    assert_eq!(opcode([0xCB, 0xA1, 0x00, 0x00]), Ok((RES(4, Reg(C)), 2)));
    assert_eq!(opcode([0xCB, 0xA2, 0x00, 0x00]), Ok((RES(4, Reg(D)), 2)));
    assert_eq!(opcode([0xCB, 0xA3, 0x00, 0x00]), Ok((RES(4, Reg(E)), 2)));
    assert_eq!(opcode([0xCB, 0xA4, 0x00, 0x00]), Ok((RES(4, Reg(H)), 2)));
    assert_eq!(opcode([0xCB, 0xA5, 0x00, 0x00]), Ok((RES(4, Reg(L)), 2)));
    assert_eq!(opcode([0xCB, 0xA6, 0x00, 0x00]), Ok((RES(4, RegIndirect(HL)), 2)));

    assert_eq!(opcode([0xCB, 0xAF, 0x00, 0x00]), Ok((RES(5, Reg(A)), 2)));
    assert_eq!(opcode([0xCB, 0xA8, 0x00, 0x00]), Ok((RES(5, Reg(B)), 2)));
    assert_eq!(opcode([0xCB, 0xA9, 0x00, 0x00]), Ok((RES(5, Reg(C)), 2)));
    assert_eq!(opcode([0xCB, 0xAA, 0x00, 0x00]), Ok((RES(5, Reg(D)), 2)));
    assert_eq!(opcode([0xCB, 0xAB, 0x00, 0x00]), Ok((RES(5, Reg(E)), 2)));
    assert_eq!(opcode([0xCB, 0xAC, 0x00, 0x00]), Ok((RES(5, Reg(H)), 2)));
    assert_eq!(opcode([0xCB, 0xAD, 0x00, 0x00]), Ok((RES(5, Reg(L)), 2)));
    assert_eq!(opcode([0xCB, 0xAE, 0x00, 0x00]), Ok((RES(5, RegIndirect(HL)), 2)));

    assert_eq!(opcode([0xCB, 0xB7, 0x00, 0x00]), Ok((RES(6, Reg(A)), 2)));
    assert_eq!(opcode([0xCB, 0xB0, 0x00, 0x00]), Ok((RES(6, Reg(B)), 2)));
    assert_eq!(opcode([0xCB, 0xB1, 0x00, 0x00]), Ok((RES(6, Reg(C)), 2)));
    assert_eq!(opcode([0xCB, 0xB2, 0x00, 0x00]), Ok((RES(6, Reg(D)), 2)));
    assert_eq!(opcode([0xCB, 0xB3, 0x00, 0x00]), Ok((RES(6, Reg(E)), 2)));
    assert_eq!(opcode([0xCB, 0xB4, 0x00, 0x00]), Ok((RES(6, Reg(H)), 2)));
    assert_eq!(opcode([0xCB, 0xB5, 0x00, 0x00]), Ok((RES(6, Reg(L)), 2)));
    assert_eq!(opcode([0xCB, 0xB6, 0x00, 0x00]), Ok((RES(6, RegIndirect(HL)), 2)));

    assert_eq!(opcode([0xCB, 0xBF, 0x00, 0x00]), Ok((RES(7, Reg(A)), 2)));
    assert_eq!(opcode([0xCB, 0xB8, 0x00, 0x00]), Ok((RES(7, Reg(B)), 2)));
    assert_eq!(opcode([0xCB, 0xB9, 0x00, 0x00]), Ok((RES(7, Reg(C)), 2)));
    assert_eq!(opcode([0xCB, 0xBA, 0x00, 0x00]), Ok((RES(7, Reg(D)), 2)));
    assert_eq!(opcode([0xCB, 0xBB, 0x00, 0x00]), Ok((RES(7, Reg(E)), 2)));
    assert_eq!(opcode([0xCB, 0xBC, 0x00, 0x00]), Ok((RES(7, Reg(H)), 2)));
    assert_eq!(opcode([0xCB, 0xBD, 0x00, 0x00]), Ok((RES(7, Reg(L)), 2)));
    assert_eq!(opcode([0xCB, 0xBE, 0x00, 0x00]), Ok((RES(7, RegIndirect(HL)), 2)));
}

#[test]
fn set() {
    assert_eq!(opcode([0xCB, 0xC7, 0x00, 0x00]), Ok((SET(0, Reg(A)), 2)));
    assert_eq!(opcode([0xCB, 0xC0, 0x00, 0x00]), Ok((SET(0, Reg(B)), 2)));
    assert_eq!(opcode([0xCB, 0xC1, 0x00, 0x00]), Ok((SET(0, Reg(C)), 2)));
    assert_eq!(opcode([0xCB, 0xC2, 0x00, 0x00]), Ok((SET(0, Reg(D)), 2)));
    assert_eq!(opcode([0xCB, 0xC3, 0x00, 0x00]), Ok((SET(0, Reg(E)), 2)));
    assert_eq!(opcode([0xCB, 0xC4, 0x00, 0x00]), Ok((SET(0, Reg(H)), 2)));
    assert_eq!(opcode([0xCB, 0xC5, 0x00, 0x00]), Ok((SET(0, Reg(L)), 2)));
    assert_eq!(opcode([0xCB, 0xC6, 0x00, 0x00]), Ok((SET(0, RegIndirect(HL)), 2)));

    assert_eq!(opcode([0xCB, 0xCF, 0x00, 0x00]), Ok((SET(1, Reg(A)), 2)));
    assert_eq!(opcode([0xCB, 0xC8, 0x00, 0x00]), Ok((SET(1, Reg(B)), 2)));
    assert_eq!(opcode([0xCB, 0xC9, 0x00, 0x00]), Ok((SET(1, Reg(C)), 2)));
    assert_eq!(opcode([0xCB, 0xCA, 0x00, 0x00]), Ok((SET(1, Reg(D)), 2)));
    assert_eq!(opcode([0xCB, 0xCB, 0x00, 0x00]), Ok((SET(1, Reg(E)), 2)));
    assert_eq!(opcode([0xCB, 0xCC, 0x00, 0x00]), Ok((SET(1, Reg(H)), 2)));
    assert_eq!(opcode([0xCB, 0xCD, 0x00, 0x00]), Ok((SET(1, Reg(L)), 2)));
    assert_eq!(opcode([0xCB, 0xCE, 0x00, 0x00]), Ok((SET(1, RegIndirect(HL)), 2)));

    assert_eq!(opcode([0xCB, 0xD7, 0x00, 0x00]), Ok((SET(2, Reg(A)), 2)));
    assert_eq!(opcode([0xCB, 0xD0, 0x00, 0x00]), Ok((SET(2, Reg(B)), 2)));
    assert_eq!(opcode([0xCB, 0xD1, 0x00, 0x00]), Ok((SET(2, Reg(C)), 2)));
    assert_eq!(opcode([0xCB, 0xD2, 0x00, 0x00]), Ok((SET(2, Reg(D)), 2)));
    assert_eq!(opcode([0xCB, 0xD3, 0x00, 0x00]), Ok((SET(2, Reg(E)), 2)));
    assert_eq!(opcode([0xCB, 0xD4, 0x00, 0x00]), Ok((SET(2, Reg(H)), 2)));
    assert_eq!(opcode([0xCB, 0xD5, 0x00, 0x00]), Ok((SET(2, Reg(L)), 2)));
    assert_eq!(opcode([0xCB, 0xD6, 0x00, 0x00]), Ok((SET(2, RegIndirect(HL)), 2)));

    assert_eq!(opcode([0xCB, 0xDF, 0x00, 0x00]), Ok((SET(3, Reg(A)), 2)));
    assert_eq!(opcode([0xCB, 0xD8, 0x00, 0x00]), Ok((SET(3, Reg(B)), 2)));
    assert_eq!(opcode([0xCB, 0xD9, 0x00, 0x00]), Ok((SET(3, Reg(C)), 2)));
    assert_eq!(opcode([0xCB, 0xDA, 0x00, 0x00]), Ok((SET(3, Reg(D)), 2)));
    assert_eq!(opcode([0xCB, 0xDB, 0x00, 0x00]), Ok((SET(3, Reg(E)), 2)));
    assert_eq!(opcode([0xCB, 0xDC, 0x00, 0x00]), Ok((SET(3, Reg(H)), 2)));
    assert_eq!(opcode([0xCB, 0xDD, 0x00, 0x00]), Ok((SET(3, Reg(L)), 2)));
    assert_eq!(opcode([0xCB, 0xDE, 0x00, 0x00]), Ok((SET(3, RegIndirect(HL)), 2)));

    assert_eq!(opcode([0xCB, 0xE7, 0x00, 0x00]), Ok((SET(4, Reg(A)), 2)));
    assert_eq!(opcode([0xCB, 0xE0, 0x00, 0x00]), Ok((SET(4, Reg(B)), 2)));
    assert_eq!(opcode([0xCB, 0xE1, 0x00, 0x00]), Ok((SET(4, Reg(C)), 2)));
    assert_eq!(opcode([0xCB, 0xE2, 0x00, 0x00]), Ok((SET(4, Reg(D)), 2)));
    assert_eq!(opcode([0xCB, 0xE3, 0x00, 0x00]), Ok((SET(4, Reg(E)), 2)));
    assert_eq!(opcode([0xCB, 0xE4, 0x00, 0x00]), Ok((SET(4, Reg(H)), 2)));
    assert_eq!(opcode([0xCB, 0xE5, 0x00, 0x00]), Ok((SET(4, Reg(L)), 2)));
    assert_eq!(opcode([0xCB, 0xE6, 0x00, 0x00]), Ok((SET(4, RegIndirect(HL)), 2)));

    assert_eq!(opcode([0xCB, 0xEF, 0x00, 0x00]), Ok((SET(5, Reg(A)), 2)));
    assert_eq!(opcode([0xCB, 0xE8, 0x00, 0x00]), Ok((SET(5, Reg(B)), 2)));
    assert_eq!(opcode([0xCB, 0xE9, 0x00, 0x00]), Ok((SET(5, Reg(C)), 2)));
    assert_eq!(opcode([0xCB, 0xEA, 0x00, 0x00]), Ok((SET(5, Reg(D)), 2)));
    assert_eq!(opcode([0xCB, 0xEB, 0x00, 0x00]), Ok((SET(5, Reg(E)), 2)));
    assert_eq!(opcode([0xCB, 0xEC, 0x00, 0x00]), Ok((SET(5, Reg(H)), 2)));
    assert_eq!(opcode([0xCB, 0xED, 0x00, 0x00]), Ok((SET(5, Reg(L)), 2)));
    assert_eq!(opcode([0xCB, 0xEE, 0x00, 0x00]), Ok((SET(5, RegIndirect(HL)), 2)));

    assert_eq!(opcode([0xCB, 0xF7, 0x00, 0x00]), Ok((SET(6, Reg(A)), 2)));
    assert_eq!(opcode([0xCB, 0xF0, 0x00, 0x00]), Ok((SET(6, Reg(B)), 2)));
    assert_eq!(opcode([0xCB, 0xF1, 0x00, 0x00]), Ok((SET(6, Reg(C)), 2)));
    assert_eq!(opcode([0xCB, 0xF2, 0x00, 0x00]), Ok((SET(6, Reg(D)), 2)));
    assert_eq!(opcode([0xCB, 0xF3, 0x00, 0x00]), Ok((SET(6, Reg(E)), 2)));
    assert_eq!(opcode([0xCB, 0xF4, 0x00, 0x00]), Ok((SET(6, Reg(H)), 2)));
    assert_eq!(opcode([0xCB, 0xF5, 0x00, 0x00]), Ok((SET(6, Reg(L)), 2)));
    assert_eq!(opcode([0xCB, 0xF6, 0x00, 0x00]), Ok((SET(6, RegIndirect(HL)), 2)));

    assert_eq!(opcode([0xCB, 0xFF, 0x00, 0x00]), Ok((SET(7, Reg(A)), 2)));
    assert_eq!(opcode([0xCB, 0xF8, 0x00, 0x00]), Ok((SET(7, Reg(B)), 2)));
    assert_eq!(opcode([0xCB, 0xF9, 0x00, 0x00]), Ok((SET(7, Reg(C)), 2)));
    assert_eq!(opcode([0xCB, 0xFA, 0x00, 0x00]), Ok((SET(7, Reg(D)), 2)));
    assert_eq!(opcode([0xCB, 0xFB, 0x00, 0x00]), Ok((SET(7, Reg(E)), 2)));
    assert_eq!(opcode([0xCB, 0xFC, 0x00, 0x00]), Ok((SET(7, Reg(H)), 2)));
    assert_eq!(opcode([0xCB, 0xFD, 0x00, 0x00]), Ok((SET(7, Reg(L)), 2)));
    assert_eq!(opcode([0xCB, 0xFE, 0x00, 0x00]), Ok((SET(7, RegIndirect(HL)), 2)));
}

#[test]
fn rlc() {
    assert_eq!(opcode([0xCB, 0x07, 0x00, 0x00]), Ok((RLC(Reg(A)), 2)));
    assert_eq!(opcode([0xCB, 0x00, 0x00, 0x00]), Ok((RLC(Reg(B)), 2)));
    assert_eq!(opcode([0xCB, 0x01, 0x00, 0x00]), Ok((RLC(Reg(C)), 2)));
    assert_eq!(opcode([0xCB, 0x02, 0x00, 0x00]), Ok((RLC(Reg(D)), 2)));
    assert_eq!(opcode([0xCB, 0x03, 0x00, 0x00]), Ok((RLC(Reg(E)), 2)));
    assert_eq!(opcode([0xCB, 0x04, 0x00, 0x00]), Ok((RLC(Reg(H)), 2)));
    assert_eq!(opcode([0xCB, 0x05, 0x00, 0x00]), Ok((RLC(Reg(L)), 2)));
    assert_eq!(opcode([0xCB, 0x06, 0x00, 0x00]), Ok((RLC(RegIndirect(HL)), 2)));
}

#[test]
fn rrc() {
    assert_eq!(opcode([0xCB, 0x0F, 0x00, 0x00]), Ok((RRC(Reg(A)), 2)));
    assert_eq!(opcode([0xCB, 0x08, 0x00, 0x00]), Ok((RRC(Reg(B)), 2)));
    assert_eq!(opcode([0xCB, 0x09, 0x00, 0x00]), Ok((RRC(Reg(C)), 2)));
    assert_eq!(opcode([0xCB, 0x0A, 0x00, 0x00]), Ok((RRC(Reg(D)), 2)));
    assert_eq!(opcode([0xCB, 0x0B, 0x00, 0x00]), Ok((RRC(Reg(E)), 2)));
    assert_eq!(opcode([0xCB, 0x0C, 0x00, 0x00]), Ok((RRC(Reg(H)), 2)));
    assert_eq!(opcode([0xCB, 0x0D, 0x00, 0x00]), Ok((RRC(Reg(L)), 2)));
    assert_eq!(opcode([0xCB, 0x0E, 0x00, 0x00]), Ok((RRC(RegIndirect(HL)), 2)));
}

#[test]
fn rl() {
    assert_eq!(opcode([0xCB, 0x17, 0x00, 0x00]), Ok((RL(Reg(A)), 2)));
    assert_eq!(opcode([0xCB, 0x10, 0x00, 0x00]), Ok((RL(Reg(B)), 2)));
    assert_eq!(opcode([0xCB, 0x11, 0x00, 0x00]), Ok((RL(Reg(C)), 2)));
    assert_eq!(opcode([0xCB, 0x12, 0x00, 0x00]), Ok((RL(Reg(D)), 2)));
    assert_eq!(opcode([0xCB, 0x13, 0x00, 0x00]), Ok((RL(Reg(E)), 2)));
    assert_eq!(opcode([0xCB, 0x14, 0x00, 0x00]), Ok((RL(Reg(H)), 2)));
    assert_eq!(opcode([0xCB, 0x15, 0x00, 0x00]), Ok((RL(Reg(L)), 2)));
    assert_eq!(opcode([0xCB, 0x16, 0x00, 0x00]), Ok((RL(RegIndirect(HL)), 2)));
}

#[test]
fn rr() {
    assert_eq!(opcode([0xCB, 0x1F, 0x00, 0x00]), Ok((RR(Reg(A)), 2)));
    assert_eq!(opcode([0xCB, 0x18, 0x00, 0x00]), Ok((RR(Reg(B)), 2)));
    assert_eq!(opcode([0xCB, 0x19, 0x00, 0x00]), Ok((RR(Reg(C)), 2)));
    assert_eq!(opcode([0xCB, 0x1A, 0x00, 0x00]), Ok((RR(Reg(D)), 2)));
    assert_eq!(opcode([0xCB, 0x1B, 0x00, 0x00]), Ok((RR(Reg(E)), 2)));
    assert_eq!(opcode([0xCB, 0x1C, 0x00, 0x00]), Ok((RR(Reg(H)), 2)));
    assert_eq!(opcode([0xCB, 0x1D, 0x00, 0x00]), Ok((RR(Reg(L)), 2)));
    assert_eq!(opcode([0xCB, 0x1E, 0x00, 0x00]), Ok((RR(RegIndirect(HL)), 2)));
}

#[test]
fn sla() {
    assert_eq!(opcode([0xCB, 0x27, 0x00, 0x00]), Ok((SLA(Reg(A)), 2)));
    assert_eq!(opcode([0xCB, 0x20, 0x00, 0x00]), Ok((SLA(Reg(B)), 2)));
    assert_eq!(opcode([0xCB, 0x21, 0x00, 0x00]), Ok((SLA(Reg(C)), 2)));
    assert_eq!(opcode([0xCB, 0x22, 0x00, 0x00]), Ok((SLA(Reg(D)), 2)));
    assert_eq!(opcode([0xCB, 0x23, 0x00, 0x00]), Ok((SLA(Reg(E)), 2)));
    assert_eq!(opcode([0xCB, 0x24, 0x00, 0x00]), Ok((SLA(Reg(H)), 2)));
    assert_eq!(opcode([0xCB, 0x25, 0x00, 0x00]), Ok((SLA(Reg(L)), 2)));
    assert_eq!(opcode([0xCB, 0x26, 0x00, 0x00]), Ok((SLA(RegIndirect(HL)), 2)));
}

#[test]
fn sra() {
    assert_eq!(opcode([0xCB, 0x2F, 0x00, 0x00]), Ok((SRA(Reg(A)), 2)));
    assert_eq!(opcode([0xCB, 0x28, 0x00, 0x00]), Ok((SRA(Reg(B)), 2)));
    assert_eq!(opcode([0xCB, 0x29, 0x00, 0x00]), Ok((SRA(Reg(C)), 2)));
    assert_eq!(opcode([0xCB, 0x2A, 0x00, 0x00]), Ok((SRA(Reg(D)), 2)));
    assert_eq!(opcode([0xCB, 0x2B, 0x00, 0x00]), Ok((SRA(Reg(E)), 2)));
    assert_eq!(opcode([0xCB, 0x2C, 0x00, 0x00]), Ok((SRA(Reg(H)), 2)));
    assert_eq!(opcode([0xCB, 0x2D, 0x00, 0x00]), Ok((SRA(Reg(L)), 2)));
    assert_eq!(opcode([0xCB, 0x2E, 0x00, 0x00]), Ok((SRA(RegIndirect(HL)), 2)));
}

#[test]
fn srl() {
    assert_eq!(opcode([0xCB, 0x3F, 0x00, 0x00]), Ok((SRL(Reg(A)), 2)));
    assert_eq!(opcode([0xCB, 0x38, 0x00, 0x00]), Ok((SRL(Reg(B)), 2)));
    assert_eq!(opcode([0xCB, 0x39, 0x00, 0x00]), Ok((SRL(Reg(C)), 2)));
    assert_eq!(opcode([0xCB, 0x3A, 0x00, 0x00]), Ok((SRL(Reg(D)), 2)));
    assert_eq!(opcode([0xCB, 0x3B, 0x00, 0x00]), Ok((SRL(Reg(E)), 2)));
    assert_eq!(opcode([0xCB, 0x3C, 0x00, 0x00]), Ok((SRL(Reg(H)), 2)));
    assert_eq!(opcode([0xCB, 0x3D, 0x00, 0x00]), Ok((SRL(Reg(L)), 2)));
    assert_eq!(opcode([0xCB, 0x3E, 0x00, 0x00]), Ok((SRL(RegIndirect(HL)), 2)));
}

#[test]
fn rlca() {
    assert_eq!(opcode([0x07, 0x00, 0x00, 0x00]), Ok((RLCA, 1)));
}

#[test]
fn rla() {
    assert_eq!(opcode([0x17, 0x00, 0x00, 0x00]), Ok((RLA, 1)));
}

#[test]
fn rrca() {
    assert_eq!(opcode([0x0F, 0x00, 0x00, 0x00]), Ok((RRCA, 1)));
}

#[test]
fn rra() {
    assert_eq!(opcode([0x1F, 0x00, 0x00, 0x00]), Ok((RRA, 1)));
}

#[test]
fn rld() {
    assert_eq!(opcode([0xED, 0x6F, 0x00, 0x00]), Ok((RLD, 2)));
}

#[test]
fn rrd() {
    assert_eq!(opcode([0xED, 0x67, 0x00, 0x00]), Ok((RRD, 2)));
}

#[test]
fn input() {
    assert_eq!(opcode([0xDB, 0x75, 0x00, 0x00]), Ok((IN(Reg(A), Immediate(0x75)), 2)));

    assert_eq!(opcode([0xED, 0x78, 0x00, 0x00]), Ok((IN(Reg(A), Reg(C)), 2)));
    assert_eq!(opcode([0xED, 0x40, 0x00, 0x00]), Ok((IN(Reg(B), Reg(C)), 2)));
    assert_eq!(opcode([0xED, 0x48, 0x00, 0x00]), Ok((IN(Reg(C), Reg(C)), 2)));
    assert_eq!(opcode([0xED, 0x50, 0x00, 0x00]), Ok((IN(Reg(D), Reg(C)), 2)));
    assert_eq!(opcode([0xED, 0x58, 0x00, 0x00]), Ok((IN(Reg(E), Reg(C)), 2)));
    assert_eq!(opcode([0xED, 0x60, 0x00, 0x00]), Ok((IN(Reg(H), Reg(C)), 2)));
    assert_eq!(opcode([0xED, 0x68, 0x00, 0x00]), Ok((IN(Reg(L), Reg(C)), 2)));
}

#[test]
fn output() {
    assert_eq!(opcode([0xD3, 0xF5, 0x00, 0x00]), Ok((OUT(Reg(A), Immediate(0xF5)), 2)));

    assert_eq!(opcode([0xED, 0x79, 0x00, 0x00]), Ok((OUT(Reg(A), Reg(C)), 2)));
    assert_eq!(opcode([0xED, 0x41, 0x00, 0x00]), Ok((OUT(Reg(B), Reg(C)), 2)));
    assert_eq!(opcode([0xED, 0x49, 0x00, 0x00]), Ok((OUT(Reg(C), Reg(C)), 2)));
    assert_eq!(opcode([0xED, 0x51, 0x00, 0x00]), Ok((OUT(Reg(D), Reg(C)), 2)));
    assert_eq!(opcode([0xED, 0x59, 0x00, 0x00]), Ok((OUT(Reg(E), Reg(C)), 2)));
    assert_eq!(opcode([0xED, 0x61, 0x00, 0x00]), Ok((OUT(Reg(H), Reg(C)), 2)));
    assert_eq!(opcode([0xED, 0x69, 0x00, 0x00]), Ok((OUT(Reg(L), Reg(C)), 2)));
}

#[test]
fn test_jp() {
    assert_eq!(opcode([0xC3, 0xBA, 0xAB, 0x00]), Ok((JP(Unconditional, I16(0xABBA)), 3)));

    assert_eq!(opcode([0xC2, 0xB0, 0xBA, 0x00]), Ok((JP(NonZero, I16(0xBAB0)), 3)));
    assert_eq!(opcode([0xCA, 0x1E, 0xC0, 0x00]), Ok((JP(Zero, I16(0xC01E)), 3)));

    assert_eq!(opcode([0xD2, 0xB0, 0xBA, 0x00]), Ok((JP(NoCarry, I16(0xBAB0)), 3)));
    assert_eq!(opcode([0xDA, 0x1E, 0xC0, 0x00]), Ok((JP(Carry, I16(0xC01E)), 3)));

    assert_eq!(opcode([0xE2, 0xB0, 0xBA, 0x00]), Ok((JP(ParityOdd, I16(0xBAB0)), 3)));
    assert_eq!(opcode([0xEA, 0x1E, 0xC0, 0x00]), Ok((JP(ParityEven, I16(0xC01E)), 3)));

    assert_eq!(opcode([0xF2, 0x1E, 0xC0, 0x00]), Ok((JP(SignPositive, I16(0xC01E)), 3)));
    assert_eq!(opcode([0xFA, 0xB0, 0xBA, 0x00]), Ok((JP(SignNegative, I16(0xBAB0)), 3)));
}

#[test]
fn test_jr() {
    assert_eq!(opcode([0x18, 0x80, 0x00, 0x00]), Ok((JR(Unconditional, -128), 2)));

    assert_eq!(opcode([0x20, 0x7F, 0x00, 0x00]), Ok((JR(NonZero, 127), 2)));
    assert_eq!(opcode([0x28, 0x10, 0x00, 0x00]), Ok((JR(Zero, 16), 2)));

    assert_eq!(opcode([0x30, 0xFF, 0x00, 0x00]), Ok((JR(NoCarry, -1), 2)));
    assert_eq!(opcode([0x38, 0x81, 0x00, 0x00]), Ok((JR(Carry, -127), 2)));
}

#[test]
fn test_djnz() {
    assert_eq!(opcode([0x10, 0xF6, 0x00, 0x00]), Ok((DJNZ(-10), 2)));
}

#[test]
fn opcode_nop() {
    assert_eq!(opcode([0x00, 0x00, 0x00, 0x00]), Ok((NOP, 1)));
}

#[test]
fn opcode_inc() {
    assert_eq!(opcode([0x3C, 0x00, 0x00, 0x00]), Ok((INC(Reg(A)), 1)));
    assert_eq!(opcode([0x04, 0x00, 0x00, 0x00]), Ok((INC(Reg(B)), 1)));
    assert_eq!(opcode([0x0C, 0x00, 0x00, 0x00]), Ok((INC(Reg(C)), 1)));
    assert_eq!(opcode([0x14, 0x00, 0x00, 0x00]), Ok((INC(Reg(D)), 1)));
    assert_eq!(opcode([0x1C, 0x00, 0x00, 0x00]), Ok((INC(Reg(E)), 1)));
    assert_eq!(opcode([0x24, 0x00, 0x00, 0x00]), Ok((INC(Reg(H)), 1)));
    assert_eq!(opcode([0x2C, 0x00, 0x00, 0x00]), Ok((INC(Reg(L)), 1)));

    assert_eq!(opcode([0x34, 0x00, 0x00, 0x00]), Ok((INC(RegIndirect(HL)), 1)));
}

#[test]
fn opcode_dec() {
    assert_eq!(opcode([0x3D, 0x00, 0x00, 0x00]), Ok((DEC(Reg(A)), 1)));
    assert_eq!(opcode([0x05, 0x00, 0x00, 0x00]), Ok((DEC(Reg(B)), 1)));
    assert_eq!(opcode([0x0D, 0x00, 0x00, 0x00]), Ok((DEC(Reg(C)), 1)));
    assert_eq!(opcode([0x15, 0x00, 0x00, 0x00]), Ok((DEC(Reg(D)), 1)));
    assert_eq!(opcode([0x1D, 0x00, 0x00, 0x00]), Ok((DEC(Reg(E)), 1)));
    assert_eq!(opcode([0x25, 0x00, 0x00, 0x00]), Ok((DEC(Reg(H)), 1)));
    assert_eq!(opcode([0x2D, 0x00, 0x00, 0x00]), Ok((DEC(Reg(L)), 1)));

    assert_eq!(opcode([0x35, 0x00, 0x00, 0x00]), Ok((DEC(RegIndirect(HL)), 1)));
}

#[test]
fn opcode_add() {
    assert_eq!(opcode([0x87, 0x00, 0x00, 0x00]), Ok((ADD8(Reg(A), Reg(A)), 1)));
    assert_eq!(opcode([0x80, 0x00, 0x00, 0x00]), Ok((ADD8(Reg(A), Reg(B)), 1)));
    assert_eq!(opcode([0x81, 0x00, 0x00, 0x00]), Ok((ADD8(Reg(A), Reg(C)), 1)));
    assert_eq!(opcode([0x82, 0x00, 0x00, 0x00]), Ok((ADD8(Reg(A), Reg(D)), 1)));
    assert_eq!(opcode([0x83, 0x00, 0x00, 0x00]), Ok((ADD8(Reg(A), Reg(E)), 1)));
    assert_eq!(opcode([0x84, 0x00, 0x00, 0x00]), Ok((ADD8(Reg(A), Reg(H)), 1)));
    assert_eq!(opcode([0x85, 0x00, 0x00, 0x00]), Ok((ADD8(Reg(A), Reg(L)), 1)));

    assert_eq!(opcode([0x86, 0x00, 0x00, 0x00]), Ok((ADD8(Reg(A), RegIndirect(HL)), 1)));
    assert_eq!(opcode([0xC6, 0x75, 0x00, 0x00]), Ok((ADD8(Reg(A), Immediate(0x75)), 2)));
}

#[test]
fn opcode_adc() {
    assert_eq!(opcode([0x8F, 0x00, 0x00, 0x00]), Ok((ADC(Reg(A), Reg(A)), 1)));
    assert_eq!(opcode([0x88, 0x00, 0x00, 0x00]), Ok((ADC(Reg(A), Reg(B)), 1)));
    assert_eq!(opcode([0x89, 0x00, 0x00, 0x00]), Ok((ADC(Reg(A), Reg(C)), 1)));
    assert_eq!(opcode([0x8A, 0x00, 0x00, 0x00]), Ok((ADC(Reg(A), Reg(D)), 1)));
    assert_eq!(opcode([0x8B, 0x00, 0x00, 0x00]), Ok((ADC(Reg(A), Reg(E)), 1)));
    assert_eq!(opcode([0x8C, 0x00, 0x00, 0x00]), Ok((ADC(Reg(A), Reg(H)), 1)));
    assert_eq!(opcode([0x8D, 0x00, 0x00, 0x00]), Ok((ADC(Reg(A), Reg(L)), 1)));

    assert_eq!(opcode([0x8E, 0x00, 0x00, 0x00]), Ok((ADC(Reg(A), RegIndirect(HL)), 1)));
    assert_eq!(opcode([0xCE, 0xF5, 0x00, 0x00]), Ok((ADC(Reg(A), Immediate(0xF5)), 2)));
}

#[test]
fn opcode_sub() {
    assert_eq!(opcode([0x97, 0x00, 0x00, 0x00]), Ok((SUB8(Reg(A), Reg(A)), 1)));
    assert_eq!(opcode([0x90, 0x00, 0x00, 0x00]), Ok((SUB8(Reg(A), Reg(B)), 1)));
    assert_eq!(opcode([0x91, 0x00, 0x00, 0x00]), Ok((SUB8(Reg(A), Reg(C)), 1)));
    assert_eq!(opcode([0x92, 0x00, 0x00, 0x00]), Ok((SUB8(Reg(A), Reg(D)), 1)));
    assert_eq!(opcode([0x93, 0x00, 0x00, 0x00]), Ok((SUB8(Reg(A), Reg(E)), 1)));
    assert_eq!(opcode([0x94, 0x00, 0x00, 0x00]), Ok((SUB8(Reg(A), Reg(H)), 1)));
    assert_eq!(opcode([0x95, 0x00, 0x00, 0x00]), Ok((SUB8(Reg(A), Reg(L)), 1)));

    assert_eq!(opcode([0x96, 0x00, 0x00, 0x00]), Ok((SUB8(Reg(A), RegIndirect(HL)), 1)));
    assert_eq!(opcode([0xD6, 0x75, 0x00, 0x00]), Ok((SUB8(Reg(A), Immediate(0x75)), 2)));
}

#[test]
fn opcode_sbc() {
    assert_eq!(opcode([0x9F, 0x00, 0x00, 0x00]), Ok((SBC(Reg(A), Reg(A)), 1)));
    assert_eq!(opcode([0x98, 0x00, 0x00, 0x00]), Ok((SBC(Reg(A), Reg(B)), 1)));
    assert_eq!(opcode([0x99, 0x00, 0x00, 0x00]), Ok((SBC(Reg(A), Reg(C)), 1)));
    assert_eq!(opcode([0x9A, 0x00, 0x00, 0x00]), Ok((SBC(Reg(A), Reg(D)), 1)));
    assert_eq!(opcode([0x9B, 0x00, 0x00, 0x00]), Ok((SBC(Reg(A), Reg(E)), 1)));
    assert_eq!(opcode([0x9C, 0x00, 0x00, 0x00]), Ok((SBC(Reg(A), Reg(H)), 1)));
    assert_eq!(opcode([0x9D, 0x00, 0x00, 0x00]), Ok((SBC(Reg(A), Reg(L)), 1)));

    assert_eq!(opcode([0x9E, 0x00, 0x00, 0x00]), Ok((SBC(Reg(A), RegIndirect(HL)), 1)));
    assert_eq!(opcode([0xDE, 0xF5, 0x00, 0x00]), Ok((SBC(Reg(A), Immediate(0xF5)), 2)));
}

#[test]
fn opcode_ld_rr() {
    assert_eq!(opcode([0x7F, 0x00, 0x00, 0x00]), Ok((LD8(Reg(A), Reg(A)), 1)));
    assert_eq!(opcode([0x78, 0x00, 0x00, 0x00]), Ok((LD8(Reg(A), Reg(B)), 1)));
    assert_eq!(opcode([0x79, 0x00, 0x00, 0x00]), Ok((LD8(Reg(A), Reg(C)), 1)));
    assert_eq!(opcode([0x7A, 0x00, 0x00, 0x00]), Ok((LD8(Reg(A), Reg(D)), 1)));
    assert_eq!(opcode([0x7B, 0x00, 0x00, 0x00]), Ok((LD8(Reg(A), Reg(E)), 1)));
    assert_eq!(opcode([0x7C, 0x00, 0x00, 0x00]), Ok((LD8(Reg(A), Reg(H)), 1)));
    assert_eq!(opcode([0x7D, 0x00, 0x00, 0x00]), Ok((LD8(Reg(A), Reg(L)), 1)));
    assert_eq!(opcode([0x7E, 0x00, 0x00, 0x00]), Ok((LD8(Reg(A), RegIndirect(HL)), 1)));

    assert_eq!(opcode([0x47, 0x00, 0x00, 0x00]), Ok((LD8(Reg(B), Reg(A)), 1)));
    assert_eq!(opcode([0x40, 0x00, 0x00, 0x00]), Ok((LD8(Reg(B), Reg(B)), 1)));
    assert_eq!(opcode([0x41, 0x00, 0x00, 0x00]), Ok((LD8(Reg(B), Reg(C)), 1)));
    assert_eq!(opcode([0x42, 0x00, 0x00, 0x00]), Ok((LD8(Reg(B), Reg(D)), 1)));
    assert_eq!(opcode([0x43, 0x00, 0x00, 0x00]), Ok((LD8(Reg(B), Reg(E)), 1)));
    assert_eq!(opcode([0x44, 0x00, 0x00, 0x00]), Ok((LD8(Reg(B), Reg(H)), 1)));
    assert_eq!(opcode([0x45, 0x00, 0x00, 0x00]), Ok((LD8(Reg(B), Reg(L)), 1)));
    assert_eq!(opcode([0x46, 0x00, 0x00, 0x00]), Ok((LD8(Reg(B), RegIndirect(HL)), 1)));

    assert_eq!(opcode([0x4F, 0x00, 0x00, 0x00]), Ok((LD8(Reg(C), Reg(A)), 1)));
    assert_eq!(opcode([0x48, 0x00, 0x00, 0x00]), Ok((LD8(Reg(C), Reg(B)), 1)));
    assert_eq!(opcode([0x49, 0x00, 0x00, 0x00]), Ok((LD8(Reg(C), Reg(C)), 1)));
    assert_eq!(opcode([0x4A, 0x00, 0x00, 0x00]), Ok((LD8(Reg(C), Reg(D)), 1)));
    assert_eq!(opcode([0x4B, 0x00, 0x00, 0x00]), Ok((LD8(Reg(C), Reg(E)), 1)));
    assert_eq!(opcode([0x4C, 0x00, 0x00, 0x00]), Ok((LD8(Reg(C), Reg(H)), 1)));
    assert_eq!(opcode([0x4D, 0x00, 0x00, 0x00]), Ok((LD8(Reg(C), Reg(L)), 1)));
    assert_eq!(opcode([0x4E, 0x00, 0x00, 0x00]), Ok((LD8(Reg(C), RegIndirect(HL)), 1)));

    assert_eq!(opcode([0x57, 0x00, 0x00, 0x00]), Ok((LD8(Reg(D), Reg(A)), 1)));
    assert_eq!(opcode([0x50, 0x00, 0x00, 0x00]), Ok((LD8(Reg(D), Reg(B)), 1)));
    assert_eq!(opcode([0x51, 0x00, 0x00, 0x00]), Ok((LD8(Reg(D), Reg(C)), 1)));
    assert_eq!(opcode([0x52, 0x00, 0x00, 0x00]), Ok((LD8(Reg(D), Reg(D)), 1)));
    assert_eq!(opcode([0x53, 0x00, 0x00, 0x00]), Ok((LD8(Reg(D), Reg(E)), 1)));
    assert_eq!(opcode([0x54, 0x00, 0x00, 0x00]), Ok((LD8(Reg(D), Reg(H)), 1)));
    assert_eq!(opcode([0x55, 0x00, 0x00, 0x00]), Ok((LD8(Reg(D), Reg(L)), 1)));
    assert_eq!(opcode([0x56, 0x00, 0x00, 0x00]), Ok((LD8(Reg(D), RegIndirect(HL)), 1)));

    assert_eq!(opcode([0x5F, 0x00, 0x00, 0x00]), Ok((LD8(Reg(E), Reg(A)), 1)));
    assert_eq!(opcode([0x58, 0x00, 0x00, 0x00]), Ok((LD8(Reg(E), Reg(B)), 1)));
    assert_eq!(opcode([0x59, 0x00, 0x00, 0x00]), Ok((LD8(Reg(E), Reg(C)), 1)));
    assert_eq!(opcode([0x5A, 0x00, 0x00, 0x00]), Ok((LD8(Reg(E), Reg(D)), 1)));
    assert_eq!(opcode([0x5B, 0x00, 0x00, 0x00]), Ok((LD8(Reg(E), Reg(E)), 1)));
    assert_eq!(opcode([0x5C, 0x00, 0x00, 0x00]), Ok((LD8(Reg(E), Reg(H)), 1)));
    assert_eq!(opcode([0x5D, 0x00, 0x00, 0x00]), Ok((LD8(Reg(E), Reg(L)), 1)));
    assert_eq!(opcode([0x5E, 0x00, 0x00, 0x00]), Ok((LD8(Reg(E), RegIndirect(HL)), 1)));

    assert_eq!(opcode([0x67, 0x00, 0x00, 0x00]), Ok((LD8(Reg(H), Reg(A)), 1)));
    assert_eq!(opcode([0x60, 0x00, 0x00, 0x00]), Ok((LD8(Reg(H), Reg(B)), 1)));
    assert_eq!(opcode([0x61, 0x00, 0x00, 0x00]), Ok((LD8(Reg(H), Reg(C)), 1)));
    assert_eq!(opcode([0x62, 0x00, 0x00, 0x00]), Ok((LD8(Reg(H), Reg(D)), 1)));
    assert_eq!(opcode([0x63, 0x00, 0x00, 0x00]), Ok((LD8(Reg(H), Reg(E)), 1)));
    assert_eq!(opcode([0x64, 0x00, 0x00, 0x00]), Ok((LD8(Reg(H), Reg(H)), 1)));
    assert_eq!(opcode([0x65, 0x00, 0x00, 0x00]), Ok((LD8(Reg(H), Reg(L)), 1)));
    assert_eq!(opcode([0x66, 0x00, 0x00, 0x00]), Ok((LD8(Reg(H), RegIndirect(HL)), 1)));

    assert_eq!(opcode([0x6F, 0x00, 0x00, 0x00]), Ok((LD8(Reg(L), Reg(A)), 1)));
    assert_eq!(opcode([0x68, 0x00, 0x00, 0x00]), Ok((LD8(Reg(L), Reg(B)), 1)));
    assert_eq!(opcode([0x69, 0x00, 0x00, 0x00]), Ok((LD8(Reg(L), Reg(C)), 1)));
    assert_eq!(opcode([0x6A, 0x00, 0x00, 0x00]), Ok((LD8(Reg(L), Reg(D)), 1)));
    assert_eq!(opcode([0x6B, 0x00, 0x00, 0x00]), Ok((LD8(Reg(L), Reg(E)), 1)));
    assert_eq!(opcode([0x6C, 0x00, 0x00, 0x00]), Ok((LD8(Reg(L), Reg(H)), 1)));
    assert_eq!(opcode([0x6D, 0x00, 0x00, 0x00]), Ok((LD8(Reg(L), Reg(L)), 1)));
    assert_eq!(opcode([0x6E, 0x00, 0x00, 0x00]), Ok((LD8(Reg(L), RegIndirect(HL)), 1)));

    assert_eq!(opcode([0x77, 0x00, 0x00, 0x00]), Ok((LD8(RegIndirect(HL), Reg(A)), 1)));
    assert_eq!(opcode([0x70, 0x00, 0x00, 0x00]), Ok((LD8(RegIndirect(HL), Reg(B)), 1)));
    assert_eq!(opcode([0x71, 0x00, 0x00, 0x00]), Ok((LD8(RegIndirect(HL), Reg(C)), 1)));
    assert_eq!(opcode([0x72, 0x00, 0x00, 0x00]), Ok((LD8(RegIndirect(HL), Reg(D)), 1)));
    assert_eq!(opcode([0x73, 0x00, 0x00, 0x00]), Ok((LD8(RegIndirect(HL), Reg(E)), 1)));
    assert_eq!(opcode([0x74, 0x00, 0x00, 0x00]), Ok((LD8(RegIndirect(HL), Reg(H)), 1)));
    assert_eq!(opcode([0x75, 0x00, 0x00, 0x00]), Ok((LD8(RegIndirect(HL), Reg(L)), 1)));
    // ld (hl), (hl) is HALT
}

#[test]
fn opcode_ld_immediate() {
    assert_eq!(opcode([0x3E, 0x25, 0x00, 0x00]), Ok((LD8(Reg(A), Immediate(0x25)), 2)));
    assert_eq!(opcode([0x06, 0x99, 0x00, 0x00]), Ok((LD8(Reg(B), Immediate(0x99)), 2)));
    assert_eq!(opcode([0x0E, 0xAA, 0x00, 0x00]), Ok((LD8(Reg(C), Immediate(0xAA)), 2)));
    assert_eq!(opcode([0x16, 0xCD, 0x00, 0x00]), Ok((LD8(Reg(D), Immediate(0xCD)), 2)));
    assert_eq!(opcode([0x1E, 0xDA, 0x00, 0x00]), Ok((LD8(Reg(E), Immediate(0xDA)), 2)));
    assert_eq!(opcode([0x26, 0xFA, 0x00, 0x00]), Ok((LD8(Reg(H), Immediate(0xFA)), 2)));
    assert_eq!(opcode([0x2E, 0xCA, 0x00, 0x00]), Ok((LD8(Reg(L), Immediate(0xCA)), 2)));
    assert_eq!(opcode([0x36, 0xC7, 0x00, 0x00]), Ok((LD8(RegIndirect(HL), Immediate(0xC7)), 2)));
}

#[test]
fn opcode_ld_indirect() {
    // HL is in ld_rr above, because "register" 110 is (HL)
    assert_eq!(opcode([0x0A, 0x00, 0x00, 0x00]), Ok((LD8(Reg(A), RegIndirect(BC)), 1)));
    assert_eq!(opcode([0x1A, 0x00, 0x00, 0x00]), Ok((LD8(Reg(A), RegIndirect(DE)), 1)));
    assert_eq!(opcode([0x3A, 0x32, 0x0F, 0x00]), Ok((LD8(Reg(A), ImmediateIndirect(0x0F32)), 3)));

    assert_eq!(opcode([0x02, 0x00, 0x00, 0x00]), Ok((LD8(RegIndirect(BC), Reg(A)), 1)));
    assert_eq!(opcode([0x12, 0x00, 0x00, 0x00]), Ok((LD8(RegIndirect(DE), Reg(A)), 1)));
    assert_eq!(opcode([0x32, 0xAA, 0x01, 0x00]), Ok((LD8(ImmediateIndirect(0x01AA), Reg(A)), 3)));
}
