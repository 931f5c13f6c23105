//! The symbolic representation of the supported Z80 instructions.
//! Operations can be built by hand, or decoded from bytes with
//! `zeerust::cpu::opcodes`.
use vstd::prelude::*;

verus! {

/// A single operation.
///
/// The representation is more expressive than the processor itself: for
/// example `ADD8(Location8::Reg(Reg8::D), Location8::Immediate(10))` can be
/// built and executed, although the Z80 has no such instruction. Storing into
/// an immediate is refused at execution time.
#[derive(Clone, Copy, Debug, PartialEq, Eq, Structural)]
pub enum Op {
    /// ADd including Carry
    ADC(Location8, Location8),
    /// ADD (8-bit)
    ADD8(Location8, Location8),
    /// INCrement
    INC(Location8),
    /// SuBtract including borrow (the Carry bit)
    SBC(Location8, Location8),
    /// SUBtraction (8-bit)
    SUB8(Location8, Location8),
    /// DECrement
    DEC(Location8),
    /// bitwise AND with the accumulator
    AND(Location8),
    /// bitwise OR with the accumulator
    OR(Location8),
    /// bitwise XOR with the accumulator
    XOR(Location8),
    /// ComPare with the accumulator
    CP(Location8),
    /// one's ComPLement of the accumulator
    CPL,
    /// two's complement NEGation of the accumulator
    NEG,
    /// Complement the Carry Flag
    CCF,
    /// Set the Carry Flag
    SCF,
    /// No OPeration
    NOP,
    /// HALT execution
    HALT,
    /// Decimal adjust; not supported
    DAA,
    /// Rotate Accumulator Left, into Carry
    RLCA,
    /// Rotate Accumulator Left, through carry
    RLA,
    /// Rotate Accumulator Right, into Carry
    RRCA,
    /// Rotate Accumulator Right, through carry
    RRA,
    /// Rotate Left, into Carry
    RLC(Location8),
    /// Rotate Left, through carry
    RL(Location8),
    /// Rotate Right, into Carry
    RRC(Location8),
    /// Rotate Right, through carry
    RR(Location8),
    /// Shift Left
    SLA(Location8),
    /// Shift Right, zero filled
    SRL(Location8),
    /// Shift Right, keeping bit 7
    SRA(Location8),
    /// Rotate nibbles Left between the accumulator and (HL)
    RLD,
    /// Rotate nibbles Right between the accumulator and (HL)
    RRD,
    /// test a BIT: the Zero flag is set when the bit is off
    BIT(u8, Location8),
    /// SET a bit
    SET(u8, Location8),
    /// RESet a bit
    RES(u8, Location8),
    /// INput from a peripheral: destination, port
    IN(Location8, Location8),
    /// OUTput to a peripheral: source, port
    OUT(Location8, Location8),
    /// JumP to the given address
    JP(JumpConditional, Location16),
    /// Jump Relative to the address of this instruction
    JR(JumpConditional, i8),
    /// Decrement B, then Jump relative if B is Non Zero
    DJNZ(i8),
    /// CALL a subroutine
    CALL(JumpConditional, u16),
    /// RETurn from a subroutine
    RET(JumpConditional),
    /// POP a word off the stack
    POP(Location16),
    /// PUSH a word onto the stack
    PUSH(Location16),
    /// LoaD (8-bit)
    LD8(Location8, Location8),
    /// LoaD (16-bit)
    LD16(Location16, Location16),
}

/// 8-bit registers, with their shadow counterparts.
#[derive(Clone, Copy, Debug, PartialEq, Eq, Structural)]
pub enum Reg8 {
    A,
    F,
    B,
    C,
    D,
    E,
    H,
    L,
    /// A'
    AP,
    /// F'
    FP,
    /// B'
    BP,
    /// C'
    CP,
    /// D'
    DP,
    /// E'
    EP,
    /// H'
    HP,
    /// L'
    LP,
}

/// 16-bit registers: pairs of 8-bit registers, and the native words.
#[derive(Clone, Copy, Debug, PartialEq, Eq, Structural)]
pub enum Reg16 {
    AF,
    BC,
    DE,
    HL,
    /// AF'
    AFP,
    /// BC'
    BCP,
    /// DE'
    DEP,
    /// HL'
    HLP,
    IX,
    IY,
    /// Stack Pointer
    SP,
}

/// Anywhere an 8-bit value can come from or be stored to.
#[derive(Clone, Copy, Debug, PartialEq, Eq, Structural)]
pub enum Location8 {
    /// A register
    Reg(Reg8),
    /// The memory byte whose address a 16-bit register holds
    RegIndirect(Reg16),
    /// The memory byte at a literal address
    ImmediateIndirect(u16),
    /// A literal byte (never a store target)
    Immediate(u8),
}

/// Anywhere a 16-bit value can come from or be stored to.
#[derive(Clone, Copy, Debug, PartialEq, Eq, Structural)]
pub enum Location16 {
    /// A 16-bit register
    Reg(Reg16),
    /// Two memory bytes at a literal address, little-endian
    ImmediateIndirect(u16),
    /// A literal word (never a store target)
    Immediate(u16),
}

/// Status flags, the defined bits of register F.
#[derive(Clone, Copy, Debug, PartialEq, Eq, Structural)]
pub enum StatusFlag {
    /// Bit 0: carry or borrow out of the byte
    Carry,
    /// Bit 1: set after a subtraction, clear after an addition
    AddSubtract,
    /// Bit 2: overflow after arithmetic, even parity after logic
    ParityOverflow,
    /// Bit 4: carry or borrow in the low bits
    HalfCarry,
    /// Bit 6: the result was zero
    Zero,
    /// Bit 7: bit 7 of the result
    Sign,
}

/// The condition of a jump, call or return.
#[derive(Clone, Copy, Debug, PartialEq, Eq, Structural)]
pub enum JumpConditional {
    /// Always holds
    Unconditional,
    /// Zero flag clear
    NonZero,
    /// Zero flag set
    Zero,
    /// Carry flag clear
    NoCarry,
    /// Carry flag set
    Carry,
    /// ParityOverflow flag clear
    ParityOdd,
    /// ParityOverflow flag set
    ParityEven,
    /// Sign flag clear
    SignPositive,
    /// Sign flag set
    SignNegative,
}

/// Why decoding or execution stopped.
#[derive(Clone, Copy, Debug, PartialEq, Eq, Structural)]
pub enum Z80Error {
    /// No decoding rule matches this window of bytes
    UnknownOpcode(u8, u8, u8, u8),
    /// The undocumented SLL family (`CB 30..37`)
    UndocumentedSll,
    /// A read or write past the end of memory, at this address
    OutOfMemory(usize),
    /// A store into an immediate location
    ImmediateStore,
    /// A bit index outside `0..8`
    InvalidBit(u8),
    /// No input peripheral is installed at this port
    NoInputDevice(u8),
    /// No output peripheral is installed at this port
    NoOutputDevice(u8),
    /// The input peripheral at this port had no byte to give
    InputUnavailable(u8),
    /// An operation that this emulator does not support (`DAA`)
    Unsupported,
    /// The run loop used up its step budget without reaching `HALT`
    StepLimit,
}

} // verus!
