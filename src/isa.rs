//! The instruction set: opcode table and operand fields of a fetched word.
//!
//! Byte order is little-endian throughout: a word's byte 0 is its least
//! significant byte, and every 16-bit operand (immediate, address or jump
//! target) stores its low byte first.
use vstd::prelude::*;

verus! {

/// Number of words in memory; every 16-bit address names one of them.
pub const MEMORY_WORDS: usize = 0x1_0000;

/// Number of general-purpose registers.
pub const REGISTER_COUNT: usize = 16;

/// The instructions of the machine.
#[derive(Clone, Copy, Debug, PartialEq, Eq, Structural)]
pub enum Instruction {
    Loadi,
    Load,
    Store,
    Add,
    Sub,
    Mul,
    And,
    Or,
    Not,
    Cmp,
    Jne,
    Jeq,
    Hlt,
    Prnt,
    Noop,
}

/// The opcode table; `None` for a byte outside the defined set.
pub open spec fn opcode_spec(op: u8) -> Option<Instruction> {
    if op == 0x00 {
        Some(Instruction::Noop)
    } else if op == 0x01 {
        Some(Instruction::Loadi)
    } else if op == 0x02 {
        Some(Instruction::Add)
    } else if op == 0x03 {
        Some(Instruction::Prnt)
    } else if op == 0x04 {
        Some(Instruction::And)
    } else if op == 0x05 {
        Some(Instruction::Or)
    } else if op == 0x06 {
        Some(Instruction::Not)
    } else if op == 0x07 {
        Some(Instruction::Jne)
    } else if op == 0x08 {
        Some(Instruction::Sub)
    } else if op == 0x09 {
        Some(Instruction::Mul)
    } else if op == 0x0a {
        Some(Instruction::Cmp)
    } else if op == 0x0b {
        Some(Instruction::Jeq)
    } else if op == 0x0c {
        Some(Instruction::Load)
    } else if op == 0x0d {
        Some(Instruction::Store)
    } else if op == 0xff {
        Some(Instruction::Hlt)
    } else {
        None
    }
}

/// Maps an opcode byte to its instruction, or `None` when it is undefined.
pub fn decode_opcode(op: u8) -> (r: Option<Instruction>)
    ensures
        r == opcode_spec(op),
{
    match op {
        0x00 => Some(Instruction::Noop),
        0x01 => Some(Instruction::Loadi),
        0x02 => Some(Instruction::Add),
        0x03 => Some(Instruction::Prnt),
        0x04 => Some(Instruction::And),
        0x05 => Some(Instruction::Or),
        0x06 => Some(Instruction::Not),
        0x07 => Some(Instruction::Jne),
        0x08 => Some(Instruction::Sub),
        0x09 => Some(Instruction::Mul),
        0x0a => Some(Instruction::Cmp),
        0x0b => Some(Instruction::Jeq),
        0x0c => Some(Instruction::Load),
        0x0d => Some(Instruction::Store),
        0xff => Some(Instruction::Hlt),
        _ => None,
    }
}

/// The four bytes of a word, least significant first.
pub open spec fn word_bytes(w: u32) -> Seq<u8> {
    seq![
        (w % 0x100) as u8,
        (w / 0x100 % 0x100) as u8,
        (w / 0x1_0000 % 0x100) as u8,
        (w / 0x100_0000) as u8,
    ]
}

/// The word whose bytes, least significant first, are `b0`, `b1`, `b2`, `b3`.
pub open spec fn word_of(b0: u8, b1: u8, b2: u8, b3: u8) -> u32 {
    (b0 + 0x100 * b1 + 0x1_0000 * b2 + 0x100_0000 * b3) as u32
}

/// The 16-bit value whose low byte is `lo` and high byte is `hi`.
pub open spec fn half_of(lo: u8, hi: u8) -> u16 {
    (lo + 0x100 * hi) as u16
}

/// Splits a word into its four bytes, least significant first.
pub fn split_word(w: u32) -> (r: [u8; 4])
    ensures
        r@ == word_bytes(w),
{
    let r = [
        (w % 0x100) as u8,
        (w / 0x100 % 0x100) as u8,
        (w / 0x1_0000 % 0x100) as u8,
        (w / 0x100_0000) as u8,
    ];
    assert(r@ =~= word_bytes(w));
    r
}

/// Joins two bytes, low byte first, into a 16-bit value.
pub fn join_half(lo: u8, hi: u8) -> (r: u16)
    ensures
        r == half_of(lo, hi),
        r as int == lo + 0x100 * hi,
{
    lo as u16 + 0x100 * (hi as u16)
}

} // verus!
