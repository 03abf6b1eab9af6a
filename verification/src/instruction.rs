//! The micro-instruction word and its fields.
//!
//! One 32-bit word drives every unit of the machine for one step. Its
//! layout, from the low bit up:
//!
//! | bits     | field    | meaning                                   |
//! |----------|----------|-------------------------------------------|
//! | `[0,8)`  | `addr`   | branch target                             |
//! | `[8,12)` | `a_bus`  | register on the first ALU input           |
//! | `[12,16)`| `b_bus`  | register on the second ALU input          |
//! | `[16,20)`| `s_bus`  | register that takes the result            |
//! | `20`     | `ens`    | enables the write-back                    |
//! | `21`     | `ms`     | enables the memory stage                  |
//! | `22`     | `rd_wr`  | set: memory read; clear: memory write     |
//! | `23`     | `mar`    | loads the address register from `b_bus`   |
//! | `24`     | `mbr`    | reserved                                  |
//! | `[25,27)`| `sh`     | shifter mode                              |
//! | `[27,29)`| `alu`    | ALU mode                                  |
//! | `[29,31)`| `cond`   | condition mode                            |
//! | `31`     | `a_mux`  | puts the address register on the first ALU input |

use crate::bitset32::{bit_at, bit_range, BitSet32};
use crate::units::{AluMode, CondMode, ShifterMode};
use vstd::prelude::*;

verus! {

/// The fields of one micro-instruction, in the order of the word's layout.
pub struct Fields {
    /// The branch target.
    pub addr: u8,
    /// The index of the register on the first ALU input.
    pub a_bus: u8,
    /// The index of the register on the second ALU input.
    pub b_bus: u8,
    /// The index of the register that takes the result.
    pub s_bus: u8,
    /// Whether the result is written back to a register.
    pub ens: bool,
    /// Whether the memory stage runs.
    pub ms: bool,
    /// Whether the memory stage reads (set) or writes (clear).
    pub rd_wr: bool,
    /// Whether the address register is loaded from the second ALU input.
    pub mar: bool,
    /// The reserved buffer-register flag, which no unit reads.
    pub mbr: bool,
    /// The shifter mode.
    pub sh: ShifterMode,
    /// The ALU mode.
    pub alu: AluMode,
    /// The condition mode.
    pub cond: CondMode,
    /// Whether the address register stands on the first ALU input.
    pub a_mux: bool,
}

/// The two shifter bits of `word` as a number. The value 3 is the
/// encoding's spare code.
pub open spec fn shifter_code(word: u32) -> nat {
    bit_range(word, 25, 27)
}

/// Reads every field out of `word`. Defined for all 32-bit words.
pub open spec fn decode(word: u32) -> Fields {
    Fields {
        addr: bit_range(word, 0, 8) as u8,
        a_bus: bit_range(word, 8, 12) as u8,
        b_bus: bit_range(word, 12, 16) as u8,
        s_bus: bit_range(word, 16, 20) as u8,
        ens: bit_at(word, 20),
        ms: bit_at(word, 21),
        rd_wr: bit_at(word, 22),
        mar: bit_at(word, 23),
        mbr: bit_at(word, 24),
        sh: ShifterMode::from_code(shifter_code(word) as u8),
        alu: AluMode::from_code(bit_range(word, 27, 29) as u8),
        cond: CondMode::from_code(bit_range(word, 29, 31) as u8),
        a_mux: bit_at(word, 31),
    }
}

/// The value of a flag as a binary digit.
pub open spec fn digit(flag: bool) -> int {
    if flag {
        1
    } else {
        0
    }
}

/// Puts the fields back at their places in a word.
pub open spec fn encode(f: Fields) -> int {
    f.addr + 0x100 * f.a_bus + 0x1000 * f.b_bus + 0x1_0000 * f.s_bus + 0x10_0000 * digit(f.ens)
        + 0x20_0000 * digit(f.ms) + 0x40_0000 * digit(f.rd_wr) + 0x80_0000 * digit(f.mar)
        + 0x100_0000 * digit(f.mbr) + 0x200_0000 * f.sh.code() + 0x800_0000 * f.alu.code()
        + 0x2000_0000 * f.cond.code() + 0x8000_0000 * digit(f.a_mux)
}

/// One micro-instruction.
#[derive(Clone, Copy, Debug)]
pub struct Instruction {
    bits: BitSet32,
}

impl View for Instruction {
    type V = u32;

    closed spec fn view(&self) -> u32 {
        self.bits@
    }
}

impl Instruction {
    /// Wraps the raw word.
    pub fn new(raw: u32) -> (r: Instruction)
        ensures
            r@ == raw,
    {
        Instruction { bits: BitSet32::new(raw) }
    }

    /// The branch target.
    pub fn addr(&self) -> (r: u8)
        ensures
            r == decode(self@).addr,
    {
        self.bits.get_many(0, 8) as u8
    }

    /// The index of the register on the first ALU input.
    pub fn a_bus(&self) -> (r: u8)
        ensures
            r == decode(self@).a_bus,
            r < 16,
    {
        self.bits.get_many(8, 12) as u8
    }

    /// The index of the register on the second ALU input.
    pub fn b_bus(&self) -> (r: u8)
        ensures
            r == decode(self@).b_bus,
            r < 16,
    {
        self.bits.get_many(12, 16) as u8
    }

    /// The index of the register that takes the result.
    pub fn s_bus(&self) -> (r: u8)
        ensures
            r == decode(self@).s_bus,
            r < 16,
    {
        self.bits.get_many(16, 20) as u8
    }

    /// Whether the result is written back to a register.
    pub fn ens(&self) -> (r: bool)
        ensures
            r == decode(self@).ens,
    {
        self.bits.get(20)
    }

    /// Whether the memory stage runs.
    pub fn ms(&self) -> (r: bool)
        ensures
            r == decode(self@).ms,
    {
        self.bits.get(21)
    }

    /// Whether the memory stage reads (set) or writes (clear).
    pub fn rd_wr(&self) -> (r: bool)
        ensures
            r == decode(self@).rd_wr,
    {
        self.bits.get(22)
    }

    /// Whether the address register is loaded from the second ALU input.
    pub fn mar(&self) -> (r: bool)
        ensures
            r == decode(self@).mar,
    {
        self.bits.get(23)
    }

    /// The reserved buffer-register flag.
    pub fn mbr(&self) -> (r: bool)
        ensures
            r == decode(self@).mbr,
    {
        self.bits.get(24)
    }

    /// The shifter mode.
    pub fn sh(&self) -> (r: ShifterMode)
        ensures
            r == decode(self@).sh,
    {
        ShifterMode::from_u8(self.bits.get_many(25, 27) as u8)
    }

    /// The ALU mode.
    pub fn alu(&self) -> (r: AluMode)
        ensures
            r == decode(self@).alu,
    {
        AluMode::from_u8(self.bits.get_many(27, 29) as u8)
    }

    /// The condition mode.
    pub fn cond(&self) -> (r: CondMode)
        ensures
            r == decode(self@).cond,
    {
        CondMode::from_u8(self.bits.get_many(29, 31) as u8)
    }

    /// Whether the address register stands on the first ALU input.
    pub fn a_mux(&self) -> (r: bool)
        ensures
            r == decode(self@).a_mux,
    {
        self.bits.get(31)
    }
}

/// Decoding loses nothing but the spare shifter code: every word whose
/// shifter bits do not hold it is rebuilt exactly from its fields.
pub proof fn lemma_encode_decode(word: u32)
    requires
        shifter_code(word) != 3,
    ensures
        encode(decode(word)) == word,
{
    lemma_encode_decode_digits(word);
    lemma_word_is_sum_of_digits(word);
}

/// A word whose shifter bits hold the spare code is rebuilt from its
/// fields with those two bits cleared, and is otherwise the same.
pub proof fn lemma_encode_decode_spare_code(word: u32)
    requires
        shifter_code(word) == 3,
    ensures
        encode(decode(word)) == word - 0x600_0000,
{
    lemma_encode_decode_digits(word);
    lemma_word_is_sum_of_digits(word);
}

/// Whether the fields are within the widths that the layout gives them.
pub open spec fn fits(f: Fields) -> bool {
    f.a_bus < 16 && f.b_bus < 16 && f.s_bus < 16
}

/// Encoding loses nothing: fields that fit the layout make a 32-bit word
/// that decodes to the same fields.
pub proof fn lemma_decode_encode(f: Fields)
    requires
        fits(f),
    ensures
        0 <= encode(f) <= u32::MAX,
        decode(encode(f) as u32) == f,
        shifter_code(encode(f) as u32) != 3,
{
    lemma_encode_fits(f);
    let word = encode(f) as u32;
    lemma_digits_of_sum(
        word,
        f.addr as u32,
        f.a_bus as u32,
        f.b_bus as u32,
        f.s_bus as u32,
        digit(f.ens) as u32,
        digit(f.ms) as u32,
        digit(f.rd_wr) as u32,
        digit(f.mar) as u32,
        digit(f.mbr) as u32,
        f.sh.code() as u32,
        f.alu.code() as u32,
        f.cond.code() as u32,
        digit(f.a_mux) as u32,
    );
    lemma_fields_from_digits(word, f);
}

/// Fields that fit the layout make a 32-bit word.
proof fn lemma_encode_fits(f: Fields)
    requires
        fits(f),
    ensures
        0 <= encode(f) <= u32::MAX,
{
}

/// A word whose bit ranges are the digits of `f` decodes to `f`.
proof fn lemma_fields_from_digits(word: u32, f: Fields)
    requires
        word % 0x100 == f.addr,
        word / 0x100 % 0x10 == f.a_bus,
        word / 0x1000 % 0x10 == f.b_bus,
        word / 0x1_0000 % 0x10 == f.s_bus,
        word / 0x10_0000 % 2 == digit(f.ens),
        word / 0x20_0000 % 2 == digit(f.ms),
        word / 0x40_0000 % 2 == digit(f.rd_wr),
        word / 0x80_0000 % 2 == digit(f.mar),
        word / 0x100_0000 % 2 == digit(f.mbr),
        word / 0x200_0000 % 4 == f.sh.code(),
        word / 0x800_0000 % 4 == f.alu.code(),
        word / 0x2000_0000 % 4 == f.cond.code(),
        word / 0x8000_0000 % 2 == digit(f.a_mux),
    ensures
        decode(word) == f,
        shifter_code(word) != 3,
{
}

/// The digits that `encode` sums up for the fields of `word` are the bit
/// ranges of `word`.
proof fn lemma_encode_decode_digits(word: u32)
    ensures
        decode(word).addr == word % 0x100,
        decode(word).a_bus == word / 0x100 % 0x10,
        decode(word).b_bus == word / 0x1000 % 0x10,
        decode(word).s_bus == word / 0x1_0000 % 0x10,
        digit(decode(word).ens) == word / 0x10_0000 % 2,
        digit(decode(word).ms) == word / 0x20_0000 % 2,
        digit(decode(word).rd_wr) == word / 0x40_0000 % 2,
        digit(decode(word).mar) == word / 0x80_0000 % 2,
        digit(decode(word).mbr) == word / 0x100_0000 % 2,
        shifter_code(word) != 3 ==> decode(word).sh.code() == word / 0x200_0000 % 4,
        shifter_code(word) == 3 ==> decode(word).sh.code() == 0,
        decode(word).alu.code() == word / 0x800_0000 % 4,
        decode(word).cond.code() == word / 0x2000_0000 % 4,
        digit(decode(word).a_mux) == word / 0x8000_0000 % 2,
{
}

/// Every word is the sum of its bit ranges, each at its place.
proof fn lemma_word_is_sum_of_digits(word: u32)
    by (bit_vector)
    ensures
        word == word % 0x100 + 0x100 * (word / 0x100 % 0x10) + 0x1000 * (word / 0x1000 % 0x10)
            + 0x1_0000 * (word / 0x1_0000 % 0x10) + 0x10_0000 * (word / 0x10_0000 % 2)
            + 0x20_0000 * (word / 0x20_0000 % 2) + 0x40_0000 * (word / 0x40_0000 % 2) + 0x80_0000
            * (word / 0x80_0000 % 2) + 0x100_0000 * (word / 0x100_0000 % 2) + 0x200_0000 * (word
            / 0x200_0000 % 4) + 0x800_0000 * (word / 0x800_0000 % 4) + 0x2000_0000 * (word
            / 0x2000_0000 % 4) + 0x8000_0000 * (word / 0x8000_0000 % 2),
{
}

/// A word that is a sum of digits, each at its place and within its
/// width, has those digits as its bit ranges.
proof fn lemma_digits_of_sum(
    word: u32,
    addr: u32,
    a_bus: u32,
    b_bus: u32,
    s_bus: u32,
    ens: u32,
    ms: u32,
    rd_wr: u32,
    mar: u32,
    mbr: u32,
    sh: u32,
    alu: u32,
    cond: u32,
    a_mux: u32,
)
    by (bit_vector)
    requires
        addr < 0x100,
        a_bus < 0x10,
        b_bus < 0x10,
        s_bus < 0x10,
        ens < 2,
        ms < 2,
        rd_wr < 2,
        mar < 2,
        mbr < 2,
        sh < 4,
        alu < 4,
        cond < 4,
        a_mux < 2,
        word == addr + 0x100 * a_bus + 0x1000 * b_bus + 0x1_0000 * s_bus + 0x10_0000 * ens
            + 0x20_0000 * ms + 0x40_0000 * rd_wr + 0x80_0000 * mar + 0x100_0000 * mbr + 0x200_0000
            * sh + 0x800_0000 * alu + 0x2000_0000 * cond + 0x8000_0000 * a_mux,
    ensures
        word % 0x100 == addr,
        word / 0x100 % 0x10 == a_bus,
        word / 0x1000 % 0x10 == b_bus,
        word / 0x1_0000 % 0x10 == s_bus,
        word / 0x10_0000 % 2 == ens,
        word / 0x20_0000 % 2 == ms,
        word / 0x40_0000 % 2 == rd_wr,
        word / 0x80_0000 % 2 == mar,
        word / 0x100_0000 % 2 == mbr,
        word / 0x200_0000 % 4 == sh,
        word / 0x800_0000 % 4 == alu,
        word / 0x2000_0000 % 4 == cond,
        word / 0x8000_0000 % 2 == a_mux,
{
}

/// The register indices of every word lie in the register file.
pub proof fn lemma_bus_fields_in_range(word: u32)
    ensures
        decode(word).a_bus < 16,
        decode(word).b_bus < 16,
        decode(word).s_bus < 16,
{
}

} // verus!
