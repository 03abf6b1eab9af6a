//! The combinational execution units: ALU, one-bit shifter and the
//! condition unit, each a pure function of its inputs.

use vstd::prelude::*;

verus! {

/// Operation selected by the two ALU bits of a micro-instruction.
#[derive(Clone, Copy, Debug, PartialEq, Eq, Structural)]
pub enum AluMode {
    /// Pass the first operand through.
    NoOp,
    /// Add the operands, wrapping at 16 bits.
    Add,
    /// Keep the bits set in both operands.
    BitAnd,
    /// Complement the first operand.
    BitNot,
}

/// Operation selected by the two shifter bits of a micro-instruction.
#[derive(Clone, Copy, Debug, PartialEq, Eq, Structural)]
pub enum ShifterMode {
    /// Pass the input through.
    NoOp,
    /// Shift one bit to the left; the low bit becomes 0.
    Left,
    /// Shift one bit to the right; the sign bit stays.
    Right,
}

/// Branch condition selected by the two condition bits of a
/// micro-instruction.
#[derive(Clone, Copy, Debug, PartialEq, Eq, Structural)]
pub enum CondMode {
    /// Never branch.
    NoOp,
    /// Branch if the ALU output was negative.
    IfNegative,
    /// Branch if the ALU output was zero.
    IfZero,
    /// Always branch.
    GoTo,
}

/// The 16-bit two's-complement value congruent to `v` modulo `2^16`.
pub open spec fn wrap16(v: int) -> i16 {
    let m = v % 0x1_0000;
    if m >= 0x8000 {
        (m - 0x1_0000) as i16
    } else {
        m as i16
    }
}

/// What the ALU puts out for operands `a` and `b`: `a` itself, the sum
/// wrapped to 16 bits, the bitwise conjunction, or the bitwise complement
/// of `a`, which in two's complement is `-a - 1`.
pub open spec fn alu_result(mode: AluMode, a: i16, b: i16) -> i16 {
    match mode {
        AluMode::NoOp => a,
        AluMode::Add => wrap16(a + b),
        AluMode::BitAnd => a & b,
        AluMode::BitNot => (-a - 1) as i16,
    }
}

/// What the shifter puts out for input `x`: the doubled value wrapped to 16
/// bits, or the halved value rounded towards minus infinity.
pub open spec fn shifter_result(mode: ShifterMode, x: i16) -> i16 {
    match mode {
        ShifterMode::NoOp => x,
        ShifterMode::Left => wrap16(2 * x),
        ShifterMode::Right => (x / 2) as i16,
    }
}

/// Where the condition unit leaves the program counter: at `addr` when the
/// selected condition holds of the flags, else where it was.
pub open spec fn branch_target(
    mode: CondMode,
    addr: u8,
    negative: bool,
    zero: bool,
    counter: u8,
) -> u8 {
    match mode {
        CondMode::NoOp => counter,
        CondMode::IfNegative => if negative {
            addr
        } else {
            counter
        },
        CondMode::IfZero => if zero {
            addr
        } else {
            counter
        },
        CondMode::GoTo => addr,
    }
}

impl AluMode {
    /// The mode that a two-bit field value selects.
    pub open spec fn from_code(code: u8) -> AluMode {
        if code == 0 {
            AluMode::NoOp
        } else if code == 1 {
            AluMode::Add
        } else if code == 2 {
            AluMode::BitAnd
        } else {
            AluMode::BitNot
        }
    }

    /// The field value that selects this mode.
    pub open spec fn code(self) -> u8 {
        match self {
            AluMode::NoOp => 0,
            AluMode::Add => 1,
            AluMode::BitAnd => 2,
            AluMode::BitNot => 3,
        }
    }

    /// Decodes a two-bit field value.
    pub fn from_u8(value: u8) -> (r: AluMode)
        requires
            value < 4,
        ensures
            r == AluMode::from_code(value),
            r.code() == value,
    {
        match value {
            0 => AluMode::NoOp,
            1 => AluMode::Add,
            2 => AluMode::BitAnd,
            _ => AluMode::BitNot,
        }
    }
}

impl ShifterMode {
    /// The mode that a two-bit field value selects. The encoding's spare
    /// value 3 shifts nothing.
    pub open spec fn from_code(code: u8) -> ShifterMode {
        if code == 1 {
            ShifterMode::Left
        } else if code == 2 {
            ShifterMode::Right
        } else {
            ShifterMode::NoOp
        }
    }

    /// The field value that canonically selects this mode.
    pub open spec fn code(self) -> u8 {
        match self {
            ShifterMode::NoOp => 0,
            ShifterMode::Left => 1,
            ShifterMode::Right => 2,
        }
    }

    /// Decodes a two-bit field value.
    pub fn from_u8(value: u8) -> (r: ShifterMode)
        requires
            value < 4,
        ensures
            r == ShifterMode::from_code(value),
            value != 3 ==> r.code() == value,
    {
        match value {
            1 => ShifterMode::Left,
            2 => ShifterMode::Right,
            _ => ShifterMode::NoOp,
        }
    }
}

impl CondMode {
    /// The mode that a two-bit field value selects.
    pub open spec fn from_code(code: u8) -> CondMode {
        if code == 0 {
            CondMode::NoOp
        } else if code == 1 {
            CondMode::IfNegative
        } else if code == 2 {
            CondMode::IfZero
        } else {
            CondMode::GoTo
        }
    }

    /// The field value that selects this mode.
    pub open spec fn code(self) -> u8 {
        match self {
            CondMode::NoOp => 0,
            CondMode::IfNegative => 1,
            CondMode::IfZero => 2,
            CondMode::GoTo => 3,
        }
    }

    /// Decodes a two-bit field value.
    pub fn from_u8(value: u8) -> (r: CondMode)
        requires
            value < 4,
        ensures
            r == CondMode::from_code(value),
            r.code() == value,
    {
        match value {
            0 => CondMode::NoOp,
            1 => CondMode::IfNegative,
            2 => CondMode::IfZero,
            _ => CondMode::GoTo,
        }
    }
}

/// Computes the ALU output.
pub fn alu(mode: AluMode, a: i16, b: i16) -> (r: i16)
    ensures
        r == alu_result(mode, a, b),
{
    match mode {
        AluMode::NoOp => a,
        AluMode::Add => a.wrapping_add(b),
        AluMode::BitAnd => a & b,
        AluMode::BitNot => {
            let r = !a;
            assert(!a == -a - 1) by (bit_vector);
            r
        },
    }
}

/// Computes the shifter output.
pub fn shifter(mode: ShifterMode, x: i16) -> (r: i16)
    ensures
        r == shifter_result(mode, x),
{
    match mode {
        ShifterMode::NoOp => x,
        ShifterMode::Left => {
            let r = x << 1u32;
            assert(x << 1u32 == wrap16(2 * x)) by (bit_vector);
            r
        },
        ShifterMode::Right => {
            let r = x >> 1u32;
            assert(x >> 1u32 == x / 2) by (bit_vector);
            r
        },
    }
}

/// Computes the program counter that the condition unit leaves behind.
pub fn branch(mode: CondMode, addr: u8, negative: bool, zero: bool, counter: u8) -> (r: u8)
    ensures
        r == branch_target(mode, addr, negative, zero, counter),
{
    match mode {
        CondMode::NoOp => counter,
        CondMode::IfZero => {
            if zero {
                addr
            } else {
                counter
            }
        },
        CondMode::IfNegative => {
            if negative {
                addr
            } else {
                counter
            }
        },
        CondMode::GoTo => addr,
    }
}

/// The complement reads only the first operand: whatever stands on the
/// second input, the ALU puts out the same value.
pub proof fn lemma_bit_not_ignores_second_operand(a: i16, b1: i16, b2: i16)
    ensures
        alu_result(AluMode::BitNot, a, b1) == alu_result(AluMode::BitNot, a, b2),
{
}

/// A right shift keeps the sign: a negative input gives a negative output
/// and a non-negative input a non-negative one.
pub proof fn lemma_shift_right_preserves_sign(x: i16)
    ensures
        x < 0 <==> shifter_result(ShifterMode::Right, x) < 0,
{
}

} // verus!
