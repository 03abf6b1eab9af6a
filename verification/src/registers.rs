//! The register file: sixteen 16-bit slots, each with a fixed purpose.
//!
//! | index   | purpose                      | access     |
//! |---------|------------------------------|------------|
//! | 0       | the constant 0               | read-only  |
//! | 1       | the constant 1               | read-only  |
//! | 2       | the constant -1              | read-only  |
//! | 3       | memory address register, MAR | read-write |
//! | 4 to 14 | general purpose              | read-write |
//! | 15      | memory buffer register, MBR  | read-write |

use crate::fault::Fault;
use vstd::prelude::*;

verus! {

/// The number of slots in the register file.
pub const REGISTER_COUNT: u8 = 16;

/// The number of constant slots, which occupy the lowest indices.
pub const CONSTANT_COUNT: u8 = 3;

/// The index of the memory address register.
pub const MAR_REGISTER_IDX: u8 = 3;

/// The index of the memory buffer register.
pub const MBR_REGISTER_IDX: u8 = 15;

/// The purpose of a slot, which decides whether it can be written.
#[derive(Clone, Copy, Debug, PartialEq, Eq, Structural)]
pub enum RegisterKind {
    /// One of the three constants.
    Constant,
    /// The memory address register.
    Address,
    /// One of the eleven general-purpose registers.
    General,
    /// The memory buffer register.
    Buffer,
}

impl RegisterKind {
    /// The kind of the slot at `index`, if there is such a slot.
    pub open spec fn spec_of(index: u8) -> Option<RegisterKind> {
        if index < 3 {
            Some(RegisterKind::Constant)
        } else if index == 3 {
            Some(RegisterKind::Address)
        } else if index < 15 {
            Some(RegisterKind::General)
        } else if index == 15 {
            Some(RegisterKind::Buffer)
        } else {
            None
        }
    }

    /// Tells the kind of the slot at `index`, or `None` past the end of the
    /// register file.
    pub fn of(index: u8) -> (r: Option<RegisterKind>)
        ensures
            r == RegisterKind::spec_of(index),
            r is Some <==> index < REGISTER_COUNT,
    {
        if index < CONSTANT_COUNT {
            Some(RegisterKind::Constant)
        } else if index == MAR_REGISTER_IDX {
            Some(RegisterKind::Address)
        } else if index < MBR_REGISTER_IDX {
            Some(RegisterKind::General)
        } else if index == MBR_REGISTER_IDX {
            Some(RegisterKind::Buffer)
        } else {
            None
        }
    }

    /// Whether a slot of this kind takes writes.
    pub open spec fn spec_writable(self) -> bool {
        self != RegisterKind::Constant
    }

    /// Tells whether a slot of this kind takes writes.
    pub fn writable(self) -> (r: bool)
        ensures
            r == self.spec_writable(),
    {
        match self {
            RegisterKind::Constant => false,
            _ => true,
        }
    }
}

/// Whether `regs` has the shape of a register file: sixteen slots, the
/// first three holding 0, 1 and -1.
pub open spec fn well_formed(regs: Seq<i16>) -> bool {
    &&& regs.len() == 16
    &&& regs[0] == 0
    &&& regs[1] == 1
    &&& regs[2] == -1
}

/// The register file of a machine that has not run yet: the constants in
/// place and every other slot cleared.
pub open spec fn initial_registers() -> Seq<i16> {
    Seq::new(
        16,
        |i: int|
            if i == 1 {
                1i16
            } else if i == 2 {
                -1i16
            } else {
                0i16
            },
    )
}

/// The register file. Its view is the sequence of the sixteen slots.
#[derive(Clone, Copy, Debug)]
pub struct RegisterSet {
    /// The writable slots, the one at index 3 first.
    cells: [i16; 13],
}

impl View for RegisterSet {
    type V = Seq<i16>;

    closed spec fn view(&self) -> Seq<i16> {
        seq![0i16, 1i16, -1i16] + self.cells@
    }
}

impl RegisterSet {
    /// A register file with every writable slot cleared.
    pub fn new() -> (r: RegisterSet)
        ensures
            r@ == initial_registers(),
    {
        let r = RegisterSet { cells: [0i16; 13] };
        assert(r@ =~= initial_registers());
        r
    }

    /// Every register file has sixteen slots, and its constants are in
    /// place: slot 0 reads 0, slot 1 reads 1 and slot 2 reads -1.
    pub proof fn lemma_constants(&self)
        ensures
            well_formed(self@),
    {
    }

    /// Reads the slot at `index`.
    pub fn get(&self, index: u8) -> (r: i16)
        requires
            index < REGISTER_COUNT,
        ensures
            r == self@[index as int],
            index == 0 ==> r == 0,
            index == 1 ==> r == 1,
            index == 2 ==> r == -1,
    {
        match index {
            0 => 0,
            1 => 1,
            2 => -1,
            _ => self.cells[(index - CONSTANT_COUNT) as usize],
        }
    }

    /// Writes `value` to the slot at `index`, which must be writable.
    pub fn set(&mut self, index: u8, value: i16)
        requires
            CONSTANT_COUNT <= index < REGISTER_COUNT,
        ensures
            final(self)@ == old(self)@.update(index as int, value),
    {
        self.cells[(index - CONSTANT_COUNT) as usize] = value;
        assert(self@ =~= old(self)@.update(index as int, value));
    }

    /// Reads the slot at `index`, or reports that there is no such slot.
    pub fn try_get(&self, index: u8) -> (r: Result<i16, Fault>)
        ensures
            index < REGISTER_COUNT ==> r == Ok::<i16, Fault>(self@[index as int]),
            index >= REGISTER_COUNT ==> r == Err::<i16, Fault>(Fault::InvalidRegisterIndex),
    {
        match RegisterKind::of(index) {
            Some(_) => Ok(self.get(index)),
            None => Err(Fault::InvalidRegisterIndex),
        }
    }

    /// Writes `value` to the slot at `index`, or reports why the slot
    /// cannot be written and leaves the register file as it was.
    pub fn try_set(&mut self, index: u8, value: i16) -> (r: Result<(), Fault>)
        ensures
            index < CONSTANT_COUNT ==> r == Err::<(), Fault>(Fault::ReadOnlyRegisterWrite),
            index >= REGISTER_COUNT ==> r == Err::<(), Fault>(Fault::InvalidRegisterIndex),
            CONSTANT_COUNT <= index < REGISTER_COUNT ==> r == Ok::<(), Fault>(()),
            r is Ok ==> final(self)@ == old(self)@.update(index as int, value),
            r is Err ==> final(self)@ == old(self)@,
    {
        match RegisterKind::of(index) {
            None => Err(Fault::InvalidRegisterIndex),
            Some(kind) => {
                if kind.writable() {
                    self.set(index, value);
                    Ok(())
                } else {
                    Err(Fault::ReadOnlyRegisterWrite)
                }
            },
        }
    }
}

/// A slot that was written reads back the value written, and the write
/// touches no other slot.
pub proof fn lemma_get_after_set(before: RegisterSet, after: RegisterSet, index: u8, value: i16)
    requires
        CONSTANT_COUNT <= index < REGISTER_COUNT,
        after@ == before@.update(index as int, value),
    ensures
        after@[index as int] == value,
        forall|j: int| 0 <= j < 16 && j != index ==> after@[j] == before@[j],
{
    before.lemma_constants();
}

} // verus!
