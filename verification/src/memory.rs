//! The memory unit: 65536 cells of 16 bits behind a two-phase handshake.
//!
//! A transfer takes two consecutive invocations. The first finds the unit
//! idle, arms it and moves nothing: it stands for the cycle in which the
//! address settles. The second finds the unit armed, moves the data and
//! leaves the unit idle again. The unit has one phase for all addresses and
//! for both directions.

use vstd::prelude::*;

verus! {

/// The number of cells.
pub const MEMORY_SIZE: usize = 0x1_0000;

/// Where the unit stands in the handshake.
#[derive(Clone, Copy, Debug, PartialEq, Eq, Structural)]
pub enum Phase {
    /// No transfer is under way: the next invocation only arms the unit.
    Idle,
    /// The unit was armed: the next invocation moves the data.
    Armed,
}

/// The cell that an address selects: addresses wrap at 16 bits.
pub open spec fn cell_of(addr: int) -> int {
    addr % 0x1_0000
}

/// The memory unit as a mathematical value.
pub struct MemoryState {
    /// The contents of the cells, from address 0 up.
    pub cells: Seq<i16>,
    /// The phase of the handshake.
    pub phase: Phase,
}

impl MemoryState {
    /// Whether the state has as many cells as the unit.
    pub open spec fn wf(self) -> bool {
        self.cells.len() == MEMORY_SIZE
    }

    /// The unit before its first invocation: idle, every cell cleared.
    pub open spec fn initial() -> MemoryState {
        MemoryState { cells: Seq::new(MEMORY_SIZE as nat, |i: int| 0i16), phase: Phase::Idle }
    }

    /// One read invocation at `addr`: the state it leaves and what it hands
    /// back, which is nothing while the unit is only being armed.
    pub open spec fn read(self, addr: int) -> (MemoryState, Option<i16>) {
        match self.phase {
            Phase::Idle => (MemoryState { phase: Phase::Armed, ..self }, None),
            Phase::Armed => (
                MemoryState { phase: Phase::Idle, ..self },
                Some(self.cells[cell_of(addr)]),
            ),
        }
    }

    /// One write invocation of `value` at `addr`: the state it leaves and
    /// whether the value was stored.
    pub open spec fn write(self, addr: int, value: i16) -> (MemoryState, bool) {
        match self.phase {
            Phase::Idle => (MemoryState { phase: Phase::Armed, ..self }, false),
            Phase::Armed => (
                MemoryState { cells: self.cells.update(cell_of(addr), value), phase: Phase::Idle },
                true,
            ),
        }
    }
}

/// The memory unit.
pub struct Memory {
    data: [i16; 0x1_0000],
    phase: Phase,
}

impl View for Memory {
    type V = MemoryState;

    closed spec fn view(&self) -> MemoryState {
        MemoryState { cells: self.data@, phase: self.phase }
    }
}

impl Memory {
    /// An idle unit with every cell cleared.
    pub fn new() -> (r: Memory)
        ensures
            r@ == MemoryState::initial(),
    {
        let r = Memory { data: [0i16; 0x1_0000], phase: Phase::Idle };
        assert(r@.cells =~= MemoryState::initial().cells);
        r
    }

    /// Every memory unit has the full number of cells.
    pub proof fn lemma_size(&self)
        ensures
            self@.wf(),
    {
    }

    /// One read invocation at `idx`: `None` if it armed the unit, the
    /// cell's value if it completed the transfer.
    pub fn read(&mut self, idx: usize) -> (r: Option<i16>)
        ensures
            (final(self)@, r) == old(self)@.read(idx as int),
    {
        match self.phase {
            Phase::Idle => {
                self.phase = Phase::Armed;
                None
            },
            Phase::Armed => {
                self.phase = Phase::Idle;
                let result = self.data[idx % MEMORY_SIZE];
                Some(result)
            },
        }
    }

    /// One write invocation of `value` at `idx`: `false` if it armed the
    /// unit, `true` if it stored the value.
    pub fn write(&mut self, idx: usize, value: i16) -> (r: bool)
        ensures
            (final(self)@, r) == old(self)@.write(idx as int, value),
    {
        match self.phase {
            Phase::Idle => {
                self.phase = Phase::Armed;
                false
            },
            Phase::Armed => {
                self.phase = Phase::Idle;
                self.data[idx % MEMORY_SIZE] = value;
                true
            },
        }
    }

    /// Looks at the cell that `idx` selects, without taking part in the
    /// handshake.
    pub fn peek(&self, idx: usize) -> (r: i16)
        ensures
            r == self@.cells[cell_of(idx as int)],
    {
        self.data[idx % MEMORY_SIZE]
    }

    /// Tells where the unit stands in the handshake.
    pub fn phase(&self) -> (r: Phase)
        ensures
            r == self@.phase,
    {
        self.phase
    }
}

/// A write takes exactly two consecutive invocations: on an idle unit the
/// first stores nothing and leaves every cell as it was, and the second
/// stores the value in the addressed cell, changes no other cell and
/// leaves the unit idle.
pub proof fn lemma_write_takes_two_invocations(m: MemoryState, addr: int, value: i16)
    requires
        m.wf(),
        m.phase == Phase::Idle,
    ensures
        !m.write(addr, value).1,
        m.write(addr, value).0.cells == m.cells,
        m.write(addr, value).0.write(addr, value).1,
        m.write(addr, value).0.write(addr, value).0 == (MemoryState {
            cells: m.cells.update(cell_of(addr), value),
            phase: Phase::Idle,
        }),
        m.write(addr, value).0.write(addr, value).0.cells[cell_of(addr)] == value,
{
}

/// A read takes exactly two consecutive invocations: on an idle unit the
/// first hands back nothing, the second hands back the addressed cell, and
/// neither changes a cell.
pub proof fn lemma_read_takes_two_invocations(m: MemoryState, addr: int)
    requires
        m.wf(),
        m.phase == Phase::Idle,
    ensures
        m.read(addr).1 is None,
        m.read(addr).0.cells == m.cells,
        m.read(addr).0.read(addr).1 == Some(m.cells[cell_of(addr)]),
        m.read(addr).0.read(addr).0 == m,
{
}

/// What was written is read back: after a completed write at an address, a
/// completed read at the same address hands back the value written.
pub proof fn lemma_read_after_write(m: MemoryState, addr: int, value: i16)
    requires
        m.wf(),
        m.phase == Phase::Idle,
    ensures
        ({
            let written = m.write(addr, value).0.write(addr, value).0;
            written.read(addr).0.read(addr).1 == Some(value)
        }),
{
}

} // verus!
