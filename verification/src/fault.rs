//! The conditions under which the machine refuses to go on.

use vstd::prelude::*;

verus! {

/// A malformed program or a misuse of the register file. None of these is
/// recoverable: the micro16 has no trap mechanism, so a run ends with the
/// first fault.
#[derive(Clone, Copy, Debug, PartialEq, Eq, Structural)]
pub enum Fault {
    /// The program does not fit into the program store.
    ConstructionError,
    /// A write was aimed at one of the constant registers.
    ReadOnlyRegisterWrite,
    /// A register index lies outside the register file.
    InvalidRegisterIndex,
}

} // verus!
