//! A cycle-level simulator for the micro16, a small 16-bit educational
//! microarchitecture, with machine-checked contracts.
//!
//! The machine is built from leaves up: a bit-field accessor over 32-bit
//! words, the micro-instruction decoder, the combinational execution
//! units, the register file, the two-phase memory unit and finally the
//! controller that composes them into one clock step.
//!
//! Every part has a mathematical model, and the contract of every function
//! says what the function does to that model. The laws that hold of the
//! models stand beside them as proof functions.

pub mod bitset32;
pub mod instruction;
pub mod units;
pub mod registers;
pub mod memory;
pub mod fault;
pub mod cpu;
