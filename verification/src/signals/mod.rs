//! Signals and slots: a signal calls the slots connected to it, in the
//! order in which they were connected. A signal keeps slots of one kind;
//! one whose slots call boxed functions takes any function.

pub mod signal;
pub mod slot;

pub use signal::Signal;
pub use slot::{Slot, SlotFunc};
