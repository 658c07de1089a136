//! A minimal, generic finite-state-machine library.
//!
//! A machine is assembled by a builder from an initial state and a
//! caller-supplied transition rule, then driven by consuming inputs.
//! The machine can report its current state, advance it by one input,
//! preview the next state without committing it, force a state directly,
//! and return to its initial state.
//!
//! Every operation carries a contract: the builder is proved to hand out
//! only fully configured machines, and each machine operation is proved
//! to read and change the current state exactly as stated.

pub mod machine;
