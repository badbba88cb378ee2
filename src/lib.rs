//! A typed, branch-explicit intermediate representation: the extension
//! families that give generic declarations their concrete meaning, a program
//! registry that resolves and validates declarations, and a simulator that
//! runs a program's statements against caller-supplied values.
pub mod diagnostics;
pub mod extensions;
pub mod program;
pub mod registry;
pub mod simulation;
pub mod test_setup;
