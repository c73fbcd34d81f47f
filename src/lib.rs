//! A checker for sorted memory-access traces.
//!
//! A trace lists the accesses that a virtual machine made to its heap and
//! stack memories, sorted by location and then by execution step. The
//! checker decides whether such a trace is consistent with one coherent
//! memory timeline and reports every rule that it breaks.
pub mod entry;
pub mod key;
pub mod flags;
pub mod snapshot;
pub mod width;
pub mod counter;
pub mod rules;
pub mod checker;
pub mod laws;
