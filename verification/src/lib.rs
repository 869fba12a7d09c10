//! Runtime core for `LD_PRELOAD`-style dynamic symbol interposition.
//!
//! Each intercepted symbol owns one [`slot::TargetSlot`]: mutable storage
//! that is either unresolved or holds the entry point of the "next"
//! definition of the symbol in the dynamic search order. The exported
//! wrapper for the symbol resolves the slot on first use, publishes the
//! entry point exactly once, and hands it to user-supplied hook logic on
//! every call; when resolution fails the process must be terminated
//! through the fatal path rather than report a recoverable error.
//!
//! This crate verifies the per-symbol contract: the slot's resolve-once
//! state machine, the per-call dispatch decision, the bytes written on the
//! fatal path, and (as a ghost protocol model) the behaviour of many
//! threads racing through an unresolved wrapper. The actual dynamic-loader
//! lookup and the abort primitive are operating-system services that live
//! with the embedding shared object, which hands their plain results to
//! the functions here.

pub mod diag;
pub mod protocol;
pub mod slot;
pub mod symbol;
pub mod wrapper;
