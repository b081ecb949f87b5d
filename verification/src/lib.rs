//! A just-in-time code generator for element-wise, in-place slice
//! transformations.
//!
//! A caller describes a transformation as an element kind plus an ordered
//! sequence of constant-carrying actions, instantiates it into a finalized
//! per-element program, and applies the resulting handle to a slice.  The
//! per-element code path, the counted loop around it, and the calling
//! contract are modelled and proved here; a backend adapter outside the
//! verified boundary can emit the same program into native code through an
//! LLVM toolchain, one instruction per program op.

pub mod actions;
pub mod instantiate;
pub mod program;
pub mod types;
