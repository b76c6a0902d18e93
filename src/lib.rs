//! A minimal code-generation pipeline for one fixed-shape integer function:
//! an IR of the library's own, a verifier for it, its semantics, and the
//! lowering of verified IR through cranelift into this process or into a
//! relocatable object.
pub mod ir;
pub mod validate;
pub mod semantics;
pub mod lower;
pub mod backend;
