//! The ELF auxiliary vector as a typed, verified model.

pub mod auxtype;
pub mod auxvec;
pub mod cache;
pub mod display;
pub mod freebsd;
pub mod generic;
pub mod locate;

pub use auxtype::{Type, Word};
pub use auxvec::{AuxVal, AuxVec};
