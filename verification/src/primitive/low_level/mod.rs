//! The universally quantified counterpart of `Exists`.
pub mod for_all;

pub use self::for_all::{ForAll, Stamp};
