//! The smallest building blocks: the `MaybeDangling` wrapper and the
//! stable-address traits every owner type implements.
pub mod aliasable;
pub mod basis;
pub mod polyfill;
pub mod stable_deref;
pub mod taker;
