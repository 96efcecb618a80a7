use vstd::prelude::*;
use core::marker::PhantomData;

verus! {

/// A zero-sized marker that makes the enclosing type invariant in `T`.
pub struct PhantomInvariant<T>(PhantomData<T>);

/// A zero-sized marker that makes the enclosing type invariant in `'a`.
pub struct PhantomInvariantLifetime<'a>(PhantomInvariant<&'a ()>);

} // verus!
