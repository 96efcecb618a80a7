use vstd::prelude::*;

verus! {

/// A family of types indexed by a lifetime: `Output` is the view type at `'x`.
pub trait View<'x> {
    /// The view type at lifetime `'x`.
    type Output;
}

} // verus!
