use vstd::prelude::*;
use crate::primitive::view::View;

verus! {

/// A function that derives a value from its input, consumed by the call.
///
/// `call_req` and `call_ens` name the pre- and postcondition of `call`;
/// every closure is a `Derive` whose conditions are those of the closure.
pub trait Derive<T> {
    /// The derived value.
    type Output;

    /// What `call` requires of its input; by default nothing.
    open spec fn call_req(&self, input: T) -> bool {
        true
    }

    /// What `call` guarantees of its input and result; by default nothing.
    open spec fn call_ens(&self, input: T, output: Self::Output) -> bool {
        true
    }

    /// Runs the derivation.
    fn call(self, input: T) -> (r: Self::Output)
        requires
            self.call_req(input),
        ensures
            self.call_ens(input, r),
    ;
}

impl<T, F, R> Derive<T> for F where F: FnOnce(T) -> R {
    type Output = R;

    open spec fn call_req(&self, input: T) -> bool {
        call_requires(*self, (input,))
    }

    open spec fn call_ens(&self, input: T, output: R) -> bool {
        call_ensures(*self, (input,), output)
    }

    fn call(self, input: T) -> (r: R) {
        self(input)
    }
}

/// Cloning a `T` always gives a value equal to the original.
pub open spec fn clones_exactly<T: Clone>() -> bool {
    forall|a: T, b: T| #[trigger] call_ensures(T::clone, (&a,), b) ==> a == b
}

/// A value that is either a success or a failure.
pub trait Result {
    /// The success payload.
    type Ok;

    /// The failure payload.
    type Err;

    /// The value seen as a standard `Result`.
    spec fn outcome(&self) -> core::result::Result<Self::Ok, Self::Err>;

    /// Converts the value into a standard `Result`.
    fn into(self) -> (r: core::result::Result<Self::Ok, Self::Err>)
        ensures
            r == self.outcome(),
    ;
}

impl<T, E> Result for core::result::Result<T, E> {
    type Ok = T;

    type Err = E;

    open spec fn outcome(&self) -> core::result::Result<T, E> {
        *self
    }

    fn into(self) -> (r: core::result::Result<T, E>) {
        self
    }
}

/// A view family restricted to lifetimes `'x` below `'ub`; `Target` is the
/// view type at `'x`.
pub trait ViewIn<'x, 'ub, X = &'x &'ub ()>: View<'x, Output = <Self as ViewIn<'x, 'ub, X>>::Target> {
    /// The view type at `'x`.
    type Target;
}

impl<'x, 'ub, T: ?Sized> ViewIn<'x, 'ub> for T where T: View<'x> {
    type Target = <T as View<'x>>::Output;
}

} // verus!
