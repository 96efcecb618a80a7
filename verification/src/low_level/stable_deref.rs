use vstd::prelude::*;
use std::rc::Rc;
use std::sync::Arc;
use std::vec::Vec;
use std::string::String;

verus! {

/// A pointer whose target stays at the same place while the pointer is
/// moved, so a view derived from the target stays meaningful.
///
/// `target()` names the value the pointer dereferences to; `stable_deref`
/// returns exactly that reference.
pub trait StableDeref: core::ops::Deref {
    /// The value this pointer dereferences to.
    spec fn target(&self) -> &Self::Target;

    /// Dereferences the pointer.
    fn stable_deref(&self) -> (r: &Self::Target)
        ensures
            r == self.target(),
    ;
}

/// A stable pointer that can also hand out a unique reference to its target.
pub trait StableDerefMut: StableDeref + core::ops::DerefMut {
    /// Dereferences the pointer mutably: the reference starts at the current
    /// target, and whatever is left behind it becomes the new target.
    fn stable_deref_mut(&mut self) -> (r: &mut Self::Target)
        ensures
            &*r == (*old(self)).target(),
            (*final(self)).target() == &*final(r),
    ;
}

/// A stable pointer whose clones point at the same target.
pub trait CloneStableDeref: StableDeref + Clone {
    /// Clones the pointer: the clone is a clone in the sense of `Clone`, and
    /// it points at the same target.
    fn clone_pointer(&self) -> (r: Self)
        ensures
            cloned(*self, r),
            r.target() == self.target(),
    ;
}

impl<'a, T: ?Sized> StableDeref for &'a T {
    open spec fn target(&self) -> &T {
        *self
    }

    fn stable_deref(&self) -> (r: &T) {
        *self
    }
}

impl<'a, T: ?Sized> CloneStableDeref for &'a T {
    fn clone_pointer(&self) -> (r: Self) {
        *self
    }
}

impl<'a, T: ?Sized> StableDeref for &'a mut T {
    open spec fn target(&self) -> &T {
        &**self
    }

    fn stable_deref(&self) -> (r: &T) {
        &**self
    }
}

impl<'a, T: ?Sized> StableDerefMut for &'a mut T {
    fn stable_deref_mut(&mut self) -> (r: &mut T) {
        &mut **self
    }
}

impl<T: ?Sized> StableDeref for Box<T> {
    open spec fn target(&self) -> &T {
        &**self
    }

    fn stable_deref(&self) -> (r: &T) {
        &**self
    }
}

impl<T: ?Sized> StableDerefMut for Box<T> {
    fn stable_deref_mut(&mut self) -> (r: &mut T) {
        &mut **self
    }
}

impl<T: ?Sized> StableDeref for Rc<T> {
    open spec fn target(&self) -> &T {
        &**self
    }

    fn stable_deref(&self) -> (r: &T) {
        &**self
    }
}

impl<T: ?Sized> CloneStableDeref for Rc<T> {
    fn clone_pointer(&self) -> (r: Self) {
        rc_clone(self)
    }
}

/// Calls `Rc::clone`, which makes another pointer to the same allocation;
/// the contract claims that the clone points at a value equal to the
/// original's (for a `Rc`, that is what `==` compares).
#[verifier::external_body]
fn rc_clone<T: ?Sized>(this: &Rc<T>) -> (r: Rc<T>)
    ensures
        r == *this,
{
    this.clone()
}

impl<T: ?Sized> StableDeref for Arc<T> {
    open spec fn target(&self) -> &T {
        &**self
    }

    fn stable_deref(&self) -> (r: &T) {
        &**self
    }
}

impl<T: ?Sized> CloneStableDeref for Arc<T> {
    fn clone_pointer(&self) -> (r: Self) {
        arc_clone(self)
    }
}

/// Calls `Arc::clone`, which makes another pointer to the same allocation;
/// the contract claims that the clone points at a value equal to the
/// original's (for a `Arc`, that is what `==` compares).
#[verifier::external_body]
fn arc_clone<T: ?Sized>(this: &Arc<T>) -> (r: Arc<T>)
    ensures
        r == *this,
{
    this.clone()
}

impl<T> StableDeref for Vec<T> {
    /// The slice of the vector's elements.
    open spec fn target(&self) -> &[T] {
        choose|s: &[T]| s@ == self@
    }

    fn stable_deref(&self) -> (r: &[T]) {
        let r = self.as_slice();
        proof {
            lemma_vec_target(self, r);
        }
        r
    }
}

/// The target of a vector is the one slice with the vector's elements.
proof fn lemma_vec_target<T>(v: &Vec<T>, s: &[T])
    requires
        s@ == v@,
    ensures
        v.target() == s,
{
    assert(exists|t: &[T]| t@ == v@);
    assert(v.target() =~= s);
}

impl<T> StableDerefMut for Vec<T> {
    fn stable_deref_mut(&mut self) -> (r: &mut [T]) {
        proof {
            broadcast use vstd::slice::group_slice_axioms;
        }
        let ghost old_self = *self;
        let r = self.as_mut_slice();
        proof {
            lemma_vec_target(&old_self, &*r);
            assert forall|v: Vec<T>, t: &[T]| #[trigger] t@ == #[trigger] v@ implies v.target() == t by {
                lemma_vec_target(&v, t);
            }
        }
        r
    }
}

impl StableDeref for String {
    /// The string slice of the string's characters.
    open spec fn target(&self) -> &str {
        choose|s: &str| s@ == self@
    }

    fn stable_deref(&self) -> (r: &str) {
        string_as_str(self)
    }
}

impl StableDerefMut for String {
    fn stable_deref_mut(&mut self) -> (r: &mut str) {
        string_as_mut_str(self)
    }
}

/// Calls `String::as_str`, which returns the slice holding the whole string.
/// The contract claims that this slice is the string's target: a `str` is
/// its characters, so the slice with exactly the string's characters is
/// that one.
#[verifier::external_body]
fn string_as_str(s: &String) -> (r: &str)
    ensures
        r == s.target(),
{
    s.as_str()
}

/// Calls `String::as_mut_str`, which returns a unique reference to the
/// string's own buffer. The contract claims that the reference starts at the
/// string's target and that what is left behind it is the string's new
/// target.
#[verifier::external_body]
fn string_as_mut_str(s: &mut String) -> (r: &mut str)
    ensures
        &*r == (*old(s)).target(),
        (*final(s)).target() == &*final(r),
{
    s.as_mut_str()
}

} // verus!
