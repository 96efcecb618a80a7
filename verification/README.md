# oyakodon

Keep an owner together with a value derived from it (its *view*), and
transform, split and recombine the pair while the owner is kept intact.
The name comes from the Japanese dish in which chicken (the parent) and egg
(the child) are served together.

The library is written in Verus: every public operation carries a contract,
and the contracts are proved.

## Model

Every container is described by two spec functions, `owner()` and `view()`.

* `BowlRef` derives its view from a shared reference to the owner's target;
  the owner is kept exactly as given.
* `BowlMut` derives its view from a unique reference to the owner's target;
  the derivation may change the target, and the bowl keeps what it left.
* `BowlBox` is a `BowlMut` over a `Box`, whose `owner()` is the boxed value.

Owners are the pointers that implement `StableDeref` (`&T`, `&mut T`, `Box`,
`Rc`, `Arc`, `Vec`, `String`); their `target()` names what they point at,
and clones of `CloneStableDeref` pointers share it.

Derivation functions are described by the `Derive` trait: `call_req` and
`call_ens` carry the pre- and postcondition of the function (for closures,
those of the closure). Constructors state that the view is a result of the
derivation applied to the owner's target; `map`, `cast*`, `into_*`, `get*`
and `spawn*` state exactly how they change the owner and the view.

The `primitive` module holds the building blocks: `Bowl` with its `Slot`
and `OwnerRef` token, the `Exists` / `ForAll` wrappers with their stamps,
and `Anchor`. `owning_ref::OwningHandle` keeps an owner next to a handle
built from it.

## Layout

* `src/` — the verified library.
* `tests/` — scenarios and concrete instances of the proved properties.
* `app/` — what needs `async` or raw references into the owner: the
  `into_async` helpers and the `OwningRef` / `OwningRefMut` types.
