// The building blocks: bowls with slots and tokens, existential wrappers,
// anchors, and the small pointer types.

use oyakodon::owning_ref::OwningHandle;
use oyakodon::primitive::{Anchor, Bowl, Cell, DanglingDeref, Exists, ForAll};
use oyakodon::{AliasableDeref, MaybeDangling, Owned};
use oyakodon::low_level::taker::Taker;
use std::rc::Rc;
use std::sync::Arc;

#[test]
fn primitive_bowl_map_fill() {
    let bowl = Bowl::new(Box::new(7u64));
    let bowl = bowl.map(|token, slot, stamp| {
        let v = *slot.deref(&token) + 1;
        slot.fill(v, stamp)
    });
    let (owner, view) = bowl.into_parts();
    assert_eq!(*owner, 7);
    assert_eq!(view, 8);
}

#[test]
fn primitive_bowl_deref_mut_changes_owner() {
    let bowl = Bowl::new(Box::new(String::from("ab")));
    let bowl = bowl.map(|token, mut slot, stamp| {
        slot.deref_mut(&token).push('c');
        let n = slot.deref(&token).len();
        slot.fill(n, stamp)
    });
    let (owner, view) = bowl.into_parts();
    assert_eq!(*owner, "abc");
    assert_eq!(view, 3);
}

#[test]
fn primitive_bowl_map_view_and_with() {
    let bowl = Bowl::new(Box::new(20i32));
    let bowl = bowl.map(|token, slot, stamp| {
        let v = *slot.deref(&token);
        slot.fill(v, stamp)
    });
    let mut bowl = bowl.map_view(|v: i32| v + 1);
    assert_eq!(bowl.with(|v: &i32, _slot, _stamp| *v), 21);
    bowl.with_mut(|v: &mut i32, _slot, _stamp| *v *= 2);
    assert_eq!(bowl.into_view(), 42);
}

#[test]
fn primitive_bowl_into_result() {
    let bowl = Bowl::new(Box::new(String::from("12")));
    let bowl = bowl.map(|token, slot, stamp| {
        let parsed: Result<i32, ()> = slot.deref(&token).parse().map_err(|_| ());
        slot.fill(parsed, stamp)
    });
    let ok = bowl.into_result().ok().unwrap();
    assert_eq!(*ok.into_owner(), "12");

    let bowl = Bowl::new(Box::new(String::from("x")));
    let bowl = bowl.map(|token, slot, stamp| {
        let parsed: Result<i32, ()> = slot.deref(&token).parse().map_err(|_| ());
        slot.fill(parsed, stamp)
    });
    let err = bowl.into_result().err().unwrap();
    let (owner, e) = err.into_parts();
    assert_eq!(*owner, "x");
    assert_eq!(e, ());
}

#[test]
fn primitive_bowl_clone_and_spawn() {
    let bowl = Bowl::new(Rc::new(5u8));
    let bowl = bowl.map(|token, slot, stamp| {
        let copy = slot.spawn();
        let v = *slot.deref(&token);
        let _ = copy.into_owner();
        slot.fill(v, stamp)
    });
    let cloned = bowl.clone();
    assert_eq!(*cloned.into_owner(), 5);
    assert_eq!(bowl.into_view(), 5);
}

#[test]
fn primitive_slot_into_owner() {
    let bowl = Bowl::new(Box::new(9u8));
    let owner = bowl.map(|_token, slot, _stamp| slot.into_owner());
    assert_eq!(*owner, 9);
}

#[test]
fn owner_ref_downgrade() {
    let bowl = Bowl::new(Box::new(1u8));
    let v = bowl.map(|token, slot, _stamp| {
        let shared = token.downgrade();
        let copy = shared;
        *slot.deref(&copy) + *slot.deref(&shared)
    });
    assert_eq!(v, 2);
}

#[test]
fn anchor_bind_and_into_inner() {
    let anchor: Anchor<'_, '_, Rc<u8>> = Anchor::new(Rc::new(3u8));
    let again = anchor.clone();
    assert_eq!(*again.into_inner(), 3);
    let bowl = anchor.bind(10u32);
    let (owner, view) = bowl.into_parts();
    assert_eq!(*owner, 3);
    assert_eq!(view, 10);
}

#[test]
fn exists_stamp_and_map() {
    let e = Exists::new();
    let e = e.map(|(), stamp| stamp.stamp(5u32));
    assert_eq!(e.borrow(|v: &u32, _stamp| *v), 5);
    let mut e = e;
    e.borrow_mut(|v: &mut u32, _stamp| *v += 1);
    assert_eq!(e.map(|v, _stamp| v), 6);
}

#[test]
fn exists_cast_and_clone() {
    let e = Exists::new().map(|(), stamp| stamp.stamp(7i64));
    let c = e.clone();
    let short = c.cast();
    assert_eq!(short.map(|v, _stamp| v), 7);
    let d: Exists<'static, i64> = Default::default();
    assert_eq!(d.map(|v, _stamp| v), 0);
}

#[test]
fn for_all_stamp_and_map() {
    let f = ForAll::new();
    let f = f.map(|(), stamp| stamp.stamp(String::from("x")));
    assert_eq!(f.borrow(|v: &String, _stamp| v.clone()), "x");
    let mut f = f;
    f.borrow_mut(|v: &mut String, _stamp| v.push('y'));
    assert_eq!(f.map(|v, _stamp| v), "xy");
}

#[test]
fn maybe_dangling_round_trip() {
    let mut m = MaybeDangling::new(vec![1, 2]);
    m.as_mut().push(3);
    assert_eq!(*m.as_ref(), vec![1, 2, 3]);
    let c = m.clone();
    assert_eq!(c.into_inner(), vec![1, 2, 3]);
    assert_eq!(m.into_inner(), vec![1, 2, 3]);
}

#[test]
fn owned_and_aliasable_deref() {
    let mut o = Owned::new(4u16);
    *o.get_mut() += 1;
    assert_eq!(*o.get(), 5);
    assert_eq!(*o, 5);

    let mut a = AliasableDeref::new(Box::new(String::from("a")));
    a.get_mut().push('b');
    assert_eq!(&*a, "ab");
    assert_eq!(**a.get(), "ab");
    assert_eq!(*a.into_inner(), "ab");
}

#[test]
fn taker_reads_value() {
    let mut slot = Some(11u8);
    let t = Taker::new(&mut slot);
    assert_eq!(*t, 11);
}

#[test]
fn owning_handle_new_with_fn() {
    let h = OwningHandle::new_with_fn(Box::new(String::from("hello")), |s: &String| {
        Box::new(s.len())
    });
    assert_eq!(*h, 5);
    assert_eq!(**h.as_owner(), "hello");
    assert_eq!(*h.into_owner(), "hello");
}

#[test]
fn owning_handle_try_new() {
    let ok = OwningHandle::try_new(Box::new(String::from("42")), |s: &String| {
        s.parse::<i32>().map(Box::new).map_err(|_| 0u8)
    });
    assert_eq!(*ok.ok().unwrap(), 42);

    let err = OwningHandle::try_new(Box::new(String::from("x")), |s: &String| {
        s.parse::<i32>().map(Box::new).map_err(|_| 7u8)
    });
    assert_eq!(err.err().unwrap(), 7);
}

#[test]
fn cell_borrow_and_map() {
    let bowl = Bowl::new(Box::new(0u8));
    let total = bowl.map(|token, _slot, _stamp| {
        let mut cell = Cell::new(40u32);
        {
            let r = cell.borrow_mut();
            let shared = token.downgrade();
            r.map(&shared, |v: &mut u32| *v += 2);
        }
        let seen = cell.borrow().map(&token, |v: &u32| *v);
        let last = cell.map(&token, |v: u32| v);
        (seen, last)
    });
    assert_eq!(total, (42, 42));
}

#[test]
fn dangling_deref_round_trip() {
    let mut d = DanglingDeref::new(Box::new(String::from("p")));
    d.push('q');
    assert_eq!(&*d, "pq");
    assert_eq!(*d.into_inner(), "pq");
}

#[test]
fn anchor_clone_shares_arc_target() {
    let anchor: Anchor<'_, '_, Arc<String>> = Anchor::new(Arc::new(String::from("a")));
    let copy = anchor.clone();
    let first = anchor.into_inner();
    let second = copy.into_inner();
    assert!(Arc::ptr_eq(&first, &second));
    assert_eq!(Arc::strong_count(&first), 2);
}

#[test]
fn slot_spawn_shares_rc_target() {
    let bowl = Bowl::new(Rc::new(1u8));
    let (a, b) = bowl.map(|_token, slot, _stamp| {
        let copy = slot.spawn();
        (slot.into_owner(), copy.into_owner())
    });
    assert!(Rc::ptr_eq(&a, &b));
}
