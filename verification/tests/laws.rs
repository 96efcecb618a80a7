// Concrete instances of the properties that the library proves in general.

use oyakodon::{BowlBox, BowlMut, BowlRef};
use std::rc::Rc;

fn to_len(s: &String) -> usize {
    s.len()
}

#[test]
fn law_cast_life_round_trip() {
    let bowl: BowlRef<'_, Box<String>, usize> = BowlRef::new(Box::new("abc".to_owned()), to_len);
    let long: BowlRef<'static, Box<String>, usize> = bowl.cast_life();
    let back: BowlRef<'_, Box<String>, usize> = long.cast_life();
    let (owner, view) = back.into_parts();
    assert_eq!(*owner, "abc");
    assert_eq!(view, 3);
}

#[test]
fn law_from_bowl_ref_keeps_parts() {
    let bowl = BowlRef::new(Box::new("abcd".to_owned()), to_len);
    let (owner, view) = BowlMut::from(bowl).into_parts();
    assert_eq!(*owner, "abcd");
    assert_eq!(view, 4);
}

#[test]
fn law_bowl_box_round_trip() {
    let bowl = BowlBox::new(String::from("xy"), |s: &mut String| s.len());
    let as_mut: BowlMut<'_, Box<String>, usize> = BowlMut::from(bowl);
    let back: BowlBox<'_, String, usize> = BowlBox::from(as_mut);
    let (owner, view) = back.into_parts();
    assert_eq!(owner, "xy");
    assert_eq!(view, 2);
}

#[test]
fn law_map_keeps_owner_and_composes() {
    let bowl = BowlRef::new(Box::new("hello".to_owned()), to_len);
    let mapped = bowl.map(|n: usize| n + 1).map(|n: usize| n * 10);
    let (owner, view) = mapped.into_parts();
    assert_eq!(*owner, "hello");
    assert_eq!(view, 60);
}

#[test]
fn law_into_parts_agrees_with_into_owner_and_into_view() {
    let a = BowlRef::new(Box::new("same".to_owned()), to_len);
    let b = BowlRef::new(Box::new("same".to_owned()), to_len);
    let c = BowlRef::new(Box::new("same".to_owned()), to_len);
    let (owner, view) = a.into_parts();
    assert_eq!(owner, b.into_owner());
    assert_eq!(view, c.into_view());
}

#[test]
fn law_derive_may_change_unique_owner() {
    let bowl = BowlBox::new(String::from("ab"), |s: &mut String| {
        s.push('c');
        s.len()
    });
    assert_eq!(*bowl.get(), 3);
    assert_eq!(bowl.into_owner(), "abc");
}

#[test]
fn law_view_changes_keep_owner() {
    let mut bowl = BowlMut::new(Box::new(5i32), |x: &mut i32| *x);
    *bowl.get_mut() = 8;
    bowl.spawn_mut(|v: &mut i32| *v += 1);
    assert_eq!(*bowl.get(), 9);
    assert_eq!(*bowl.into_owner(), 5);
}

#[test]
fn law_into_result_keeps_owner_on_both_branches() {
    fn parse(s: &String) -> Result<i32, String> {
        s.parse().map_err(|_| s.clone())
    }
    let ok = BowlRef::new(Box::new("7".to_owned()), parse).into_result().ok().unwrap();
    let (owner, v) = ok.into_parts();
    assert_eq!((*owner).as_str(), "7");
    assert_eq!(v, 7);

    let err = BowlRef::new(Box::new("q".to_owned()), parse).into_result().err().unwrap();
    let (owner, e) = err.into_parts();
    assert_eq!((*owner).as_str(), "q");
    assert_eq!(e, "q");
}

#[test]
fn law_equal_bowls_compare_equal() {
    let a = BowlRef::new(Box::new("k".to_owned()), to_len);
    let b = BowlRef::new(Box::new("k".to_owned()), to_len);
    let c = BowlRef::new(Box::new("kk".to_owned()), to_len);
    assert!(a == b);
    assert!(a != c);
}

#[test]
fn law_bowl_mut_over_string_and_vec() {
    fn parse_words(s: &mut str) -> Vec<String> {
        s.split_whitespace().map(|w| w.to_owned()).collect()
    }
    let words = BowlMut::new("hello world foo".to_owned(), parse_words);
    assert_eq!(*words.get(), vec!["hello", "world", "foo"]);
    assert_eq!(words.into_owner(), "hello world foo");

    let mut doubled = BowlMut::new(vec![1, 2, 3], |s: &mut [i32]| {
        for x in s.iter_mut() {
            *x *= 2;
        }
        s.len()
    });
    assert_eq!(*doubled.get(), 3);
    *doubled.get_mut() += 1;
    let (owner, view) = doubled.into_parts();
    assert_eq!(owner, vec![2, 4, 6]);
    assert_eq!(view, 4);

    let shared = BowlRef::new(String::from("abc"), |s: &str| s.to_uppercase());
    assert_eq!(*shared.get(), "ABC");
}

#[test]
fn law_clone_shares_target() {
    let owner = Rc::new(String::from("foo"));
    let b = BowlRef::new(Rc::clone(&owner), |s: &String| s.clone());
    let mut c = b.clone();
    c.spawn_mut(|v: &mut String| v.push_str("bar"));
    assert_eq!(*c.get(), "foobar");
    assert_eq!(*b.get(), "foo");
    let (bo, _) = b.into_parts();
    let (co, _) = c.into_parts();
    assert!(Rc::ptr_eq(&bo, &co));
    assert!(Rc::ptr_eq(&bo, &owner));
}
