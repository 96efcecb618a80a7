// Exercises the public API of the three bowl types, method by method.
// Views here are values computed from the owner (they do not borrow it).

use oyakodon::{BowlBox, BowlMut, BowlRef};

fn to_len(s: &String) -> usize {
    s.len()
}
fn to_string(s: &String) -> String {
    s.clone()
}
fn len_of_string(s: String) -> usize {
    s.len()
}
fn str_len_mut(s: &mut String) -> usize {
    s.len()
}
fn deref_i32(x: &mut i32) -> i32 {
    *x
}
fn double_i32(x: i32) -> i32 {
    x * 2
}
fn identity_usize(x: usize) -> usize {
    x
}

// ================================================================================
// BowlRef
// ================================================================================

#[test]
fn bowl_ref_from_derive() {
    let bowl: BowlRef<'_, Box<String>, usize> =
        BowlRef::from_derive(Box::new("hello".to_owned()), to_len);
    assert_eq!(bowl.spawn(|v: &usize| *v), 5);
}

#[test]
fn bowl_ref_from_fn_mut() {
    let bowl: BowlRef<'_, Box<String>, usize> =
        BowlRef::from_fn_mut(Box::new("hello".to_owned()), &mut |s: &String| s.len());
    assert_eq!(bowl.spawn(|v: &usize| *v), 5);
}

#[test]
fn bowl_ref_from_fn_once() {
    let bowl: BowlRef<'_, Box<String>, usize> =
        BowlRef::from_fn_once(Box::new("hello".to_owned()), Box::new(|s: &String| s.len()));
    assert_eq!(bowl.spawn(|v: &usize| *v), 5);
}

#[test]
fn bowl_ref_map() {
    let bowl = BowlRef::new(Box::new("hello".to_owned()), to_string);
    let mapped = bowl.map(len_of_string);
    assert_eq!(mapped.spawn(|v: &usize| *v), 5);
}

#[test]
fn bowl_ref_cast() {
    let bowl: BowlRef<'_, Box<String>, usize> = BowlRef::new(Box::new("hello".to_owned()), to_len);
    let casted: BowlRef<'static, Box<String>, usize> = bowl.cast();
    assert_eq!(casted.spawn(|v: &usize| *v), 5);
}

#[test]
fn bowl_ref_into_view() {
    let bowl = BowlRef::new(Box::new("hello".to_owned()), to_len);
    let len: usize = bowl.into_view();
    assert_eq!(len, 5);
}

#[test]
fn bowl_ref_into_parts() {
    let bowl = BowlRef::new(Box::new("hello".to_owned()), to_len);
    let (owner, len): (Box<String>, usize) = bowl.into_parts();
    assert_eq!(*owner, "hello");
    assert_eq!(len, 5);
}

#[test]
fn bowl_ref_bowl_trait() {
    let bowl = BowlRef::new(Box::new("hello".to_owned()), to_len);
    assert_eq!(bowl.spawn(|v: &usize| *v), 5);
}

// ================================================================================
// BowlMut
// ================================================================================

#[test]
fn bowl_mut_from_fn() {
    let bowl: BowlMut<'_, Box<String>, usize> =
        BowlMut::from_fn(Box::new("hello".to_owned()), &|s: &mut String| s.len());
    assert_eq!(bowl.spawn(|v: &usize| *v), 5);
}

#[test]
fn bowl_mut_from_fn_mut() {
    let bowl: BowlMut<'_, Box<String>, usize> =
        BowlMut::from_fn_mut(Box::new("hello".to_owned()), &mut |s: &mut String| s.len());
    assert_eq!(bowl.spawn(|v: &usize| *v), 5);
}

#[test]
fn bowl_mut_from_fn_once() {
    let bowl: BowlMut<'_, Box<String>, usize> = BowlMut::from_fn_once(
        Box::new("hello".to_owned()),
        Box::new(|s: &mut String| s.len()),
    );
    assert_eq!(bowl.spawn(|v: &usize| *v), 5);
}

#[test]
fn bowl_mut_map() {
    let bowl = BowlMut::new(Box::new(21i32), deref_i32);
    let mapped = bowl.map(double_i32);
    assert_eq!(mapped.spawn(|v: &i32| *v), 42);
}

#[test]
fn bowl_mut_cast_life() {
    let bowl: BowlMut<'_, Box<String>, usize> =
        BowlMut::new(Box::new("hello".to_owned()), str_len_mut);
    let casted: BowlMut<'static, Box<String>, usize> = bowl.cast_life();
    assert_eq!(casted.spawn(|v: &usize| *v), 5);
}

#[test]
fn bowl_mut_cast_view() {
    let bowl = BowlMut::new(Box::new("hello".to_owned()), str_len_mut);
    let mapped = bowl.map(identity_usize);
    let casted: BowlMut<'_, Box<String>, usize> = mapped.cast_view();
    assert_eq!(casted.spawn(|v: &usize| *v), 5);
    drop(casted);
}

#[test]
fn bowl_mut_into_view() {
    let bowl = BowlMut::new(Box::new("hello".to_owned()), str_len_mut);
    let len: usize = bowl.into_view();
    assert_eq!(len, 5);
}

#[test]
fn bowl_mut_into_parts() {
    let bowl = BowlMut::new(Box::new("hello".to_owned()), str_len_mut);
    let (owner, len): (Box<String>, usize) = bowl.into_parts();
    assert_eq!(*owner, "hello");
    assert_eq!(len, 5);
}

#[test]
fn bowl_mut_into_result() {
    fn try_parse(s: &mut String) -> Result<i32, ()> {
        s.parse().map_err(|_| ())
    }
    let ok = BowlMut::new(Box::new("42".to_owned()), try_parse)
        .into_result()
        .ok()
        .unwrap();
    assert_eq!(ok.spawn(|v: &i32| *v), 42);

    let err = BowlMut::new(Box::new("bad".to_owned()), try_parse)
        .into_result()
        .err()
        .unwrap();
    assert_eq!(err.spawn(|v: &()| *v), ());
}

#[test]
fn bowl_mut_sync() {
    fn assert_sync<T: Sync>(_: &T) {}
    let bowl = BowlMut::new(Box::new(42i32), deref_i32);
    assert_sync(&bowl);
}

#[test]
fn bowl_mut_from_bowl_ref() {
    let ref_bowl: BowlRef<'_, Box<String>, usize> =
        BowlRef::new(Box::new("hello".to_owned()), to_len);
    let mut_bowl: BowlMut<'_, Box<String>, usize> = BowlMut::from(ref_bowl);
    assert_eq!(mut_bowl.spawn(|v: &usize| *v), 5);
}

#[test]
fn bowl_mut_bowl_trait() {
    let mut bowl = BowlMut::new(Box::new("hello".to_owned()), str_len_mut);
    assert_eq!(bowl.spawn(|v: &usize| *v), 5);
    bowl.spawn_mut(|v: &mut usize| {
        *v = 99;
    });
    assert_eq!(bowl.spawn(|v: &usize| *v), 99);
}

// ================================================================================
// BowlBox
// ================================================================================

#[test]
fn bowl_box_from_derive() {
    let bowl: BowlBox<'_, String, usize> = BowlBox::from_derive("hello".to_owned(), str_len_mut);
    assert_eq!(bowl.spawn(|v: &usize| *v), 5);
}

#[test]
fn bowl_box_from_fn() {
    let bowl: BowlBox<'_, String, usize> =
        BowlBox::from_fn("hello".to_owned(), &|s: &mut String| s.len());
    assert_eq!(bowl.spawn(|v: &usize| *v), 5);
}

#[test]
fn bowl_box_from_fn_mut() {
    let bowl: BowlBox<'_, String, usize> =
        BowlBox::from_fn_mut("hello".to_owned(), &mut |s: &mut String| s.len());
    assert_eq!(bowl.spawn(|v: &usize| *v), 5);
}

#[test]
fn bowl_box_from_fn_once() {
    let bowl: BowlBox<'_, String, usize> =
        BowlBox::from_fn_once("hello".to_owned(), Box::new(|s: &mut String| s.len()));
    assert_eq!(bowl.spawn(|v: &usize| *v), 5);
}

#[test]
fn bowl_box_map() {
    let bowl = BowlBox::new(21i32, deref_i32);
    let mapped = bowl.map(double_i32);
    assert_eq!(mapped.spawn(|v: &i32| *v), 42);
}

#[test]
fn bowl_box_cast_life() {
    let bowl: BowlBox<'_, String, usize> = BowlBox::new("hello".to_owned(), str_len_mut);
    let casted: BowlBox<'static, String, usize> = bowl.cast_life();
    assert_eq!(casted.spawn(|v: &usize| *v), 5);
}

#[test]
fn bowl_box_cast_view() {
    let bowl = BowlBox::new("hello".to_owned(), str_len_mut);
    let mapped = bowl.map(identity_usize);
    let casted: BowlBox<'_, String, usize> = mapped.cast_view();
    assert_eq!(casted.spawn(|v: &usize| *v), 5);
    drop(casted);
}

#[test]
fn bowl_box_into_view() {
    let bowl = BowlBox::new("hello".to_owned(), str_len_mut);
    let len: usize = bowl.into_view();
    assert_eq!(len, 5);
}

#[test]
fn bowl_box_into_parts() {
    let bowl = BowlBox::new("hello".to_owned(), str_len_mut);
    let (owner, len): (String, usize) = bowl.into_parts();
    assert_eq!(owner, "hello");
    assert_eq!(len, 5);
}

#[test]
fn bowl_box_into_result() {
    fn try_parse(s: &mut String) -> Result<i32, ()> {
        s.parse().map_err(|_| ())
    }
    let ok = BowlBox::new("42".to_owned(), try_parse).into_result().ok().unwrap();
    assert_eq!(ok.spawn(|v: &i32| *v), 42);

    let err = BowlBox::new("bad".to_owned(), try_parse).into_result().err().unwrap();
    assert_eq!(err.spawn(|v: &()| *v), ());
}

#[test]
fn bowl_box_from_into_bowl_mut() {
    let box_bowl: BowlBox<'_, String, usize> = BowlBox::new("hello".to_owned(), str_len_mut);
    let mut_bowl: BowlMut<'_, Box<String>, usize> = BowlMut::from(box_bowl);
    assert_eq!(mut_bowl.spawn(|v: &usize| *v), 5);
    let box_bowl2: BowlBox<'_, String, usize> = BowlBox::from(mut_bowl);
    assert_eq!(box_bowl2.spawn(|v: &usize| *v), 5);
}

#[test]
fn bowl_box_bowl_trait() {
    let mut bowl = BowlBox::new("hello".to_owned(), str_len_mut);
    assert_eq!(bowl.spawn(|v: &usize| *v), 5);
    bowl.spawn_mut(|v: &mut usize| {
        *v = 99;
    });
    assert_eq!(bowl.spawn(|v: &usize| *v), 99);
}
