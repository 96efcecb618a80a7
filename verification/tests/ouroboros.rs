// Scenarios of an owner kept with a derived value: build, read, write, recover.

use oyakodon::{BowlMut, BowlRef};

fn get_ref(data: &i32) -> i32 {
    *data
}
fn get_mut_ref(data: &mut i32) -> i32 {
    *data
}
fn try_get_ref_ok(data: &i32) -> Result<i32, ()> {
    Ok(*data)
}
fn try_get_ref_err(_data: &i32) -> Result<i32, i32> {
    Err(56)
}

#[test]
fn box_and_ref() {
    let bowl = BowlRef::new(Box::new(12i32), get_ref);
    assert_eq!(*bowl.get(), 12);
    drop(bowl);
}

#[test]
fn try_new() {
    let bowl = BowlRef::new(Box::new(12i32), try_get_ref_ok).into_result().ok().unwrap();
    assert_eq!(*bowl.get(), 12);
}

#[test]
fn try_new_err() {
    let err_bowl = BowlRef::new(Box::new(12i32), try_get_ref_err).into_result().err().unwrap();
    assert_eq!(*err_bowl.get(), 56);
}

#[test]
fn try_new_recover_heads() {
    let err_bowl = BowlRef::new(Box::new(12i32), try_get_ref_err).into_result().err().unwrap();
    let (owner, err) = err_bowl.into_parts();
    assert_eq!(*owner, 12);
    assert_eq!(err, 56);
}

#[test]
fn into_heads() {
    let bowl = BowlRef::new(Box::new(12i32), get_ref);
    assert_eq!(*bowl.into_owner(), 12);
}

#[test]
fn box_and_mut_ref() {
    let mut bowl = BowlMut::new(Box::new(12i32), get_mut_ref);
    assert_eq!(*bowl.get(), 12);
    *bowl.get_mut() = 34;
    assert_eq!(*bowl.get(), 34);
}

#[test]
fn single_lifetime() {
    let external = "Hello world!".to_owned();
    fn identity(s: &str) -> String {
        s.to_owned()
    }
    let bowl = BowlRef::new(&external[..], identity);
    assert_eq!(*bowl.get(), "Hello world!");
    drop(bowl);
}
