use oyakodon::BowlRef;

/// `into_owner` still frees the owner when dropping the view panics.
#[test]
#[should_panic]
fn into_owner_drops_owner_on_view_panic() {
    #[allow(dead_code)]
    struct PanicOnDrop(String);
    impl Drop for PanicOnDrop {
        fn drop(&mut self) {
            panic!("view drop panic");
        }
    }
    fn make(s: &String) -> PanicOnDrop {
        PanicOnDrop(s.clone())
    }
    BowlRef::new(Box::new(String::from("hello")), make).into_owner();
}

/// `into_view` still frees the view when dropping the owner panics.
#[test]
#[should_panic]
fn into_view_drops_view_on_owner_panic() {
    struct PanicOnDrop(String);
    impl Drop for PanicOnDrop {
        fn drop(&mut self) {
            panic!("owner drop panic");
        }
    }
    fn make_view(owner: &PanicOnDrop) -> Box<String> {
        Box::new(owner.0.clone())
    }
    let _: Box<String> =
        BowlRef::new(Box::new(PanicOnDrop("hello".to_string())), make_view).into_view();
}

/// A bowl passed by value to a function and dropped there frees both the
/// view and the owner.
#[test]
fn ouroboros_88() {
    let bowl = BowlRef::new(Box::new(String::from("hello")), |s: &String| s.len());
    drop(bowl);
}
