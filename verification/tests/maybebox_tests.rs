use freezebox::MaybeBox;
use std::rc::Rc;
use std::sync::Arc;

#[test]
fn maybebox_freezebox_test() {
    // Arc is used to check whether drop occurred.
    let x = Arc::new("hello".to_string());
    let mut y: MaybeBox<Arc<String>> = MaybeBox::default();
    assert!(!y.is_initialized());
    assert!(y.get().is_none());
    y.lazy_init(x.clone());
    assert!(y.is_initialized());
    assert_eq!(**y.get().unwrap(), "hello");

    // Verify that dropping the MaybeBox caused its inner value to be dropped too.
    assert_eq!(Arc::strong_count(&x), 2);
    drop(y);
    assert_eq!(Arc::strong_count(&x), 1);
}

#[test]
fn maybebox_consume_test() {
    let mut x = MaybeBox::<String>::default();
    x.lazy_init("hello".to_string());
    let x2: Option<String> = x.into_inner();
    assert_eq!(x2, Some("hello".to_string()));

    let y = MaybeBox::<String>::default();
    let y2: Option<String> = y.into_inner();
    assert_eq!(y2, None);
}

#[test]
fn maybebox_const_test() {
    let mut x: MaybeBox<String> = MaybeBox::const_default();
    x.lazy_init("hello".to_string());
    assert_eq!(x.get().unwrap(), "hello");
}

#[test]
fn maybebox_new_prefilled() {
    let x = MaybeBox::new(Some(9u64));
    assert!(x.is_initialized());
    assert_eq!(x.get(), Some(&9));

    let y = MaybeBox::<u64>::new(None);
    assert!(!y.is_initialized());
    assert_eq!(y.get(), None);
}

#[test]
fn maybebox_tolerant_scenario() {
    // Query before any write returns absent; after writing 42 it returns
    // present(42); extraction yields 42 exactly once, and a separately
    // constructed empty container yields absent.
    let mut x = MaybeBox::<u64>::default();
    assert!(x.get().is_none());
    x.lazy_init(42);
    assert_eq!(x.get(), Some(&42));
    assert_eq!(x.into_inner(), Some(42));

    let y = MaybeBox::<u64>::default();
    assert_eq!(y.into_inner(), None);
}

#[test]
fn maybebox_get_as_deref() {
    let empty = MaybeBox::<String>::default();
    assert_eq!(empty.get_as_deref(), None);

    let mut x = MaybeBox::<String>::default();
    x.lazy_init("hello".to_string());
    assert_eq!(x.get_as_deref(), Some("hello"));
}

#[test]
fn maybebox_drop_rc_count() {
    // A reference-counted value with external count 1: writing it into a
    // container raises the count to 2, destroying the container returns
    // it to 1, so the contained value is destroyed exactly once.
    let x = Rc::new("hello".to_string());
    assert_eq!(Rc::strong_count(&x), 1);
    let mut y: MaybeBox<Rc<String>> = MaybeBox::default();
    y.lazy_init(x.clone());
    assert_eq!(Rc::strong_count(&x), 2);
    drop(y);
    assert_eq!(Rc::strong_count(&x), 1);
}

#[test]
fn maybebox_extract_rc_count() {
    // Consuming extraction hands the value out instead of destroying it:
    // the reference count stays up until the extracted value itself is
    // dropped, so no double-destruction happens.
    let x = Rc::new("hello".to_string());
    let mut y: MaybeBox<Rc<String>> = MaybeBox::default();
    y.lazy_init(x.clone());
    assert_eq!(Rc::strong_count(&x), 2);
    let v = y.into_inner().unwrap();
    assert_eq!(Rc::strong_count(&x), 2);
    drop(v);
    assert_eq!(Rc::strong_count(&x), 1);
}
