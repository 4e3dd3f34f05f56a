use constuneval::{Render, UnevalCow};
use std::rc::Rc;
use std::sync::Arc;

#[test]
fn test_from_cow_slice() {
    let slice: &[i32] = &[1, 2, 3];
    let borrowed = <Box<[i32]>>::from(UnevalCow::Borrowed(slice));
    let owned = <Box<[i32]>>::from(UnevalCow::Owned(slice.to_owned()));
    assert_eq!(slice, &*borrowed);
    assert_eq!(slice, &*owned);
    let borrowed = <Rc<[i32]>>::from(UnevalCow::Borrowed(slice));
    let owned = <Rc<[i32]>>::from(UnevalCow::Owned(slice.to_owned()));
    assert_eq!(slice, &*borrowed);
    assert_eq!(slice, &*owned);
    let borrowed = <Arc<[i32]>>::from(UnevalCow::Borrowed(slice));
    let owned = <Arc<[i32]>>::from(UnevalCow::Owned(slice.to_owned()));
    assert_eq!(slice, &*borrowed);
    assert_eq!(slice, &*owned);
}

#[test]
fn test_from_cow_str() {
    let string = "hello";
    let borrowed = <Box<str>>::from(UnevalCow::Borrowed(string));
    let owned = <Box<str>>::from(UnevalCow::Owned(string.to_owned()));
    assert_eq!(string, &*borrowed);
    assert_eq!(string, &*owned);
    let borrowed = <Rc<str>>::from(UnevalCow::Borrowed(string));
    let owned = <Rc<str>>::from(UnevalCow::Owned(string.to_owned()));
    assert_eq!(string, &*borrowed);
    assert_eq!(string, &*owned);
    let borrowed = <Arc<str>>::from(UnevalCow::Borrowed(string));
    let owned = <Arc<str>>::from(UnevalCow::Owned(string.to_owned()));
    assert_eq!(string, &*borrowed);
    assert_eq!(string, &*owned);
}

#[test]
fn test_debug_primitive() {
    // int
    assert_eq!(
        UnevalCow::<u64>::Borrowed(&1).render(),
        "UnevalCow::Borrowed( &1 )"
    );
    assert_eq!(
        UnevalCow::<u64>::Owned(1).render(),
        "UnevalCow::Borrowed( &1 )"
    );

    // str
    assert_eq!(
        UnevalCow::<str>::Borrowed("Hello").render(),
        "UnevalCow::Borrowed( \"Hello\" )"
    );

    assert_eq!(
        UnevalCow::<str>::Owned("Hello".to_string()).render(),
        "UnevalCow::Borrowed( \"Hello\" )"
    );
}

#[test]
fn test_debug_slice() {
    // [T]
    assert_eq!(
        UnevalCow::<[u64]>::Borrowed(&[1, 2, 3]).render(),
        "UnevalCow::Borrowed( &[1, 2, 3] )"
    );

    assert_eq!(
        UnevalCow::<[u64]>::Owned(vec![1, 2, 3]).render(),
        "UnevalCow::Borrowed( &[1, 2, 3] )"
    );

    // Box<[T]>
    let box_u64: Box<[u64]> = Box::new([1, 2, 3]);
    assert_eq!(
        UnevalCow::<Box<[u64]>>::Borrowed(&box_u64).render(),
        "UnevalCow::Borrowed( &[1, 2, 3] )"
    );
    assert_eq!(
        UnevalCow::<Box<[u64]>>::Owned(box_u64).render(),
        "UnevalCow::Borrowed( &[1, 2, 3] )"
    );
}
