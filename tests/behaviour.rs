use constuneval::uneval_cow::spell_borrowed;
use constuneval::{to_string, Duplicate, Render, UnevalCow};

#[test]
fn reads_back_borrowed_and_owned() {
    let v: Vec<u64> = vec![4, 5, 6];
    let borrowed = UnevalCow::<[u64]>::Borrowed(&v);
    let owned = UnevalCow::<[u64]>::Owned(v.clone());
    assert_eq!(&*borrowed, &v[..]);
    assert_eq!(&*owned, &v[..]);
    let text = "abc";
    assert_eq!(&*UnevalCow::<str>::Borrowed(text), "abc");
    assert_eq!(&*UnevalCow::<str>::Owned(text.to_string()), "abc");
}

#[test]
fn second_mutable_access_does_not_copy() {
    let data: [u64; 3] = [1, 2, 3];
    let mut cow = UnevalCow::<[u64]>::Borrowed(&data);
    cow.to_mut().push(4);
    assert!(matches!(cow, UnevalCow::Owned(_)));
    let first = cow.to_mut().as_ptr();
    let second = cow.to_mut();
    assert_eq!(second.as_ptr(), first);
    assert_eq!(second, &vec![1, 2, 3, 4]);
    assert_eq!(data, [1, 2, 3]);
}

#[test]
fn mutable_access_keeps_owned_storage() {
    let mut cow = UnevalCow::<[u64]>::Owned(vec![7, 8]);
    let before = match &cow {
        UnevalCow::Owned(v) => v.as_ptr(),
        UnevalCow::Borrowed(_) => panic!("expected owned data"),
    };
    assert_eq!(cow.to_mut().as_ptr(), before);
}

#[test]
fn rendering_ignores_the_variant() {
    let text = "say \"hi\"\n";
    let borrowed = UnevalCow::<str>::Borrowed(text).render();
    let owned = UnevalCow::<str>::Owned(text.to_string()).render();
    assert_eq!(borrowed, owned);
    assert_eq!(borrowed, "UnevalCow::Borrowed( \"say \\\"hi\\\"\\n\" )");
}

#[test]
fn rendered_integers_read_back() {
    let rendered = UnevalCow::<u64>::Owned(u64::MAX).render();
    assert_eq!(rendered, "UnevalCow::Borrowed( &18446744073709551615 )");
    let digits = &rendered["UnevalCow::Borrowed( &".len()..rendered.len() - 2];
    assert_eq!(digits.parse::<u64>().unwrap(), u64::MAX);
    assert_eq!(UnevalCow::<u64>::Borrowed(&0).render(), "UnevalCow::Borrowed( &0 )");
}

#[test]
fn rendered_lists_read_back() {
    let v: Vec<u64> = vec![10, 0, 305];
    let rendered = UnevalCow::<[u64]>::Borrowed(&v).render();
    assert_eq!(rendered, "UnevalCow::Borrowed( &[10, 0, 305] )");
    let inner = &rendered["UnevalCow::Borrowed( &[".len()..rendered.len() - 3];
    let back: Vec<u64> = inner.split(", ").map(|d| d.parse().unwrap()).collect();
    assert_eq!(back, v);
    let empty: Vec<u64> = Vec::new();
    assert_eq!(UnevalCow::<[u64]>::Owned(empty).render(), "UnevalCow::Borrowed( &[] )");
}

#[test]
fn signed_and_small_integers() {
    assert_eq!((-5i32).render(), "-5");
    assert_eq!(i64::MIN.render(), "-9223372036854775808");
    assert_eq!(0u8.render(), "0");
    assert_eq!(65535u16.render(), "65535");
    assert_eq!(UnevalCow::<i32>::Owned(-12).render(), "UnevalCow::Borrowed( &-12 )");
}

#[test]
fn nested_containers_render_borrowed() {
    let tail: [u64; 1] = [3];
    let table = UnevalCow::<[UnevalCow<[u64]>]>::Owned(vec![
        UnevalCow::Owned(vec![1, 2]),
        UnevalCow::Borrowed(&tail),
    ]);
    assert_eq!(
        table.render(),
        "UnevalCow::Borrowed( &[UnevalCow::Borrowed( &[1, 2] ), UnevalCow::Borrowed( &[3] )] )"
    );
}

#[test]
fn text_lists_render_quoted() {
    let v = vec!["a".to_string(), "b\"".to_string()];
    assert_eq!(v.render(), "[\"a\", \"b\\\"\"]");
}

#[test]
fn declaration_text() {
    let value = UnevalCow::<[u64]>::Owned(vec![1, 2]);
    assert_eq!(
        to_string("TABLE", &value, "UnevalCow<'static, [u64]>"),
        "const TABLE: UnevalCow<'static, [u64]> = UnevalCow::Borrowed( &[1, 2] );"
    );
    assert_eq!(to_string("N", &7u64, "u64"), "const N: u64 = 7;");
}

#[test]
fn appending_to_empty_borrows_the_other_text() {
    let hello = "Hello";
    let mut cow = UnevalCow::<str>::Borrowed("");
    cow += hello;
    match cow {
        UnevalCow::Borrowed(s) => assert_eq!(s.as_ptr(), hello.as_ptr()),
        UnevalCow::Owned(_) => panic!("expected borrowed text"),
    }
}

#[test]
fn appending_to_borrowed_text_copies_once() {
    let mut cow = UnevalCow::<str>::Borrowed("Hello");
    cow += " world";
    match &cow {
        UnevalCow::Owned(s) => assert_eq!(s, "Hello world"),
        UnevalCow::Borrowed(_) => panic!("expected owned text"),
    }
    cow += "";
    assert_eq!(&*cow, "Hello world");
    let joined = UnevalCow::<str>::Borrowed("a") + UnevalCow::Borrowed("b") + "c";
    assert_eq!(&*joined, "abc");
    let taken = UnevalCow::<str>::Owned(String::new()) + UnevalCow::Owned("x".to_string());
    assert!(matches!(taken, UnevalCow::Owned(_)));
    assert_eq!(&*taken, "x");
}

#[test]
fn appending_empty_text_keeps_the_borrow() {
    let mut cow = UnevalCow::<str>::Borrowed("Hello");
    cow += "";
    assert!(matches!(cow, UnevalCow::Borrowed("Hello")));
}

#[test]
fn into_owned_copies_borrowed_data() {
    let v: [u64; 2] = [1, 2];
    assert_eq!(UnevalCow::<[u64]>::Borrowed(&v).into_owned(), vec![1, 2]);
    assert_eq!(UnevalCow::<str>::Owned("x".to_string()).into_owned(), "x".to_string());
}

#[test]
fn default_is_owned() {
    let cow: UnevalCow<str> = Default::default();
    assert!(matches!(cow, UnevalCow::Owned(_)));
    assert_eq!(&*cow, "");
}

#[test]
fn boxed_conversions_keep_the_data() {
    let v: [u64; 3] = [9, 8, 7];
    let boxed = UnevalCow::<[u64]>::Borrowed(&v).into_boxed_slice();
    assert_eq!(&*boxed, &v[..]);
    let text = UnevalCow::<str>::Owned("boxed".to_string()).into_boxed_str();
    assert_eq!(&*text, "boxed");
    let copy = UnevalCow::<[u64]>::Owned(vec![9, 8, 7]).duplicate();
    assert_eq!(&*copy, &v[..]);
}

#[test]
fn equality_ignores_the_variant() {
    let v: [u64; 2] = [1, 2];
    assert!(UnevalCow::<[u64]>::Borrowed(&v) == UnevalCow::<[u64]>::Owned(vec![1, 2]));
    assert!(UnevalCow::<[u64]>::Borrowed(&v) != UnevalCow::<[u64]>::Owned(vec![2, 1]));
    let a = UnevalCow::<str>::Owned("z".to_string());
    assert!(a.clone() == a);
}

#[test]
fn ordering_ignores_the_variant() {
    let v: [u64; 2] = [1, 2];
    assert!(UnevalCow::<[u64]>::Borrowed(&v) < UnevalCow::<[u64]>::Owned(vec![1, 3]));
    assert_eq!(
        UnevalCow::<str>::Owned("b".to_string()).partial_cmp(&UnevalCow::<str>::Borrowed("a")),
        Some(std::cmp::Ordering::Greater)
    );
}

#[test]
fn rendered_signed_integers_read_back() {
    let rendered = UnevalCow::<i64>::Borrowed(&-42).render();
    assert_eq!(rendered, "UnevalCow::Borrowed( &-42 )");
    let digits = &rendered["UnevalCow::Borrowed( &".len()..rendered.len() - 2];
    assert_eq!(digits.parse::<i64>().unwrap(), -42);
}

#[test]
fn borrowed_spelling_frames_the_data() {
    assert_eq!(spell_borrowed("\"Hello\"", true), "UnevalCow::Borrowed( \"Hello\" )");
    assert_eq!(spell_borrowed("[1, 2]", false), "UnevalCow::Borrowed( &[1, 2] )");
}

#[test]
fn deref_returns_the_held_reference() {
    let v: [u64; 2] = [3, 4];
    let cow = UnevalCow::<[u64]>::Borrowed(&v);
    assert!(std::ptr::eq(&*cow, &v[..]));
    let copy = cow.clone();
    assert!(std::ptr::eq(&*copy, &v[..]));
    let owned = UnevalCow::<[u64]>::Owned(vec![3, 4]);
    let owned_copy = owned.clone();
    assert!(matches!(owned_copy, UnevalCow::Owned(_)));
    assert_eq!(&*owned_copy, &v[..]);
}

#[test]
fn conversions_from_references_borrow() {
    let v: Vec<u64> = vec![1, 2];
    let cow = UnevalCow::<[u64]>::from(&v);
    assert!(matches!(cow, UnevalCow::Borrowed(_)));
    assert!(std::ptr::eq(&*cow, v.as_slice()));
    let s = String::from("text");
    let text = UnevalCow::<str>::from(&s);
    assert!(matches!(text, UnevalCow::Borrowed("text")));
    let owned = UnevalCow::<str>::from(String::from("own"));
    assert!(matches!(owned, UnevalCow::Owned(_)));
}

#[test]
fn comparisons_follow_the_data() {
    assert!(UnevalCow::<u64>::Borrowed(&5) == UnevalCow::<u64>::Owned(5));
    assert!(UnevalCow::<str>::Borrowed("ab") == UnevalCow::<str>::Owned("ab".to_string()));
    assert!(UnevalCow::<str>::Borrowed("ab") != UnevalCow::<str>::Owned("abc".to_string()));
    let short: [u64; 1] = [1];
    assert!(UnevalCow::<[u64]>::Borrowed(&short) < UnevalCow::<[u64]>::Owned(vec![1, 0]));
    assert!(UnevalCow::<i32>::Owned(-3) < UnevalCow::<i32>::Borrowed(&2));
    assert!(UnevalCow::<str>::Owned("b".to_string()) > UnevalCow::<str>::Borrowed("abc"));
    let nested_a = UnevalCow::<[UnevalCow<[u64]>]>::Owned(vec![UnevalCow::Owned(vec![1])]);
    let one: [u64; 1] = [1];
    let nested_b = UnevalCow::<[UnevalCow<[u64]>]>::Owned(vec![UnevalCow::Borrowed(&one)]);
    assert!(nested_a == nested_b);
}

#[test]
fn truth_values_characters_and_arrays_render() {
    assert_eq!(true.render(), "true");
    assert_eq!(UnevalCow::<bool>::Owned(false).render(), "UnevalCow::Borrowed( &false )");
    assert_eq!('a'.render(), "'a'");
    assert_eq!('\''.render(), "'\\''");
    assert_eq!(UnevalCow::<char>::Borrowed(&'\n').render(), "UnevalCow::Borrowed( &'\\n' )");
    assert_eq!([1u8, 2].render(), "[1, 2]");
    let empty: [u64; 0] = [];
    assert_eq!(empty.render(), "[]");
}

#[test]
fn adding_text_follows_the_append_rules() {
    let hello = "Hello";
    let taken = UnevalCow::<str>::Borrowed("") + hello;
    assert!(matches!(taken, UnevalCow::Borrowed(s) if std::ptr::eq(s, hello)));
    let kept = UnevalCow::<str>::Borrowed("x") + "";
    assert!(matches!(kept, UnevalCow::Borrowed("x")));
    let joined = UnevalCow::<str>::Owned("ab".to_string()) + "c";
    assert!(matches!(joined, UnevalCow::Owned(_)));
    assert_eq!(&*joined, "abc");
}
