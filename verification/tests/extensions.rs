use populist_scrapers::extensions::{AsOptStrExt, AsStrUnwrappedOrEmptyExt, NoneIfEmptyExt};

#[test]
fn empty_strings_and_vectors_become_none() {
    assert_eq!(String::new().none_if_empty(), None);
    assert_eq!("x".to_string().none_if_empty(), Some("x".to_string()));
    assert_eq!(" ".to_string().none_if_empty(), Some(" ".to_string()));
    assert_eq!(Vec::<u8>::new().none_if_empty(), None);
    assert_eq!(vec![1, 2].none_if_empty(), Some(vec![1, 2]));
}

#[test]
fn optional_strings_borrow_as_str() {
    let owned: Option<String> = Some("abc".to_string());
    assert_eq!(AsOptStrExt::as_str(&owned), Some("abc"));
    let none: Option<String> = None;
    assert_eq!(AsOptStrExt::as_str(&none), None);
    let s = "def".to_string();
    let borrowed: Option<&String> = Some(&s);
    assert_eq!(AsOptStrExt::as_str(&borrowed), Some("def"));
    assert_eq!(owned.as_str_unwrapped_or_empty(), "abc");
    assert_eq!(none.as_str_unwrapped_or_empty(), "");
    assert_eq!(borrowed.as_str_unwrapped_or_empty(), "def");
}
