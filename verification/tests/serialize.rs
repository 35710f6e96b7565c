use lark_requests::RequestSerialize;

#[test]
fn test_se() {
    assert_eq!((&10).serialize(), Some("10".to_string()));
    assert_eq!(vec![1, 2, 3].serialize(), Some("1,2,3".to_string()));
    assert_eq!("hello".serialize(), Some("hello".to_string()));
    assert_eq!(Some("hello".to_string()).serialize(), Some("hello".to_string()));

    assert_eq!(Box::new(10).serialize(), Some("10".to_string()));
    assert_eq!(Box::new(&10).serialize(), Some("10".to_string()));

    assert_eq!(Box::new("10").serialize(), Some("10".to_string()));
    assert_eq!(Box::new("10".to_string()).serialize(), Some("10".to_string()));
}

#[test]
fn absent_option_serializes_to_absent() {
    assert_eq!(None::<String>.serialize(), None);
    assert_eq!(None::<u64>.serialize(), None);
    assert_eq!(Some(5u64).serialize(), Some("5".to_string()));
}

#[test]
fn integer_bounds_serialize_exactly() {
    assert_eq!(0u64.serialize(), Some("0".to_string()));
    assert_eq!(u64::MAX.serialize(), Some("18446744073709551615".to_string()));
    assert_eq!(i64::MIN.serialize(), Some("-9223372036854775808".to_string()));
    assert_eq!(i64::MAX.serialize(), Some("9223372036854775807".to_string()));
    assert_eq!((-1i8).serialize(), Some("-1".to_string()));
    assert_eq!(255u8.serialize(), Some("255".to_string()));
}

#[test]
fn booleans_serialize_to_words() {
    assert_eq!(true.serialize(), Some("true".to_string()));
    assert_eq!(false.serialize(), Some("false".to_string()));
}

#[test]
fn vectors_join_with_commas() {
    let empty: Vec<u64> = vec![];
    assert_eq!(empty.serialize(), Some("".to_string()));
    assert_eq!(vec![7u64].serialize(), Some("7".to_string()));
    assert_eq!(
        vec!["a".to_string(), "b".to_string()].serialize(),
        Some("a,b".to_string())
    );
}
