use futures_concurrency::future::race_ok::vec::AggregateError;

#[test]
fn holds_the_errors_in_order() {
    let errs = AggregateError::new(vec!["a", "b", "c"]);
    assert_eq!(errs.len(), 3);
    assert_eq!(*errs.get(0), "a");
    assert_eq!(*errs.get(2), "c");
    assert_eq!(errs[1], "b");
    let seen: Vec<&str> = errs.iter().copied().collect();
    assert_eq!(seen, vec!["a", "b", "c"]);
    assert_eq!(errs.into_inner(), vec!["a", "b", "c"]);
}

#[test]
fn renders_the_descriptions_one_after_the_other() {
    let errs = AggregateError::new(vec![10u32, 2, 30]);
    assert_eq!(errs.to_string(), "10230");
    let one = AggregateError::new(vec!["oops".to_string()]);
    assert_eq!(one.to_string(), "oops");
    let none: AggregateError<String> = AggregateError::new(Vec::new());
    assert_eq!(none.to_string(), "");
}

#[test]
fn can_be_changed_through_the_vector() {
    let mut errs = AggregateError::new(vec![1u8, 2]);
    errs[0] = 5;
    errs.push(9);
    assert_eq!(errs.len(), 3);
    assert_eq!(errs.to_string(), "529");
}
