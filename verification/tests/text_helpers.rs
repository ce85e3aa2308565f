use user_accounts::text::join;

#[test]
fn join_puts_the_separator_between_neighbours() {
    let parts = vec!["a".to_string(), "b".to_string(), "c".to_string()];
    assert_eq!(join(&parts, ", "), "a, b, c");
    assert_eq!(join(&parts, ""), "abc");
}

#[test]
fn join_of_one_part_and_of_none() {
    assert_eq!(join(&vec!["only".to_string()], ";"), "only");
    assert_eq!(join(&Vec::new(), ";"), "");
    assert_eq!(join(&vec!["".to_string(), "".to_string()], ";"), ";");
}
