use passport_prover::assignment::Assignment;

#[test]
fn a_new_assignment_is_empty() {
    let assignment = Assignment::new();
    assert_eq!(assignment.signal_count(), 0);
    assert_eq!(assignment.get("mrz"), None);
    assert_eq!(assignment.position("mrz"), None);
}

#[test]
fn values_keep_the_order_of_the_pushes() {
    let mut assignment = Assignment::new();
    assignment.push_input("a", 3);
    assignment.push_input("a", 1);
    assignment.push_input("a", 2);
    assert_eq!(assignment.get("a"), Some(&vec![3, 1, 2]));
    assert_eq!(assignment.signal_count(), 1);
}

#[test]
fn signals_are_kept_apart() {
    let mut assignment = Assignment::new();
    assignment.push_input("a", 1);
    assignment.push_input("b", 2);
    assignment.push_input("a", 3);
    assignment.push_input("c", 4);
    assignment.push_input("b", 5);
    assert_eq!(assignment.get("a"), Some(&vec![1, 3]));
    assert_eq!(assignment.get("b"), Some(&vec![2, 5]));
    assert_eq!(assignment.get("c"), Some(&vec![4]));
    assert_eq!(assignment.get("d"), None);
    assert_eq!(assignment.signal_count(), 3);
}

#[test]
fn signals_stand_in_the_order_of_their_first_value() {
    let mut assignment = Assignment::new();
    assignment.push_input("b", 1);
    assignment.push_input("a", 2);
    assignment.push_input("b", 3);
    assert_eq!(assignment.position("b"), Some(0));
    assert_eq!(assignment.position("a"), Some(1));
    assert_eq!(assignment.signal_name(0), "b");
    assert_eq!(assignment.signal_name(1), "a");
    assert_eq!(assignment.signal_values(0), &vec![1, 3]);
    assert_eq!(assignment.signal_values(1), &vec![2]);
}

#[test]
fn names_are_compared_letter_by_letter() {
    let mut assignment = Assignment::new();
    assignment.push_input("mrz", 1);
    assignment.push_input("Mrz", 2);
    assignment.push_input("mrz ", 3);
    assignment.push_input("", 4);
    assert_eq!(assignment.signal_count(), 4);
    assert_eq!(assignment.get("mrz"), Some(&vec![1]));
    assert_eq!(assignment.get("Mrz"), Some(&vec![2]));
    assert_eq!(assignment.get("mrz "), Some(&vec![3]));
    assert_eq!(assignment.get(""), Some(&vec![4]));
}

#[test]
fn the_largest_value_is_held_as_it_is() {
    let mut assignment = Assignment::new();
    assignment.push_input("a", u128::MAX);
    assignment.push_input("a", 0);
    assert_eq!(assignment.get("a"), Some(&vec![u128::MAX, 0]));
}
