use substrate_service::coefficients::ParticipantCoefficients;
use substrate_service::primitives::Address;

fn node(tag: u8) -> Address {
    Address { bytes: [tag; 20] }
}

#[test]
fn new_map_holds_nothing() {
    let coefficients = ParticipantCoefficients::new();
    assert_eq!(coefficients.keys(), Vec::<Address>::new());
    assert_eq!(coefficients.get(&node(1)), None);
}

#[test]
fn inserted_coefficient_is_found() {
    let mut coefficients = ParticipantCoefficients::new();
    assert_eq!(coefficients.insert(node(1), vec![10, 11]), None);
    assert_eq!(coefficients.get(&node(1)), Some(&vec![10u8, 11]));
    assert_eq!(coefficients.get(&node(2)), None);
}

#[test]
fn insert_replaces_and_returns_the_previous_coefficient() {
    let mut coefficients = ParticipantCoefficients::new();
    assert_eq!(coefficients.insert(node(1), vec![10]), None);
    assert_eq!(coefficients.insert(node(2), vec![20]), None);
    assert_eq!(coefficients.insert(node(1), vec![11, 12]), Some(vec![10u8]));
    assert_eq!(coefficients.get(&node(1)), Some(&vec![11u8, 12]));
    assert_eq!(coefficients.get(&node(2)), Some(&vec![20u8]));
    assert_eq!(coefficients.keys(), vec![node(1), node(2)]);
}

#[test]
fn participants_come_in_ascending_order_whatever_the_order_of_insertion() {
    let mut coefficients = ParticipantCoefficients::new();
    coefficients.insert(node(3), vec![3]);
    coefficients.insert(node(1), vec![1]);
    coefficients.insert(node(4), vec![4]);
    coefficients.insert(node(2), vec![2]);
    coefficients.insert(node(0), vec![0]);
    assert_eq!(coefficients.keys(), vec![node(0), node(1), node(2), node(3), node(4)]);
    for tag in 0..5u8 {
        assert_eq!(coefficients.get(&node(tag)), Some(&vec![tag]));
    }
    assert_eq!(coefficients.get(&node(5)), None);
}

#[test]
fn maps_with_the_same_entries_are_equal() {
    let mut first = ParticipantCoefficients::new();
    first.insert(node(2), vec![2]);
    first.insert(node(1), vec![1]);
    let mut second = ParticipantCoefficients::new();
    second.insert(node(1), vec![9]);
    second.insert(node(2), vec![2]);
    second.insert(node(1), vec![1]);
    assert_eq!(first, second);
}

#[test]
fn empty_coefficient_is_a_coefficient() {
    let mut coefficients = ParticipantCoefficients::new();
    coefficients.insert(node(1), Vec::new());
    assert_eq!(coefficients.get(&node(1)), Some(&Vec::<u8>::new()));
    assert_eq!(coefficients.keys(), vec![node(1)]);
}
