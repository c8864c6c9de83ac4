use small_step::typed::{quoted, Add, Multiply, Number};

#[test]
fn add_test_instantiate() {}

#[test]
fn number_test_instantiate() {
    let n = Number::new(3);
    assert_eq!(quoted(&n), "«3»".to_string())
}

#[test]
fn test_instantiate_number() {
    let n = Number::new(3);
    assert_eq!(quoted(&n), "«3»".to_string())
}

#[test]
fn test_instantiate_add() {
    let a = Add::new(Number::new(3), Number::new(4));
    assert_eq!(quoted(&a), "«3 + 4»".to_string())
}

#[test]
fn test_instantiate_multiply() {
    let a = Multiply::new(Number::new(3), Number::new(4));
    assert_eq!(quoted(&a), "«3 * 4»".to_string())
}
