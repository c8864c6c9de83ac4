use small_step::{Element, EvalError, Machine, Store};

#[test]
fn addition_reduces_in_exactly_one_step() {
    let mut env = Store::new();
    let t = Element::Add(Box::new(Element::Number(1)), Box::new(Element::Number(2)));
    let red = t.reduce(&mut env).unwrap();
    assert_eq!(Element::Number(3), red);
    assert_eq!(false, red.is_reducible());
}

#[test]
fn reduction_is_deterministic() {
    let build = || {
        let mut env = Store::new();
        env.insert("x".to_string(), Element::Number(3));
        let t = Element::Sequence(
            Box::new(Element::Assign(
                "y".to_string(),
                Box::new(Element::Variable("x".to_string())),
            )),
            Box::new(Element::Number(1)),
        );
        (t, env)
    };
    let (t1, mut env1) = build();
    let (t2, mut env2) = build();
    let r1 = t1.reduce(&mut env1).unwrap();
    let r2 = t2.reduce(&mut env2).unwrap();
    assert_eq!(r1, r2);
    assert_eq!(
        env1.get(&"x".to_string()).unwrap(),
        env2.get(&"x".to_string()).unwrap()
    );
}

#[test]
fn terminal_terms_are_not_rewritten() {
    let mut env = Store::new();
    env.insert("x".to_string(), Element::Number(1));

    let r = Element::DoNothing.reduce(&mut env).unwrap();
    assert_eq!(Element::DoNothing, r);
    assert_eq!(1, env.get(&"x".to_string()).unwrap().value());

    let r = Element::Number(5).reduce(&mut env);
    assert_eq!(Err(EvalError::UnhandledForm), r);
    assert_eq!(1, env.get(&"x".to_string()).unwrap().value());

    let r = Element::Boolean(true).reduce(&mut env);
    assert_eq!(Err(EvalError::UnhandledForm), r);
    assert_eq!(1, env.get(&"x".to_string()).unwrap().value());
}

#[test]
fn unresolved_variable_reduces_to_do_nothing() {
    let mut env = Store::new();
    let r = Element::Variable("z".to_string()).reduce(&mut env).unwrap();
    assert_eq!(Element::DoNothing, r);
    assert!(env.get(&"z".to_string()).is_none());
}

#[test]
fn non_boolean_condition_is_a_type_mismatch() {
    let mut env = Store::new();
    let t = Element::IfElse(
        Box::new(Element::Number(1)),
        Box::new(Element::Number(1)),
        Box::new(Element::Number(2)),
    );
    assert_eq!(Err(EvalError::TypeMismatch), t.reduce(&mut env));
}

#[test]
fn do_nothing_operand_is_a_type_mismatch() {
    let mut env = Store::new();
    let t = Element::Add(Box::new(Element::DoNothing), Box::new(Element::Number(1)));
    assert_eq!(Err(EvalError::TypeMismatch), t.reduce(&mut env));

    let t = Element::LessThan(Box::new(Element::Number(1)), Box::new(Element::DoNothing));
    assert_eq!(Err(EvalError::TypeMismatch), t.reduce(&mut env));
}

#[test]
fn failing_step_leaves_the_store_unchanged() {
    let mut env = Store::new();
    env.insert("x".to_string(), Element::Number(7));
    let t = Element::Assign(
        "x".to_string(),
        Box::new(Element::Add(
            Box::new(Element::DoNothing),
            Box::new(Element::Number(1)),
        )),
    );
    assert_eq!(Err(EvalError::TypeMismatch), t.reduce(&mut env));
    assert_eq!(7, env.get(&"x".to_string()).unwrap().value());
}

#[test]
fn arithmetic_overflow_is_reported() {
    let mut env = Store::new();
    let t = Element::Add(
        Box::new(Element::Number(i64::MAX)),
        Box::new(Element::Number(1)),
    );
    assert_eq!(Err(EvalError::Overflow), t.reduce(&mut env));

    let t = Element::Multiply(
        Box::new(Element::Number(i64::MIN)),
        Box::new(Element::Number(2)),
    );
    assert_eq!(Err(EvalError::Overflow), t.reduce(&mut env));
}

#[test]
fn booleans_count_as_integers() {
    let mut env = Store::new();
    let t = Element::Add(
        Box::new(Element::Boolean(true)),
        Box::new(Element::Number(1)),
    );
    assert_eq!(Element::Number(2), t.reduce(&mut env).unwrap());

    let t = Element::LessThan(
        Box::new(Element::Boolean(false)),
        Box::new(Element::Boolean(true)),
    );
    assert_eq!(Element::Boolean(true), t.reduce(&mut env).unwrap());
}

#[test]
fn numbers_render_with_their_sign() {
    assert_eq!("0".to_string(), Element::Number(0).to_s());
    assert_eq!("-5".to_string(), Element::Number(-5).to_s());
    assert_eq!("120".to_string(), Element::Number(120).to_s());
    assert_eq!(
        "9223372036854775807".to_string(),
        Element::Number(i64::MAX).to_s()
    );
    assert_eq!(
        "-9223372036854775808".to_string(),
        Element::Number(i64::MIN).to_s()
    );
}

#[test]
fn store_insertion_overwrites() {
    let mut env = Store::new();
    env.insert("x".to_string(), Element::Number(1));
    env.insert("x".to_string(), Element::Number(2));
    assert_eq!(2, env.get(&"x".to_string()).unwrap().value());
}

#[test]
fn machine_steps_one_rewrite_at_a_time() {
    let mut m = Machine::new_with_empty_env(Box::new(Element::Add(
        Box::new(Element::Number(1)),
        Box::new(Element::Add(
            Box::new(Element::Number(2)),
            Box::new(Element::Number(3)),
        )),
    )));
    assert_eq!("1 + 2 + 3".to_string(), m.current_term().to_s());
    m.step().unwrap();
    assert_eq!("1 + 5".to_string(), m.current_term().to_s());
    m.step().unwrap();
    assert_eq!(Element::Number(6), *m.current_term());
    assert_eq!(Err(EvalError::UnhandledForm), m.step());
}

#[test]
fn machine_run_reports_the_first_error() {
    let mut m = Machine::new_with_empty_env(Box::new(Element::IfElse(
        Box::new(Element::Number(1)),
        Box::new(Element::Number(2)),
        Box::new(Element::Number(3)),
    )));
    assert_eq!(Err(EvalError::TypeMismatch), m.run());
}
