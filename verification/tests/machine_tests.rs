use small_step::{Element, Machine, Store};

#[test]
fn test_machine_reduces_algebraic_expression() {
    println!("Starting the machine…");
    let mut m = Machine::new_with_empty_env(Box::new(Element::Multiply(
        Box::new(Element::Add(
            Box::new(Element::Number(3)),
            Box::new(Element::Number(4)),
        )),
        Box::new(Element::Number(2)),
    )));

    m.run().unwrap();

    println!("All done!");
}

#[test]
fn test_machine_reduces_with_variables() {
    let mut env = Store::new();
    env.insert("x".to_string(), Element::Number(3));
    env.insert("y".to_string(), Element::Number(4));

    let mut m = Machine::new(
        Box::new(Element::Add(
            Box::new(Element::Variable("x".to_string())),
            Box::new(Element::Variable("y".to_string())),
        )),
        env,
    );

    m.run().unwrap();

    let mut env = Store::new();
    env.insert("x".to_string(), Element::Number(3));
    env.insert("y".to_string(), Element::Number(4));

    let exp = Element::Add(
        Box::new(Element::Variable("x".to_string())),
        Box::new(Element::Variable("y".to_string())),
    );
    assert_eq!("x + y".to_string(), exp.to_s());
    let exp = exp.reduce(&mut env).unwrap();
    assert_eq!("3 + y".to_string(), exp.to_s());

    let exp = exp.reduce(&mut env).unwrap();
    assert_eq!("3 + 4".to_string(), exp.to_s());

    let exp = exp.reduce(&mut env).unwrap();
    assert_eq!("7".to_string(), exp.to_s());
}

#[test]
fn test_expression_with_assignment_and_variables_runs() {
    let mut env = Store::new();
    env.insert("y".to_string(), Element::Number(1));

    let mut m = Machine::new(
        Box::new(Element::Sequence(
            Box::new(Element::Assign(
                "x".to_string(),
                Box::new(Element::Number(3)),
            )),
            Box::new(Element::Assign(
                "res".to_string(),
                Box::new(Element::Add(
                    Box::new(Element::Add(
                        Box::new(Element::Number(38)),
                        Box::new(Element::Variable("x".to_string())),
                    )),
                    Box::new(Element::Variable("y".to_string())),
                )),
            )),
        )),
        env,
    );

    m.run().unwrap();

    let env = m.clone_env();

    assert_eq!(1, env.get(&"y".to_string()).unwrap().value());
    assert_eq!(3, env.get(&"x".to_string()).unwrap().value());
    assert_eq!(42, env.get(&"res".to_string()).unwrap().value());
}

#[test]
fn test_expression_with_assignment_and_if() {
    let env = Store::new();

    let mut m = Machine::new(
        Box::new(Element::Sequence(
            Box::new(Element::Assign(
                "x".to_string(),
                Box::new(Element::Boolean(false)),
            )),
            Box::new(Element::IfElse(
                Box::new(Element::Variable("x".to_string())),
                Box::new(Element::Assign(
                    "y".to_string(),
                    Box::new(Element::Number(1)),
                )),
                Box::new(Element::Assign(
                    "y".to_string(),
                    Box::new(Element::Number(42)),
                )),
            )),
        )),
        env,
    );

    m.run().unwrap();

    let env = m.clone_env();

    assert_eq!(0, env.get(&"x".to_string()).unwrap().value());
    assert_eq!(42, env.get(&"y".to_string()).unwrap().value());
}

#[test]
fn test_while_loops_fully_with_machine() {
    let mut env = Store::new();
    env.insert("x".to_string(), Element::Number(1));

    //  1. while (x < 5) [ x = x * 3 ]
    let mut m = Machine::new(
        Box::new(Element::While(
            Box::new(Element::LessThan(
                Box::new(Element::Variable("x".to_string())),
                Box::new(Element::Number(5)),
            )),
            Box::new(Element::Assign(
                "x".to_string(),
                Box::new(Element::Multiply(
                    Box::new(Element::Variable("x".to_string())),
                    Box::new(Element::Number(3)),
                )),
            )),
        )),
        env,
    );

    m.run().unwrap();

    let env = m.clone_env();

    assert_eq!(9, env.get(&"x".to_string()).unwrap().value());
}
