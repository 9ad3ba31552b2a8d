use weaklang::eval::{eval_expression, run_program, Env, Flow, PrintEvent};
use weaklang::runtime::Value;
use weaklang::syntax::{
    Assignment, Decrement, Expression, Identifier, If, Increment, Literal, LoopWhile, Print,
    PrintFormat, Read, Statement,
};

fn ident(s: &str) -> Identifier {
    Identifier {
        name: String::from(s),
    }
}

fn num(x: f64) -> Value {
    Value::Number(x.to_bits())
}

fn text(s: &str) -> Value {
    Value::String(String::from(s))
}

fn lit_num(x: f64) -> Expression {
    Expression::Literal(Literal::Number(x.to_bits()))
}

fn lit_str(s: &str) -> Expression {
    Expression::Literal(Literal::String(String::from(s)))
}

fn var(s: &str) -> Expression {
    Expression::Object(ident(s))
}

fn assign(name: &str, value: Expression) -> Statement {
    Statement::Assign(Assignment {
        variable: ident(name),
        value,
    })
}

fn print_str(value: Expression) -> Statement {
    Statement::Print(Print {
        value,
        format: PrintFormat::String,
    })
}

fn shown(value: Value) -> PrintEvent {
    PrintEvent {
        value,
        format: PrintFormat::String,
    }
}

#[test]
fn literal_number_round_trip() {
    let env = Env::new();
    for x in [0.0, 1.0, -2.5, 0.12345, 1e300, -1e-300] {
        let result = eval_expression(&lit_num(x), &env);
        assert_eq!(result, num(x));
    }
}

#[test]
fn evaluation_is_idempotent() {
    let mut env = Env::new();
    env.set(&ident("x"), num(2.0));
    let e = Expression::Add(Box::new(var("x")), Box::new(lit_num(1.0)));
    let first = eval_expression(&e, &env);
    let second = eval_expression(&e, &env);
    assert_eq!(first, second);
    assert_eq!(first, num(3.0));
}

#[test]
fn unbound_variable_is_undefined() {
    let env = Env::new();
    assert_eq!(eval_expression(&var("nowhere"), &env), Value::Undefined);
}

#[test]
fn comparison_results_are_one_or_zero() {
    let env = Env::new();
    let lt = Expression::LessThan(Box::new(lit_num(1.0)), Box::new(lit_num(2.0)));
    assert_eq!(eval_expression(&lt, &env), num(1.0));
    let ge = Expression::GreaterOrEqualThan(Box::new(lit_num(1.0)), Box::new(lit_num(2.0)));
    assert_eq!(eval_expression(&ge, &env), num(0.0));
    let ne = Expression::NotEqual(Box::new(lit_num(1.0)), Box::new(lit_str("1")));
    assert_eq!(eval_expression(&ne, &env), num(0.0));
    let sne = Expression::StrictNotEqual(Box::new(lit_num(1.0)), Box::new(lit_str("1")));
    assert_eq!(eval_expression(&sne, &env), num(1.0));
    let neg = Expression::Negate(Box::new(lit_num(0.0)));
    assert_eq!(eval_expression(&neg, &env), num(1.0));
}

#[test]
fn counting_loop_prints_and_terminates() {
    let program = vec![
        assign("x", lit_num(0.0)),
        Statement::LoopWhile(LoopWhile {
            condition: Expression::LessThan(Box::new(var("x")), Box::new(lit_num(3.0))),
            block: vec![
                print_str(var("x")),
                assign(
                    "x",
                    Expression::Add(Box::new(var("x")), Box::new(lit_num(1.0))),
                ),
            ],
        }),
    ];
    let (st, flow) = run_program(&program, Vec::new(), 1000);
    assert_eq!(flow, Flow::Normal);
    assert_eq!(
        st.output,
        vec![shown(num(0.0)), shown(num(1.0)), shown(num(2.0))]
    );
    assert_eq!(st.env.get(&String::from("x")), num(3.0));
}

#[test]
fn falsy_zero_takes_else_branch() {
    let program = vec![Statement::If(If {
        condition: lit_num(0.0),
        block: vec![print_str(lit_str("a"))],
        else_block: Some(vec![print_str(lit_str("b"))]),
    })];
    let (st, flow) = run_program(&program, Vec::new(), 1000);
    assert_eq!(flow, Flow::Normal);
    assert_eq!(st.output, vec![shown(text("b"))]);
}

#[test]
fn if_without_else_skips() {
    let program = vec![Statement::If(If {
        condition: lit_num(0.0),
        block: vec![print_str(lit_str("a"))],
        else_block: None,
    })];
    let (st, flow) = run_program(&program, Vec::new(), 1000);
    assert_eq!(flow, Flow::Normal);
    assert!(st.output.is_empty());
}

#[test]
fn break_in_nested_if_exits_loop() {
    let program = vec![Statement::LoopWhile(LoopWhile {
        condition: lit_num(1.0),
        block: vec![
            Statement::If(If {
                condition: lit_num(1.0),
                block: vec![Statement::Break],
                else_block: None,
            }),
            print_str(lit_str("after")),
        ],
    })];
    let (st, flow) = run_program(&program, Vec::new(), 1000);
    assert_eq!(flow, Flow::Normal);
    assert!(st.output.is_empty());
}

#[test]
fn conditional_break_stops_counting() {
    let program = vec![
        assign("x", lit_num(0.0)),
        Statement::LoopWhile(LoopWhile {
            condition: Expression::LessThan(Box::new(var("x")), Box::new(lit_num(10.0))),
            block: vec![
                Statement::If(If {
                    condition: Expression::Equal(Box::new(var("x")), Box::new(lit_num(2.0))),
                    block: vec![Statement::Break],
                    else_block: None,
                }),
                print_str(var("x")),
                Statement::Increase(Increment {
                    variable: ident("x"),
                }),
            ],
        }),
    ];
    let (st, flow) = run_program(&program, Vec::new(), 1000);
    assert_eq!(flow, Flow::Normal);
    assert_eq!(st.output, vec![shown(num(0.0)), shown(num(1.0))]);
    assert_eq!(st.env.get(&String::from("x")), num(2.0));
}

#[test]
fn continue_skips_rest_of_iteration() {
    let program = vec![
        assign("x", lit_num(0.0)),
        Statement::LoopWhile(LoopWhile {
            condition: Expression::LessThan(Box::new(var("x")), Box::new(lit_num(3.0))),
            block: vec![
                Statement::Increase(Increment {
                    variable: ident("x"),
                }),
                Statement::If(If {
                    condition: Expression::Equal(Box::new(var("x")), Box::new(lit_num(2.0))),
                    block: vec![Statement::Continue],
                    else_block: None,
                }),
                print_str(var("x")),
            ],
        }),
    ];
    let (st, flow) = run_program(&program, Vec::new(), 1000);
    assert_eq!(flow, Flow::Normal);
    assert_eq!(st.output, vec![shown(num(1.0)), shown(num(3.0))]);
}

#[test]
fn endless_loop_exhausts_fuel() {
    let program = vec![Statement::LoopWhile(LoopWhile {
        condition: lit_num(1.0),
        block: Vec::new(),
    })];
    let (_, flow) = run_program(&program, Vec::new(), 50);
    assert_eq!(flow, Flow::Exhausted);
}

#[test]
fn increment_and_decrement_from_unbound() {
    let program = vec![
        Statement::Increase(Increment {
            variable: ident("x"),
        }),
        Statement::Increase(Increment {
            variable: ident("x"),
        }),
        Statement::Decrease(Decrement {
            variable: ident("x"),
        }),
        Statement::Decrease(Decrement {
            variable: ident("y"),
        }),
    ];
    let (st, flow) = run_program(&program, Vec::new(), 1000);
    assert_eq!(flow, Flow::Normal);
    assert_eq!(st.env.get(&String::from("x")), num(1.0));
    assert_eq!(st.env.get(&String::from("y")), num(-1.0));
}

#[test]
fn assignment_replaces_prior_binding() {
    let program = vec![assign("x", lit_num(1.0)), assign("x", lit_num(2.0))];
    let (st, flow) = run_program(&program, Vec::new(), 1000);
    assert_eq!(flow, Flow::Normal);
    assert_eq!(st.env.get(&String::from("x")), num(2.0));
}

#[test]
fn read_consumes_input_in_order() {
    let program = vec![
        Statement::Read(Read {
            variable: ident("a"),
        }),
        Statement::Read(Read {
            variable: ident("b"),
        }),
        print_str(var("a")),
        print_str(var("b")),
    ];
    let (st, flow) = run_program(&program, vec![num(7.0), text("hi")], 1000);
    assert_eq!(flow, Flow::Normal);
    assert_eq!(st.output, vec![shown(num(7.0)), shown(text("hi"))]);
    assert!(st.input.is_empty());
}

#[test]
fn read_past_input_binds_undefined() {
    let program = vec![
        Statement::Read(Read {
            variable: ident("a"),
        }),
        print_str(var("a")),
    ];
    let (st, flow) = run_program(&program, Vec::new(), 1000);
    assert_eq!(flow, Flow::Normal);
    assert_eq!(st.output, vec![shown(Value::Undefined)]);
}

#[test]
fn print_keeps_its_format() {
    let program = vec![
        Statement::Print(Print {
            value: lit_num(65.0),
            format: PrintFormat::Byte,
        }),
        Statement::Print(Print {
            value: lit_str("x"),
            format: PrintFormat::Line,
        }),
    ];
    let (st, flow) = run_program(&program, Vec::new(), 1000);
    assert_eq!(flow, Flow::Normal);
    assert_eq!(
        st.output,
        vec![
            PrintEvent {
                value: num(65.0),
                format: PrintFormat::Byte,
            },
            PrintEvent {
                value: text("x"),
                format: PrintFormat::Line,
            },
        ]
    );
}
