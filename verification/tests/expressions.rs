use orc_parser::{
    has_expr_shape, parse_expr, BinaryOp, Expr, Literal, Node, PrimitiveType, Rule, Statement, Type,
    Variable,
};

fn integer(text: &str) -> Node {
    Node::leaf(Rule::IntegerLiteral, text)
}

fn float(text: &str) -> Node {
    Node::leaf(Rule::FloatLiteral, text)
}

fn var(name: &str) -> Node {
    Node::leaf(Rule::Variable, name)
}

fn add() -> Node {
    Node::leaf(Rule::Add, "+")
}

fn subtract() -> Node {
    Node::leaf(Rule::Subtract, "-")
}

fn multiply() -> Node {
    Node::leaf(Rule::Multiply, "*")
}

fn divide() -> Node {
    Node::leaf(Rule::Divide, "/")
}

fn modulo() -> Node {
    Node::leaf(Rule::Modulo, "%")
}

fn minus() -> Node {
    Node::leaf(Rule::UnaryMinus, "-")
}

fn int_lit(text: &str) -> Expr {
    Expr::Literal(Literal::Integer(text.to_string()))
}

fn float_lit(text: &str) -> Expr {
    Expr::Literal(Literal::Floating(text.to_string()))
}

fn name(text: &str) -> Expr {
    Expr::Variable(Variable { name: text.to_string(), var_type: Type::Unknown })
}

fn bin(left: Expr, op: BinaryOp, right: Expr) -> Expr {
    Expr::BinOp { left: Box::new(left), op, right: Box::new(right) }
}

fn neg(operand: Expr) -> Expr {
    Expr::UnaryMinus(Box::new(operand))
}

fn parse(pairs: Vec<Node>) -> Expr {
    assert!(has_expr_shape(&pairs));
    parse_expr(&pairs)
}

#[test]
fn integer_literal_keeps_its_text() {
    assert_eq!(parse(vec![integer("42")]), int_lit("42"));
    assert_eq!(parse(vec![integer("007")]), int_lit("007"));
    assert_eq!(
        parse(vec![integer("123456789012345678901234567890")]),
        int_lit("123456789012345678901234567890")
    );
}

#[test]
fn float_literal_keeps_its_text() {
    assert_eq!(parse(vec![float("2.2")]), float_lit("2.2"));
    assert_eq!(parse(vec![float("1.50")]), float_lit("1.50"));
    assert_eq!(
        parse(vec![float("0.1000000000000000055511151231257827")]),
        float_lit("0.1000000000000000055511151231257827")
    );
}

#[test]
fn variable_has_unknown_type() {
    assert_eq!(parse(vec![var("total")]), name("total"));
}

#[test]
fn single_binary_operation_maps_each_operator() {
    let cases = [
        (add(), BinaryOp::Add),
        (subtract(), BinaryOp::Subtract),
        (multiply(), BinaryOp::Multiply),
        (divide(), BinaryOp::Divide),
        (modulo(), BinaryOp::Modulo),
    ];
    for (node, op) in cases {
        assert_eq!(parse(vec![var("a"), node, var("b")]), bin(name("a"), op, name("b")));
    }
}

#[test]
fn additive_operators_associate_left() {
    let ops = [(add(), BinaryOp::Add), (subtract(), BinaryOp::Subtract)];
    for (first, op1) in &ops {
        for (second, op2) in &ops {
            let pairs = vec![
                var("a"),
                Node::leaf(first.rule, &first.text),
                var("b"),
                Node::leaf(second.rule, &second.text),
                var("c"),
            ];
            assert_eq!(parse(pairs), bin(bin(name("a"), *op1, name("b")), *op2, name("c")));
        }
    }
}

#[test]
fn multiplicative_operators_associate_left() {
    let ops = [
        (multiply(), BinaryOp::Multiply),
        (divide(), BinaryOp::Divide),
        (modulo(), BinaryOp::Modulo),
    ];
    for (first, op1) in &ops {
        for (second, op2) in &ops {
            let pairs = vec![
                var("a"),
                Node::leaf(first.rule, &first.text),
                var("b"),
                Node::leaf(second.rule, &second.text),
                var("c"),
            ];
            assert_eq!(parse(pairs), bin(bin(name("a"), *op1, name("b")), *op2, name("c")));
        }
    }
}

#[test]
fn subtraction_chain_associates_left() {
    let pairs = vec![var("a"), subtract(), var("b"), subtract(), var("c"), subtract(), var("d")];
    assert_eq!(
        parse(pairs),
        bin(
            bin(bin(name("a"), BinaryOp::Subtract, name("b")), BinaryOp::Subtract, name("c")),
            BinaryOp::Subtract,
            name("d")
        )
    );
}

#[test]
fn multiplication_binds_tighter_than_addition() {
    let pairs = vec![var("a"), add(), var("b"), multiply(), var("c")];
    let parsed = parse(pairs);
    assert_eq!(
        parsed,
        bin(name("a"), BinaryOp::Add, bin(name("b"), BinaryOp::Multiply, name("c")))
    );
    assert_ne!(
        parsed,
        bin(bin(name("a"), BinaryOp::Add, name("b")), BinaryOp::Multiply, name("c"))
    );
}

#[test]
fn multiplication_before_addition_is_applied_first() {
    let pairs = vec![var("a"), multiply(), var("b"), add(), var("c")];
    assert_eq!(
        parse(pairs),
        bin(bin(name("a"), BinaryOp::Multiply, name("b")), BinaryOp::Add, name("c"))
    );
}

#[test]
fn mixed_tiers_in_a_longer_expression() {
    // 1 + 1 + a / 2.2
    let pairs = vec![integer("1"), add(), integer("1"), add(), var("a"), divide(), float("2.2")];
    assert_eq!(
        parse(pairs),
        bin(
            bin(int_lit("1"), BinaryOp::Add, int_lit("1")),
            BinaryOp::Add,
            bin(name("a"), BinaryOp::Divide, float_lit("2.2"))
        )
    );
    // a * b - c % d + e
    let pairs = vec![
        var("a"),
        multiply(),
        var("b"),
        subtract(),
        var("c"),
        modulo(),
        var("d"),
        add(),
        var("e"),
    ];
    assert_eq!(
        parse(pairs),
        bin(
            bin(
                bin(name("a"), BinaryOp::Multiply, name("b")),
                BinaryOp::Subtract,
                bin(name("c"), BinaryOp::Modulo, name("d"))
            ),
            BinaryOp::Add,
            name("e")
        )
    );
}

#[test]
fn unary_minus_binds_to_its_operand_alone() {
    let pairs = vec![minus(), var("a"), multiply(), var("b")];
    assert_eq!(parse(pairs), bin(neg(name("a")), BinaryOp::Multiply, name("b")));
}

#[test]
fn unary_minus_on_the_right_operand() {
    let pairs = vec![var("a"), subtract(), minus(), var("b")];
    assert_eq!(parse(pairs), bin(name("a"), BinaryOp::Subtract, neg(name("b"))));
}

#[test]
fn unary_minus_repeats() {
    let pairs = vec![minus(), minus(), minus(), integer("1")];
    assert_eq!(parse(pairs), neg(neg(neg(int_lit("1")))));
}

#[test]
fn wrapped_expressions_are_unwrapped() {
    let inner = Node::branch(Rule::BinExp, "a + b", vec![var("a"), add(), var("b")]);
    let wrapped = Node::branch(Rule::Expr, "a + b", vec![inner]);
    let pairs = vec![wrapped, multiply(), var("c")];
    assert_eq!(
        parse(pairs),
        bin(bin(name("a"), BinaryOp::Add, name("b")), BinaryOp::Multiply, name("c"))
    );
}

#[test]
fn block_with_one_binding_and_a_tail() {
    // {let a = 1; a + 1}
    let binding = Node::branch(
        Rule::Statement,
        "let a = 1;",
        vec![Node::branch(
            Rule::LetStatement,
            "let a = 1",
            vec![var("a"), Node::branch(Rule::Expr, "1", vec![integer("1")])],
        )],
    );
    let tail = Node::branch(Rule::Expr, "a + 1", vec![var("a"), add(), integer("1")]);
    let block = Node::branch(Rule::ExpBlock, "{let a = 1; a + 1}", vec![binding, tail]);
    assert_eq!(
        parse(vec![block]),
        Expr::ExprBlock(
            vec![Statement::LetStatement {
                name: "a".to_string(),
                var_type: Type::Primitive(PrimitiveType::NoneType),
                value: int_lit("1"),
            }],
            Box::new(bin(name("a"), BinaryOp::Add, int_lit("1")))
        )
    );
}

#[test]
fn block_without_statements() {
    let block = Node::branch(Rule::ExpBlock, "{x}", vec![var("x")]);
    assert_eq!(parse(vec![block]), Expr::ExprBlock(vec![], Box::new(name("x"))));
}

#[test]
fn block_keeps_the_order_of_its_statements() {
    let binding = |name: &str| {
        Node::branch(Rule::LetStatement, "", vec![Node::leaf(Rule::Variable, name)])
    };
    let block = Node::branch(
        Rule::ExpBlock,
        "",
        vec![binding("first"), binding("second"), binding("third"), integer("0")],
    );
    let bare = |name: &str| Statement::LetStatement {
        name: name.to_string(),
        var_type: Type::Primitive(PrimitiveType::NoneType),
        value: Expr::Literal(Literal::NoneValue()),
    };
    assert_eq!(
        parse(vec![block]),
        Expr::ExprBlock(
            vec![bare("first"), bare("second"), bare("third")],
            Box::new(int_lit("0"))
        )
    );
}

#[test]
fn block_as_an_operand() {
    let block = Node::branch(Rule::ExpBlock, "{x}", vec![var("x")]);
    let pairs = vec![integer("2"), multiply(), block];
    assert_eq!(
        parse(pairs),
        bin(int_lit("2"), BinaryOp::Multiply, Expr::ExprBlock(vec![], Box::new(name("x"))))
    );
}

#[test]
fn binding_powers_order_the_tiers() {
    assert_eq!(BinaryOp::Add.precedence(), BinaryOp::Subtract.precedence());
    assert_eq!(BinaryOp::Multiply.precedence(), BinaryOp::Divide.precedence());
    assert_eq!(BinaryOp::Multiply.precedence(), BinaryOp::Modulo.precedence());
    assert!(BinaryOp::Add.precedence() < BinaryOp::Multiply.precedence());
    assert_eq!(BinaryOp::Add.precedence(), 1);
    assert_eq!(BinaryOp::Modulo.precedence(), 2);
}

#[test]
fn only_operator_rules_are_infix() {
    assert_eq!(Rule::Add.as_infix(), Some(BinaryOp::Add));
    assert_eq!(Rule::Subtract.as_infix(), Some(BinaryOp::Subtract));
    assert_eq!(Rule::Multiply.as_infix(), Some(BinaryOp::Multiply));
    assert_eq!(Rule::Divide.as_infix(), Some(BinaryOp::Divide));
    assert_eq!(Rule::Modulo.as_infix(), Some(BinaryOp::Modulo));
    assert_eq!(Rule::UnaryMinus.as_infix(), None);
    assert_eq!(Rule::Variable.as_infix(), None);
    assert_eq!(Rule::Expr.as_infix(), None);
}
