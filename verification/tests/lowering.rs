use chandra::lowering::{DataType, LowerError, Lowered};
use chandra::operation::{
    BinaryOp, Constant, Container, Function, FunctionName, Inputs, Literal, Location, Operation,
    Parameters, Scope,
};
use chandra::operations;
use chandra::parse_function::Parsefn;
use chandra::syntax::{BinOp, Block, Expr, FieldValue, Lit, Member, Pat, Path, Stmt, Type};
use chandra::tables::{Keyed, Named};
use chandra::types::ValueKind;
use chandra::var::Variable;

fn path(names: &[&str]) -> Path {
    Path { global: false, segments: names.iter().map(|n| n.to_string()).collect() }
}

fn name(n: &str) -> Expr {
    Expr::Path(path(&[n]))
}

fn lit(digits: &str, suffix: &str) -> Expr {
    Expr::Lit(Lit { digits: digits.to_string(), suffix: suffix.to_string(), float: false })
}

fn float(digits: &str, suffix: &str) -> Expr {
    Expr::Lit(Lit { digits: digits.to_string(), suffix: suffix.to_string(), float: true })
}

fn binary(op: BinOp, left: Expr, right: Expr) -> Expr {
    Expr::Binary { op, left: Box::new(left), right: Box::new(right) }
}

fn index(base: &str, at: Expr) -> Expr {
    Expr::Index { expr: Box::new(name(base)), index: Box::new(at) }
}

fn field(base: &str, member: &str) -> Expr {
    Expr::Field { base: Box::new(name(base)), member: Member::Named(member.to_string()) }
}

fn assign(left: Expr, right: Expr) -> Expr {
    Expr::Assign { left: Box::new(left), right: Box::new(right) }
}

fn call(names: &[&str], args: Vec<Expr>) -> Expr {
    Expr::Call { func: Box::new(Expr::Path(path(names))), generics: vec![], args }
}

fn local(n: &str, init: Expr) -> Stmt {
    Stmt::Local { pat: Pat::Ident(n.to_string()), init: Some(init) }
}

fn block(stmts: Vec<Stmt>) -> Block {
    Block { stmts }
}

fn scalar(ty: &str) -> Type {
    Type::Path(path(&[ty]), vec![])
}

fn bound(n: &str, value: DataType) -> Named<DataType> {
    Named { name: n.to_string(), value }
}

fn variable(n: &str, kind: ValueKind) -> Variable {
    Variable::new(n, kind)
}

fn get(n: &str, kind: ValueKind) -> Operation {
    operations::get(&variable(n, kind))
}

fn literal(kind: ValueKind, digits: &str) -> Operation {
    Operation::Literal(Literal { kind, value: Constant::Integer(digits.to_string()) })
}

fn square() -> Function {
    let x = variable("v", ValueKind::F32);
    let body = Scope::new(ValueKind::F32)
        .returning(operations::returning(operations::multiply(operations::get(&x), operations::get(&x))));
    operations::function("square", Parameters { first: x, rest: None }, body)
}

fn walk() -> Parsefn {
    Parsefn {
        expr_type: None,
        vars: vec![
            bound("x", DataType::Scalar(ValueKind::F32)),
            bound("n", DataType::Scalar(ValueKind::U32)),
            bound("a", DataType::Indexable { element: ValueKind::F32, container: Container::Vector }),
            bound("t", DataType::Indexable { element: ValueKind::I32, container: Container::Tensor }),
        ],
        known_structures: vec![Named {
            name: "Pos".to_string(),
            value: vec![
                Named { name: "x".to_string(), value: "u32".to_string() },
                Named { name: "w".to_string(), value: "Weird".to_string() },
            ],
        }],
        known_records: vec![Named { name: "pos".to_string(), value: "Pos".to_string() }],
        known_generics: vec!["T".to_string()],
        returns_struct: false,
        known_functions: vec![
            Keyed { path: path(&["math", "square"]), value: path(&["math", "square"]) },
            Keyed { path: path(&["both"]), value: path(&["plain"]) },
            Keyed { path: path(&["missing"]), value: path(&["missing"]) },
        ],
        known_extensions: vec![
            Keyed { path: path(&["sq"]), value: path(&["math", "square"]) },
            Keyed { path: path(&["both"]), value: path(&["math", "square"]) },
        ],
        definitions: vec![
            Keyed { path: path(&["math", "square"]), value: square() },
            Keyed { path: path(&["plain"]), value: operations::function(
                "plain",
                Parameters { first: variable("v", ValueKind::I32), rest: None },
                Scope::new(ValueKind::I32),
            ) },
        ],
    }
}

fn lowered(e: &Expr) -> Result<Operation, LowerError> {
    walk().fold_expr(e).map(|l| l.op)
}

fn binary_node(op: BinaryOp, kind: ValueKind, left: Operation, right: Operation) -> Operation {
    match operations::add(left, right) {
        Operation::Binary(mut b) => {
            b.op = op;
            b.kind = kind;
            Operation::Binary(b)
        }
        other => other,
    }
}

#[test]
fn a_suffixed_literal_takes_the_kind_of_its_suffix() {
    let mut p = walk();
    let l = p.fold_expr(&lit("7", "u64")).unwrap();
    assert_eq!(l, Lowered { op: literal(ValueKind::U64, "7"), typed: true });
    assert_eq!(p.expr_type, Some(ValueKind::U64));
    for (suffix, kind) in [
        ("f32", ValueKind::F32),
        ("i32", ValueKind::I32),
        ("i64", ValueKind::I64),
        ("u32", ValueKind::U32),
        ("bool", ValueKind::Bool),
    ] {
        assert_eq!(lowered(&lit("1", suffix)).unwrap().kind(), kind);
    }
}

#[test]
fn a_literal_without_suffix_has_no_kind_yet() {
    let mut p = walk();
    let l = p.fold_expr(&lit("7", "")).unwrap();
    assert!(!l.typed);
    assert_eq!(p.expr_type, None);
    let l = p.fold_expr(&lit("7", "u8")).unwrap();
    assert!(!l.typed);
}

#[test]
fn a_literal_takes_the_kind_of_the_other_operand() {
    let e = binary(BinOp::Add, name("x"), lit("1", ""));
    assert_eq!(
        lowered(&e).unwrap(),
        binary_node(
            BinaryOp::Add,
            ValueKind::F32,
            get("x", ValueKind::F32),
            literal(ValueKind::F32, "1")
        )
    );
    let e = binary(BinOp::Mul, lit("2", ""), name("n"));
    assert_eq!(
        lowered(&e).unwrap(),
        binary_node(
            BinaryOp::Multiply,
            ValueKind::U32,
            literal(ValueKind::U32, "2"),
            get("n", ValueKind::U32)
        )
    );
}

#[test]
fn a_float_literal_keeps_its_digits() {
    let e = binary(BinOp::Sub, name("x"), float("1.5", ""));
    match lowered(&e).unwrap() {
        Operation::Binary(b) => {
            assert_eq!(
                b.right,
                Operation::Literal(Literal {
                    kind: ValueKind::F32,
                    value: Constant::Float("1.5".to_string())
                })
            );
            assert_eq!(b.kind, ValueKind::F32);
        }
        other => panic!("{:?}", other),
    }
}

#[test]
fn the_kind_of_the_result_is_that_of_the_typed_operand_for_every_arithmetic_operator() {
    for (op, node) in [
        (BinOp::Add, BinaryOp::Add),
        (BinOp::Sub, BinaryOp::Subtract),
        (BinOp::Mul, BinaryOp::Multiply),
        (BinOp::Div, BinaryOp::Divide),
    ] {
        let mut p = walk();
        let l = p.fold_expr(&binary(op, lit("3", ""), name("n"))).unwrap();
        assert_eq!(l.op.kind(), ValueKind::U32);
        assert_eq!(p.expr_type, Some(ValueKind::U32));
        match l.op {
            Operation::Binary(b) => {
                assert_eq!(b.op, node);
                assert_eq!(b.left.kind(), ValueKind::U32);
            }
            other => panic!("{:?}", other),
        }
    }
}

#[test]
fn comparisons_and_logic_yield_bool() {
    for (op, node) in [
        (BinOp::Ge, BinaryOp::GreaterThanOrEqual),
        (BinOp::Gt, BinaryOp::GreaterThan),
        (BinOp::Le, BinaryOp::LessThanOrEqual),
        (BinOp::Lt, BinaryOp::LessThan),
        (BinOp::Eq, BinaryOp::Equals),
        (BinOp::Ne, BinaryOp::NotEqual),
        (BinOp::And, BinaryOp::And),
        (BinOp::Or, BinaryOp::Or),
    ] {
        let mut p = walk();
        let l = p.fold_expr(&binary(op, name("x"), lit("0", ""))).unwrap();
        assert_eq!(p.expr_type, Some(ValueKind::Bool));
        assert_eq!(
            l.op,
            binary_node(
                node,
                ValueKind::Bool,
                get("x", ValueKind::F32),
                literal(ValueKind::F32, "0")
            )
        );
    }
}

#[test]
fn two_literals_without_a_kind_cannot_be_combined() {
    assert_eq!(
        lowered(&binary(BinOp::Add, lit("1", ""), lit("2", ""))),
        Err(LowerError::AmbiguousLiteral)
    );
    assert_eq!(
        lowered(&binary(BinOp::Lt, lit("1", ""), float("2.0", ""))),
        Err(LowerError::AmbiguousLiteral)
    );
}

#[test]
fn two_typed_operands_take_the_kind_of_the_left() {
    let l = lowered(&binary(BinOp::Add, name("x"), name("n"))).unwrap();
    assert_eq!(l.kind(), ValueKind::F32);
    let l = lowered(&binary(BinOp::Add, name("n"), name("x"))).unwrap();
    assert_eq!(l.kind(), ValueKind::U32);
}

#[test]
fn an_operator_that_is_not_supported_is_rejected() {
    assert_eq!(
        lowered(&binary(BinOp::Other, name("x"), name("x"))),
        Err(LowerError::UnsupportedOperator)
    );
}

#[test]
fn a_name_must_be_bound() {
    assert_eq!(lowered(&name("nobody")), Err(LowerError::UnknownVariable));
    assert_eq!(lowered(&name("a")), Err(LowerError::NotAScalar));
    assert_eq!(lowered(&Expr::Path(path(&["m", "x"]))), Err(LowerError::UnsupportedPath));
    assert_eq!(lowered(&name("x")).unwrap(), get("x", ValueKind::F32));
}

#[test]
fn an_index_reads_an_element() {
    let mut p = walk();
    let l = p.fold_expr(&index("a", name("n"))).unwrap();
    assert_eq!(
        l.op,
        operations::index(
            &variable("a", ValueKind::F32),
            Container::Vector,
            get("n", ValueKind::U32)
        )
    );
    assert_eq!(p.expr_type, Some(ValueKind::F32));
    let l = lowered(&index("t", lit("0", ""))).unwrap();
    assert_eq!(
        l,
        operations::index(
            &variable("t", ValueKind::I32),
            Container::Tensor,
            literal(ValueKind::U32, "0")
        )
    );
}

#[test]
fn only_indexable_inputs_are_indexed() {
    assert_eq!(lowered(&index("x", name("n"))), Err(LowerError::NotIndexable));
    assert_eq!(lowered(&index("nobody", name("n"))), Err(LowerError::UnknownVariable));
    let nested = Expr::Index { expr: Box::new(index("a", name("n"))), index: Box::new(name("n")) };
    assert_eq!(lowered(&nested), Err(LowerError::UnsupportedExpression));
}

#[test]
fn a_field_of_a_record_is_a_variable_of_its_own() {
    let mut p = walk();
    let l = p.fold_expr(&field("pos", "x")).unwrap();
    assert_eq!(l.op, operations::get(&Variable::field("pos", "x", ValueKind::U32)));
    assert_eq!(p.expr_type, Some(ValueKind::U32));
}

#[test]
fn fields_are_resolved_against_the_structure() {
    assert_eq!(lowered(&field("pos", "q")), Err(LowerError::UnknownField));
    assert_eq!(lowered(&field("pos", "w")), Err(LowerError::UnknownType));
    assert_eq!(lowered(&field("x", "x")), Err(LowerError::UnknownStructure));
    let unnamed = Expr::Field { base: Box::new(name("pos")), member: Member::Unnamed };
    assert_eq!(lowered(&unnamed), Err(LowerError::UnsupportedMember));
    let deep = Expr::Field {
        base: Box::new(field("pos", "x")),
        member: Member::Named("y".to_string()),
    };
    assert_eq!(lowered(&deep), Err(LowerError::UnsupportedExpression));
}

#[test]
fn a_cast_gives_a_literal_its_kind() {
    let mut p = walk();
    let e = Expr::Cast { expr: Box::new(lit("2", "")), ty: scalar("f32") };
    let l = p.fold_expr(&e).unwrap();
    assert_eq!(l, Lowered { op: literal(ValueKind::F32, "2"), typed: true });
    assert_eq!(p.expr_type, Some(ValueKind::F32));
    let e = Expr::Cast { expr: Box::new(name("n")), ty: scalar("f32") };
    let l = p.fold_expr(&e).unwrap();
    assert_eq!(l.op, get("n", ValueKind::U32));
    assert_eq!(p.expr_type, Some(ValueKind::F32));
    let e = Expr::Cast { expr: Box::new(lit("2", "")), ty: scalar("T") };
    assert_eq!(lowered(&e).unwrap().kind(), ValueKind::Generic(0));
    let e = Expr::Cast { expr: Box::new(lit("2", "")), ty: scalar("Nope") };
    assert_eq!(lowered(&e), Err(LowerError::UnknownType));
}

#[test]
fn a_range_needs_both_limits() {
    let full = Expr::Range { start: Some(Box::new(lit("0", ""))), end: Some(Box::new(name("n"))) };
    assert_eq!(
        lowered(&full).unwrap(),
        Operation::Range(Box::new(operations::range(
            literal(ValueKind::U32, "0"),
            get("n", ValueKind::U32)
        )))
    );
    let open = Expr::Range { start: Some(Box::new(lit("0", ""))), end: None };
    assert_eq!(lowered(&open), Err(LowerError::OpenRange));
    let open = Expr::Range { start: None, end: Some(Box::new(name("n"))) };
    assert_eq!(lowered(&open), Err(LowerError::OpenRange));
}

#[test]
fn references_and_parentheses_are_seen_through() {
    assert_eq!(lowered(&Expr::Reference(Box::new(name("x")))).unwrap(), get("x", ValueKind::F32));
    assert_eq!(lowered(&Expr::Paren(Box::new(name("x")))).unwrap(), get("x", ValueKind::F32));
}

#[test]
fn a_call_of_an_import_is_a_call_node() {
    let mut p = walk();
    let l = p.fold_expr(&call(&["math", "square"], vec![name("x")])).unwrap();
    assert_eq!(
        l.op,
        operations::call(Inputs { first: get("x", ValueKind::F32), rest: None }, square())
    );
    assert_eq!(p.expr_type, Some(ValueKind::F32));
}

#[test]
fn a_literal_argument_takes_the_kind_of_its_parameter() {
    let l = lowered(&call(&["sq"], vec![lit("3", "")])).unwrap();
    assert_eq!(
        l,
        operations::call(Inputs { first: literal(ValueKind::F32, "3"), rest: None }, square())
    );
}

#[test]
fn a_method_call_resolves_through_the_alias() {
    let e = Expr::MethodCall {
        receiver: Box::new(name("x")),
        method: "sq".to_string(),
        args: vec![],
    };
    assert_eq!(
        lowered(&e).unwrap(),
        operations::call(Inputs { first: get("x", ValueKind::F32), rest: None }, square())
    );
    let e = Expr::MethodCall {
        receiver: Box::new(name("x")),
        method: "square".to_string(),
        args: vec![],
    };
    assert_eq!(lowered(&e), Err(LowerError::UnknownMethod));
}

#[test]
fn a_name_in_both_tables_resolves_through_the_alias() {
    let method = Expr::MethodCall {
        receiver: Box::new(name("x")),
        method: "both".to_string(),
        args: vec![],
    };
    match lowered(&method).unwrap() {
        Operation::Call(c) => {
            assert_eq!(c.function.name, FunctionName::Given("square".to_string()))
        }
        other => panic!("{:?}", other),
    }
    match lowered(&call(&["both"], vec![name("x")])).unwrap() {
        Operation::Call(c) => {
            assert_eq!(c.function.name, FunctionName::Given("square".to_string()))
        }
        other => panic!("{:?}", other),
    }
}

#[test]
fn the_number_of_arguments_must_fit() {
    assert_eq!(lowered(&call(&["sq"], vec![])), Err(LowerError::BadCallArity));
    assert_eq!(
        lowered(&call(&["sq"], vec![name("x"), name("x")])),
        Err(LowerError::BadCallArity)
    );
    let e = Expr::MethodCall {
        receiver: Box::new(name("x")),
        method: "sq".to_string(),
        args: vec![name("x")],
    };
    assert_eq!(lowered(&e), Err(LowerError::BadCallArity));
}

#[test]
fn a_path_from_the_root_is_not_the_path_without_it() {
    let rooted = |names: &[&str]| Path {
        global: true,
        segments: names.iter().map(|n| n.to_string()).collect(),
    };
    let e = Expr::Call {
        func: Box::new(Expr::Path(rooted(&["math", "square"]))),
        generics: vec![],
        args: vec![name("x")],
    };
    assert_eq!(lowered(&e), Err(LowerError::UnknownFunction));
    assert!(lowered(&call(&["math", "square"], vec![name("x")])).is_ok());
    assert_eq!(lowered(&Expr::Path(rooted(&["x"]))), Err(LowerError::UnsupportedPath));
    assert!(lowered(&name("x")).is_ok());
}

#[test]
fn the_types_of_a_call_do_not_change_what_it_resolves_to() {
    let with = Expr::Call {
        func: Box::new(Expr::Path(path(&["math", "square"]))),
        generics: vec![scalar("f32")],
        args: vec![name("x")],
    };
    assert_eq!(lowered(&with), lowered(&call(&["math", "square"], vec![name("x")])));
    let plain = chandra::parse_cpu_function::ParseCPUfn {
        known_functions: vec![Keyed {
            path: path(&["math", "square"]),
            value: path(&["math", "square"]),
        }],
    }
    .fold_expr(&with);
    assert_eq!(
        plain,
        Expr::Call {
            func: Box::new(Expr::Path(path(&["math", "square", "cpu"]))),
            generics: vec![scalar("f32")],
            args: vec![name("x")],
        }
    );
}

#[test]
fn a_call_must_resolve() {
    assert_eq!(lowered(&call(&["nobody"], vec![name("x")])), Err(LowerError::UnknownFunction));
    assert_eq!(lowered(&call(&["missing"], vec![name("x")])), Err(LowerError::UnknownFunction));
    assert_eq!(
        lowered(&call(&["U", "from_int"], vec![lit("1", "")])),
        Err(LowerError::UnknownFunction)
    );
    assert_eq!(
        lowered(&call(&["a", "b", "c"], vec![lit("1", "")])),
        Err(LowerError::UnknownFunction)
    );
    let e = Expr::Call { func: Box::new(lit("1", "")), generics: vec![], args: vec![] };
    assert_eq!(lowered(&e), Err(LowerError::NotAPath));
}

#[test]
fn a_type_parameter_converts_literals() {
    let mut p = walk();
    let l = p.fold_expr(&call(&["T", "from_int"], vec![lit("2", "")])).unwrap();
    assert_eq!(l, Lowered { op: literal(ValueKind::Generic(0), "2"), typed: true });
    assert_eq!(p.expr_type, Some(ValueKind::Generic(0)));
    let l = lowered(&call(&["T", "from_float"], vec![float("2.5", "")])).unwrap();
    assert_eq!(
        l,
        Operation::Literal(Literal {
            kind: ValueKind::Generic(0),
            value: Constant::Float("2.5".to_string())
        })
    );
    let l = lowered(&call(&["T", "get_zero"], vec![])).unwrap();
    assert_eq!(l, Operation::Literal(Literal::zero(ValueKind::Generic(0))));
    assert_eq!(
        lowered(&call(&["T", "from_int"], vec![name("n")])),
        Err(LowerError::UnsupportedConversion)
    );
    assert_eq!(
        lowered(&call(&["T", "other"], vec![lit("2", "")])),
        Err(LowerError::UnsupportedConversion)
    );
}

#[test]
fn an_assignment_writes_to_a_place_that_exists() {
    let mut p = walk();
    let l = p.fold_expr(&assign(name("x"), lit("1", ""))).unwrap();
    assert_eq!(
        l.op,
        operations::set(
            &Location::Variable(variable("x", ValueKind::F32)),
            literal(ValueKind::F32, "1")
        )
    );
    assert_eq!(p.expr_type, Some(ValueKind::Void));
    let l = lowered(&assign(index("a", name("n")), name("x"))).unwrap();
    match l {
        Operation::Store(s) => {
            match &s.getable {
                Location::Index(i) => {
                    assert_eq!(i.tensor, variable("a", ValueKind::F32));
                    assert_eq!(i.index, get("n", ValueKind::U32));
                }
                other => panic!("{:?}", other),
            }
            assert_eq!(s.assign, get("x", ValueKind::F32));
        }
        other => panic!("{:?}", other),
    }
    assert_eq!(lowered(&assign(name("nobody"), name("x"))), Err(LowerError::UnknownVariable));
    assert_eq!(lowered(&assign(field("pos", "x"), name("n"))), Err(LowerError::UnsupportedTarget));
}

#[test]
fn a_missing_else_is_a_scope_that_does_nothing() {
    let e = Expr::If {
        cond: Box::new(binary(BinOp::Lt, name("n"), lit("3", ""))),
        then_branch: block(vec![Stmt::Expr(assign(name("x"), lit("1", "")), true)]),
        else_branch: None,
    };
    match lowered(&e).unwrap() {
        Operation::IfElse(i) => {
            assert_eq!(i.kind, ValueKind::Void);
            assert_eq!(i.else_branch, Scope::new(ValueKind::Void));
            assert_eq!(i.condition.kind(), ValueKind::Bool);
            assert_eq!(
                i.then_branch,
                Scope::new(ValueKind::Void).include_instruction(operations::set(
                    &Location::Variable(variable("x", ValueKind::F32)),
                    literal(ValueKind::F32, "1")
                ))
            );
        }
        other => panic!("{:?}", other),
    }
}

#[test]
fn both_branches_are_scopes() {
    let e = Expr::If {
        cond: Box::new(binary(BinOp::Lt, name("n"), lit("3", ""))),
        then_branch: block(vec![Stmt::Expr(name("x"), false)]),
        else_branch: Some(Box::new(Expr::Block(block(vec![Stmt::Expr(lit("0", "f32"), false)])))),
    };
    match lowered(&e).unwrap() {
        Operation::IfElse(i) => {
            assert_eq!(i.kind, ValueKind::F32);
            assert_eq!(
                i.then_branch,
                Scope::new(ValueKind::F32).returning(get("x", ValueKind::F32))
            );
            assert_eq!(
                i.else_branch,
                Scope::new(ValueKind::F32).returning(literal(ValueKind::F32, "0"))
            );
        }
        other => panic!("{:?}", other),
    }
    let chained = Expr::If {
        cond: Box::new(binary(BinOp::Lt, name("n"), lit("3", ""))),
        then_branch: block(vec![]),
        else_branch: Some(Box::new(Expr::If {
            cond: Box::new(binary(BinOp::Lt, name("n"), lit("3", ""))),
            then_branch: block(vec![]),
            else_branch: None,
        })),
    };
    assert_eq!(lowered(&chained), Err(LowerError::UnsupportedElse));
    let untyped = Expr::If {
        cond: Box::new(lit("1", "")),
        then_branch: block(vec![]),
        else_branch: None,
    };
    assert_eq!(lowered(&untyped), Err(LowerError::AmbiguousLiteral));
}

#[test]
fn let_binds_a_new_name() {
    let mut p = walk();
    let before = p.vars.len();
    let scope = p
        .fold_stmt(Scope::new(ValueKind::Void), &local("y", binary(BinOp::Mul, name("x"), name("x"))))
        .unwrap();
    let (y, instruction) = operations::assign(
        "y".to_string(),
        operations::multiply(get("x", ValueKind::F32), get("x", ValueKind::F32)),
    );
    assert_eq!(y, variable("y", ValueKind::F32));
    assert_eq!(scope, Scope::new(ValueKind::Void).include_instruction(instruction));
    assert_eq!(p.vars.len(), before + 1);
    assert_eq!(p.vars[before], bound("y", DataType::Scalar(ValueKind::F32)));
    assert_eq!(p.expr_type, Some(ValueKind::Void));
    assert_eq!(p.fold_expr(&name("y")).unwrap().op, get("y", ValueKind::F32));
}

#[test]
fn let_needs_a_name_a_value_and_a_kind() {
    let mut p = walk();
    let s = Scope::new(ValueKind::Void);
    assert_eq!(p.fold_stmt(s, &local("y", lit("1", ""))), Err(LowerError::AmbiguousLiteral));
    let s = Scope::new(ValueKind::Void);
    let no_value = Stmt::Local { pat: Pat::Ident("y".to_string()), init: None };
    assert_eq!(p.fold_stmt(s, &no_value), Err(LowerError::MissingInitializer));
    let s = Scope::new(ValueKind::Void);
    let no_name = Stmt::Local { pat: Pat::Other, init: Some(name("x")) };
    assert_eq!(p.fold_stmt(s, &no_name), Err(LowerError::UnsupportedPattern));
}

#[test]
fn what_a_block_binds_ends_with_the_block() {
    let mut p = walk();
    let before = p.vars.clone_names();
    let body = block(vec![
        local("inner", name("x")),
        Stmt::Expr(assign(name("inner"), lit("2", "")), true),
    ]);
    p.fold_block(&body).unwrap();
    assert_eq!(p.vars.clone_names(), before);
    assert_eq!(p.fold_expr(&name("inner")), Err(LowerError::UnknownVariable));
}

trait Names {
    fn clone_names(&self) -> Vec<(String, DataType)>;
}

impl Names for Vec<Named<DataType>> {
    fn clone_names(&self) -> Vec<(String, DataType)> {
        self.iter().map(|b| (b.name.clone(), b.value)).collect()
    }
}

#[test]
fn a_new_binding_hides_the_outer_one_without_changing_it() {
    let mut p = walk();
    let body = block(vec![
        local("x", lit("1", "u32")),
        Stmt::Expr(name("x"), false),
    ]);
    let scope = p.fold_block(&body).unwrap();
    assert_eq!(scope.kind, ValueKind::U32);
    assert_eq!(scope.instruction.this, get("x", ValueKind::U32));
    assert_eq!(p.fold_expr(&name("x")).unwrap().op, get("x", ValueKind::F32));
    assert_eq!(p.vars[0], bound("x", DataType::Scalar(ValueKind::F32)));
}

#[test]
fn a_nested_block_sees_the_outer_bindings() {
    let mut p = walk();
    let body = block(vec![
        local("y", name("n")),
        Stmt::Expr(
            Expr::Block(block(vec![
                local("z", binary(BinOp::Add, name("y"), lit("1", ""))),
                Stmt::Expr(assign(name("y"), name("z")), true),
            ])),
            true,
        ),
        Stmt::Expr(name("y"), false),
    ]);
    let scope = p.fold_block(&body).unwrap();
    assert_eq!(scope.kind, ValueKind::U32);
    assert!(scope.returned);
    let failing = block(vec![
        Stmt::Expr(Expr::Block(block(vec![local("z", name("n"))])), true),
        Stmt::Expr(name("z"), false),
    ]);
    assert_eq!(walk().fold_block(&failing), Err(LowerError::UnknownVariable));
}

#[test]
fn a_block_has_the_kind_of_its_last_statement() {
    assert_eq!(walk().fold_block(&block(vec![])).unwrap(), Scope::new(ValueKind::Void));
    let s = walk().fold_block(&block(vec![Stmt::Expr(name("n"), false)])).unwrap();
    assert_eq!(s, Scope::new(ValueKind::U32).returning(get("n", ValueKind::U32)));
    let s = walk().fold_block(&block(vec![Stmt::Expr(name("n"), true)])).unwrap();
    assert_eq!(s, Scope::new(ValueKind::U32).include_instruction(get("n", ValueKind::U32)));
}

#[test]
fn a_for_loop_runs_over_a_range() {
    let mut p = walk();
    let before = p.vars.clone_names();
    let e = Expr::ForLoop {
        pat: Pat::Ident("i".to_string()),
        expr: Box::new(Expr::Range {
            start: Some(Box::new(lit("0", ""))),
            end: Some(Box::new(name("n"))),
        }),
        body: block(vec![Stmt::Expr(assign(index("a", name("i")), name("x")), true)]),
    };
    let scope = p.fold_stmt(Scope::new(ValueKind::Void), &Stmt::Expr(e, true)).unwrap();
    match &scope.instruction.this {
        Operation::ForEach(f) => {
            assert_eq!(f.variable, variable("i", ValueKind::U32));
            assert_eq!(
                f.iterable,
                operations::range(literal(ValueKind::U32, "0"), get("n", ValueKind::U32))
            );
            assert_eq!(f.scope.kind, ValueKind::Void);
        }
        other => panic!("{:?}", other),
    }
    assert!(!scope.returned);
    assert_eq!(p.vars.clone_names(), before);
    assert_eq!(p.expr_type, Some(ValueKind::Void));
}

#[test]
fn only_ranges_are_iterated() {
    let over_name = Expr::ForLoop {
        pat: Pat::Ident("i".to_string()),
        expr: Box::new(name("n")),
        body: block(vec![]),
    };
    let s = Scope::new(ValueKind::Void);
    assert_eq!(
        walk().fold_stmt(s, &Stmt::Expr(over_name, true)),
        Err(LowerError::UnsupportedIterable)
    );
    let no_name = Expr::ForLoop {
        pat: Pat::Other,
        expr: Box::new(name("n")),
        body: block(vec![]),
    };
    let s = Scope::new(ValueKind::Void);
    assert_eq!(
        walk().fold_stmt(s, &Stmt::Expr(no_name, true)),
        Err(LowerError::UnsupportedPattern)
    );
    let as_value = Expr::ForLoop {
        pat: Pat::Ident("i".to_string()),
        expr: Box::new(name("n")),
        body: block(vec![]),
    };
    assert_eq!(lowered(&as_value), Err(LowerError::UnsupportedExpression));
}

#[test]
fn return_ends_the_scope_with_its_value() {
    let mut p = walk();
    let s = p
        .fold_stmt(Scope::new(ValueKind::Void), &Stmt::Expr(Expr::Return(Some(Box::new(name("x")))), true))
        .unwrap();
    assert_eq!(
        s,
        Scope::new(ValueKind::Void).returning(operations::returning(get("x", ValueKind::F32)))
    );
    assert!(s.returned);
    let s = p
        .fold_stmt(Scope::new(ValueKind::Void), &Stmt::Expr(Expr::Return(None), true))
        .unwrap();
    match &s.instruction.this {
        Operation::Returns(r) => {
            assert_eq!(r.kind, ValueKind::Void);
            assert_eq!(r.operation, Operation::Noop(chandra::operation::Noop));
        }
        other => panic!("{:?}", other),
    }
    let s = Scope::new(ValueKind::Void);
    assert_eq!(
        p.fold_stmt(s, &Stmt::Expr(Expr::Return(Some(Box::new(lit("1", "")))), true)),
        Err(LowerError::AmbiguousLiteral)
    );
    assert_eq!(lowered(&Expr::Return(None)), Err(LowerError::UnsupportedExpression));
}

#[test]
fn a_record_stands_only_at_the_end_of_a_block() {
    let record = Expr::Struct {
        path: path(&["Pair"]),
        fields: vec![
            FieldValue { member: Member::Named("a".to_string()), expr: name("x") },
            FieldValue { member: Member::Named("b".to_string()), expr: name("n") },
        ],
    };
    let mut p = walk();
    let s = p.fold_stmt(Scope::new(ValueKind::Void), &Stmt::Expr(record.duplicate_for_test(), false)).unwrap();
    assert!(p.returns_struct);
    assert!(s.returned);
    match &s.instruction.this {
        Operation::Record(r) => {
            assert_eq!(r.name, "Pair");
            let first = r.fields.as_ref().unwrap();
            assert_eq!(first.name, "a");
            assert_eq!(first.value, get("x", ValueKind::F32));
            let second = first.rest.as_ref().unwrap();
            assert_eq!(second.name, "b");
            assert!(second.rest.is_none());
        }
        other => panic!("{:?}", other),
    }
    let mut p = walk();
    let s = Scope::new(ValueKind::Void);
    assert_eq!(
        p.fold_stmt(s, &Stmt::Expr(record.duplicate_for_test(), true)),
        Err(LowerError::MisplacedRecord)
    );
    assert!(!p.returns_struct);
    assert_eq!(lowered(&record), Err(LowerError::MisplacedRecord));
    let s = Scope::new(ValueKind::Void);
    assert_eq!(walk().fold_stmt(s, &local("r", record)), Err(LowerError::MisplacedRecord));
}

trait DuplicateForTest {
    fn duplicate_for_test(&self) -> Expr;
}

impl DuplicateForTest for Expr {
    fn duplicate_for_test(&self) -> Expr {
        chandra::parse_cpu_function::ParseCPUfn { known_functions: vec![] }.fold_expr(self)
    }
}

#[test]
fn a_cast_as_a_statement_must_be_the_result() {
    let cast = Expr::Cast { expr: Box::new(name("n")), ty: scalar("f32") };
    let s = Scope::new(ValueKind::Void);
    assert_eq!(
        walk().fold_stmt(s, &Stmt::Expr(cast.duplicate_for_test(), true)),
        Err(LowerError::MisplacedCast)
    );
    let mut p = walk();
    let s = p.fold_stmt(Scope::new(ValueKind::Void), &Stmt::Expr(cast, false)).unwrap();
    assert!(s.returned);
    assert_eq!(p.expr_type, Some(ValueKind::F32));
}

#[test]
fn what_is_not_supported_is_rejected() {
    assert_eq!(lowered(&Expr::Other), Err(LowerError::UnsupportedExpression));
    let s = Scope::new(ValueKind::Void);
    assert_eq!(walk().fold_stmt(s, &Stmt::Other), Err(LowerError::UnsupportedStatement));
    let s = Scope::new(ValueKind::Void);
    assert_eq!(
        walk().fold_stmt(s, &Stmt::Expr(lit("1", ""), true)),
        Err(LowerError::AmbiguousLiteral)
    );
}

#[test]
fn an_error_in_a_statement_rejects_the_block() {
    let body = block(vec![
        local("y", name("x")),
        Stmt::Expr(assign(name("nobody"), name("y")), true),
        local("z", name("x")),
    ]);
    assert_eq!(walk().fold_block(&body), Err(LowerError::UnknownVariable));
}
