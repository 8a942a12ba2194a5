use chandra::differential::{DifferentiableProgram, Program};
use chandra::differentiate::{
    auto_diff_for, contains_var, depends_exec, Differentiable, TraceEntry,
};
use chandra::gpu::GPUProcessor;
use chandra::kernel::kernel;
use chandra::operation::{
    Container, Function, FunctionName, Inputs, Literal, Location, Operation, Parameters, Scope,
};
use chandra::operations;
use chandra::parseatt::ParseAttributes;
use chandra::syntax::{Block, Expr, FnArg, Item, ItemFn, Pat, Path, Signature, Stmt, Type};
use chandra::types::ValueKind;
use chandra::var::Variable;

const F: ValueKind = ValueKind::F32;

fn var(n: &str) -> Variable {
    Variable::new(n, F)
}

fn get(n: &str) -> Operation {
    operations::get(&var(n))
}

fn one() -> Operation {
    Operation::Literal(Literal::one(F))
}

fn zero() -> Operation {
    Operation::Literal(Literal::zero(F))
}

fn d(op: &Operation, by: &str) -> Operation {
    auto_diff_for(op, &var(by), &mut Vec::new())
}

fn square() -> Function {
    let body = Scope::new(F)
        .returning(operations::returning(operations::multiply(get("v"), get("v"))));
    operations::function("square", Parameters { first: var("v"), rest: None }, body)
}

#[test]
fn the_derivative_of_the_target_is_one() {
    assert_eq!(d(&get("x"), "x"), one());
}

#[test]
fn the_derivative_of_a_constant_is_zero() {
    assert_eq!(d(&get("c"), "x"), zero());
    assert_eq!(d(&one(), "x"), zero());
    let seven = Operation::Literal(Literal {
        kind: ValueKind::I32,
        value: chandra::operation::Constant::Integer("7".to_string()),
    });
    assert_eq!(d(&seven, "x"), Operation::Literal(Literal::zero(ValueKind::I32)));
}

#[test]
fn fields_of_one_record_are_variables_of_their_own() {
    let x = Variable::field("pos", "x", F);
    let y = Variable::field("pos", "y", F);
    assert_eq!(auto_diff_for(&operations::get(&x), &x, &mut Vec::new()), one());
    assert_eq!(auto_diff_for(&operations::get(&y), &x, &mut Vec::new()), zero());
    assert!(contains_var(&operations::get(&x), &x));
    assert!(!contains_var(&operations::get(&y), &x));
    assert!(!contains_var(&operations::get(&Variable::new("pos", F)), &x));
}

#[test]
fn the_derivative_of_a_product_follows_the_product_rule() {
    let product = operations::multiply(get("x"), get("y"));
    assert_eq!(
        d(&product, "x"),
        operations::add(operations::multiply(get("x"), zero()), operations::multiply(one(), get("y")))
    );
    assert_eq!(
        d(&product, "y"),
        operations::add(operations::multiply(get("x"), one()), operations::multiply(zero(), get("y")))
    );
}

#[test]
fn sums_and_differences_are_differentiated_term_by_term() {
    assert_eq!(d(&operations::add(get("x"), get("y")), "x"), operations::add(one(), zero()));
    assert_eq!(
        d(&operations::subtract(get("y"), get("x")), "x"),
        operations::subtract(zero(), one())
    );
}

#[test]
fn the_derivative_of_a_quotient_follows_the_quotient_rule() {
    let quotient = operations::divide(get("x"), get("y"));
    assert_eq!(
        d(&quotient, "x"),
        operations::divide(
            operations::subtract(
                operations::multiply(one(), get("y")),
                operations::multiply(get("x"), zero())
            ),
            operations::multiply(get("y"), get("y"))
        )
    );
}

#[test]
fn comparisons_stay_as_they_are() {
    let same = operations::less_than(get("x"), get("y"));
    assert_eq!(d(&same, "x"), operations::less_than(get("x"), get("y")));
}

#[test]
fn an_element_of_the_target_has_derivative_one() {
    let element = operations::index(&var("a"), Container::Vector, get("i"));
    assert_eq!(d(&element, "a"), one());
    assert_eq!(d(&element, "b"), zero());
    assert_eq!(d(&element, "i"), zero());
    assert!(contains_var(&element, &var("a")));
    assert!(!contains_var(&element, &var("i")));
    assert!(!contains_var(&element, &Variable::field("a", "data", F)));
}

#[test]
fn a_binding_carries_the_derivative_on() {
    let (y, bind) = operations::assign("y".to_string(), get("x"));
    let body = Scope::new(F)
        .include_instruction(bind)
        .returning(operations::returning(operations::multiply(get("y"), get("y"))));
    let mut trace = Vec::new();
    let derived = body.auto_diff_for(&var("x"), &mut trace);
    assert!(depends_exec(&trace, &y, &var("x")));
    assert_eq!(
        trace,
        vec![
            TraceEntry::Reset { variable: var("y") },
            TraceEntry::Depends { variable: var("y"), on: var("x") },
        ]
    );
    let (_, bound_to_one) = operations::assign("y".to_string(), one());
    assert_eq!(
        derived,
        Scope::new(F)
            .include_instruction(bound_to_one)
            .returning(operations::returning(operations::multiply(get("y"), get("y"))))
    );
    assert_eq!(auto_diff_for(&get("y"), &var("x"), &mut trace), get("y"));
    assert_eq!(auto_diff_for(&get("y"), &var("x"), &mut Vec::new()), zero());
    assert_eq!(
        auto_diff_for(&operations::multiply(get("y"), get("y")), &var("x"), &mut trace),
        operations::add(
            operations::multiply(get("y"), get("y")),
            operations::multiply(get("y"), get("y"))
        )
    );
}

#[test]
fn a_binding_that_does_not_read_the_target_cuts_the_flow() {
    let (_, bind) = operations::assign("y".to_string(), get("c"));
    let mut trace = vec![TraceEntry::Depends { variable: var("y"), on: var("x") }];
    assert!(depends_exec(&trace, &var("y"), &var("x")));
    let derived = auto_diff_for(&bind, &var("x"), &mut trace);
    assert_eq!(derived, operations::assign("y".to_string(), zero()).1);
    assert_eq!(trace.len(), 2);
    assert_eq!(trace[1], TraceEntry::Reset { variable: var("y") });
    assert!(!depends_exec(&trace, &var("y"), &var("x")));
    assert!(!depends_exec(&trace, &var("z"), &var("x")));
}

#[test]
fn a_new_binding_replaces_what_was_noted() {
    let (_, bind) = operations::assign("y".to_string(), get("p"));
    let mut trace = vec![TraceEntry::Depends { variable: var("y"), on: var("x") }];
    let derived = auto_diff_for(&bind, &var("p"), &mut trace);
    assert_eq!(derived, operations::assign("y".to_string(), one()).1);
    assert_eq!(
        trace,
        vec![
            TraceEntry::Depends { variable: var("y"), on: var("x") },
            TraceEntry::Reset { variable: var("y") },
            TraceEntry::Depends { variable: var("y"), on: var("p") },
        ]
    );
    assert!(depends_exec(&trace, &var("y"), &var("p")));
    assert!(!depends_exec(&trace, &var("y"), &var("x")));
    assert_eq!(auto_diff_for(&get("y"), &var("x"), &mut trace), zero());
    assert_eq!(auto_diff_for(&get("y"), &var("p"), &mut trace), get("y"));
}

#[test]
fn a_write_adds_to_what_was_noted() {
    let store = operations::set(&Location::Variable(var("y")), get("p"));
    let mut trace = vec![TraceEntry::Depends { variable: var("y"), on: var("x") }];
    auto_diff_for(&store, &var("p"), &mut trace);
    assert!(depends_exec(&trace, &var("y"), &var("p")));
    assert!(depends_exec(&trace, &var("y"), &var("x")));
}

#[test]
fn a_write_takes_note_of_the_flow() {
    let store = operations::set(&Location::Variable(var("y")), get("x"));
    let mut trace = Vec::new();
    assert_eq!(
        auto_diff_for(&store, &var("x"), &mut trace),
        operations::set(&Location::Variable(var("y")), one())
    );
    assert_eq!(trace, vec![TraceEntry::Depends { variable: var("y"), on: var("x") }]);
    let store = operations::set(&Location::Variable(var("y")), get("c"));
    let mut trace = Vec::new();
    auto_diff_for(&store, &var("x"), &mut trace);
    assert!(trace.is_empty());
    assert!(contains_var(&store, &var("y")));
    assert!(contains_var(&store, &var("c")));
    assert!(!contains_var(&store, &var("x")));
}

#[test]
fn instructions_that_do_not_read_the_target_stay() {
    let (_, first) = operations::assign("u".to_string(), get("c"));
    let (_, second) = operations::assign("w".to_string(), get("x"));
    let body = Scope::new(ValueKind::Void).include_instruction(first).include_instruction(second);
    let derived = body.auto_diff_for(&var("x"), &mut Vec::new());
    let (_, kept) = operations::assign("u".to_string(), get("c"));
    let (_, changed) = operations::assign("w".to_string(), one());
    assert_eq!(
        derived,
        Scope::new(ValueKind::Void).include_instruction(kept).include_instruction(changed)
    );
    assert!(body.contains_var(&var("x")));
    assert!(!body.contains_var(&var("q")));
}

#[test]
fn both_branches_of_a_conditional_are_differentiated() {
    let cond = operations::less_than(get("x"), get("c"));
    let then_scope = Scope::new(F).returning(get("x"));
    let else_scope = Scope::new(F).returning(operations::multiply(get("x"), get("x")));
    let op = operations::if_then_or_else(cond, then_scope, else_scope);
    let wanted = operations::if_then_or_else(
        operations::less_than(get("x"), get("c")),
        Scope::new(F).returning(one()),
        Scope::new(F).returning(operations::add(
            operations::multiply(get("x"), one()),
            operations::multiply(one(), get("x")),
        )),
    );
    assert_eq!(d(&op, "x"), wanted);
}

#[test]
fn a_loop_keeps_its_range() {
    let body = Scope::new(ValueKind::Void)
        .include_instruction(operations::set(&Location::Variable(var("s")), get("x")));
    let range = || operations::range(get("a"), get("b"));
    let op = operations::foreach(Variable::new("i", ValueKind::U32), range(), body);
    let wanted = operations::foreach(
        Variable::new("i", ValueKind::U32),
        range(),
        Scope::new(ValueKind::Void)
            .include_instruction(operations::set(&Location::Variable(var("s")), one())),
    );
    assert_eq!(d(&op, "x"), wanted);
}

#[test]
fn a_call_follows_the_chain_rule() {
    let call =
        operations::call(Inputs { first: operations::multiply(get("x"), get("x")), rest: None }, square());
    let inner = operations::add(
        operations::multiply(get("x"), one()),
        operations::multiply(one(), get("x")),
    );
    let derived_body = Scope::new(F).returning(operations::returning(operations::add(
        operations::multiply(get("v"), one()),
        operations::multiply(one(), get("v")),
    )));
    let mut derived_function =
        operations::function("square", Parameters { first: var("v"), rest: None }, derived_body);
    derived_function.name =
        FunctionName::Derivative(Box::new(FunctionName::Given("square".to_string())));
    let wanted = operations::multiply(
        operations::call(
            Inputs { first: operations::multiply(get("x"), get("x")), rest: None },
            derived_function,
        ),
        inner,
    );
    assert_eq!(d(&call, "x"), wanted);
}

#[test]
fn a_call_of_two_arguments_sums_over_the_arguments() {
    let parameters =
        || Parameters { first: var("u"), rest: Some(Box::new(Parameters { first: var("v"), rest: None })) };
    let body = Scope::new(F)
        .returning(operations::returning(operations::multiply(get("u"), get("v"))));
    let times = operations::function("times", parameters(), body);
    let arguments = || Inputs {
        first: get("x"),
        rest: Some(Box::new(Inputs { first: get("c"), rest: None })),
    };
    let partial = |left: Operation, right: Operation| {
        let scope = Scope::new(F).returning(operations::returning(operations::add(
            operations::multiply(get("u"), left),
            operations::multiply(right, get("v")),
        )));
        let mut f = operations::function("times", parameters(), scope);
        f.name = FunctionName::Derivative(Box::new(FunctionName::Given("times".to_string())));
        operations::call(arguments(), f)
    };
    let wanted = operations::add(
        operations::multiply(partial(zero(), one()), one()),
        operations::multiply(partial(one(), zero()), zero()),
    );
    assert_eq!(d(&operations::call(arguments(), times), "x"), wanted);
}

#[test]
fn a_call_reads_the_target_through_any_argument() {
    let parameters =
        || Parameters { first: var("u"), rest: Some(Box::new(Parameters { first: var("v"), rest: None })) };
    let body =
        Scope::new(F).returning(operations::returning(operations::add(get("u"), get("v"))));
    let plus = operations::function("plus", parameters(), body);
    let arguments = || Inputs {
        first: get("c"),
        rest: Some(Box::new(Inputs { first: get("x"), rest: None })),
    };
    let partial = |left: Operation, right: Operation| {
        let scope = Scope::new(F)
            .returning(operations::returning(operations::add(left, right)));
        let mut f = operations::function("plus", parameters(), scope);
        f.name = FunctionName::Derivative(Box::new(FunctionName::Given("plus".to_string())));
        operations::call(arguments(), f)
    };
    let wanted = operations::add(
        operations::multiply(partial(one(), zero()), zero()),
        operations::multiply(partial(zero(), one()), one()),
    );
    let derived = d(&operations::call(arguments(), plus), "x");
    assert_eq!(derived, wanted);
    assert_eq!(derived.kind(), F);
}

#[test]
fn a_call_that_does_not_read_the_target_stays() {
    let call = || operations::call(Inputs { first: get("c"), rest: None }, square());
    assert_eq!(d(&call(), "x"), call());
    assert!(!contains_var(&call(), &var("x")));
    assert!(contains_var(&call(), &var("c")));
}

#[test]
fn the_derivative_of_a_function_says_so_in_its_name() {
    let derived = square().auto_diff_for(&var("v"), &mut Vec::new());
    assert_eq!(
        derived.name,
        FunctionName::Derivative(Box::new(FunctionName::Given("square".to_string())))
    );
    let mut functions = Vec::new();
    let text = chandra::gpu::build_function(&derived, &mut functions);
    assert_eq!(
        text,
        "fn square_chandra_diff(v: f32) -> f32 {\n     \nreturn v * 1 + 1 * v;\n}"
    );
    let twice = derived.auto_diff_for(&var("v"), &mut Vec::new());
    assert_eq!(chandra::gpu::name_text_exec(&twice.name), "square_chandra_diff_chandra_diff");
}

#[test]
fn the_derivative_keeps_the_kind() {
    let samples = vec![
        get("x"),
        one(),
        operations::multiply(get("x"), get("y")),
        operations::less_than(get("x"), get("y")),
        operations::index(&Variable::new("a", ValueKind::I64), Container::Tensor, get("i")),
        operations::call(Inputs { first: get("x"), rest: None }, square()),
        operations::returning(get("x")),
        operations::assign("y".to_string(), get("x")).1,
    ];
    for op in samples {
        assert_eq!(d(&op, "x").kind(), op.kind());
    }
}

#[test]
fn the_derivative_of_a_kernel_is_a_program() {
    let tables = ParseAttributes::new();
    let name = |n: &str| Expr::Path(Path { global: false, segments: vec![n.to_string()] });
    let vector = |of: &str| {
        Type::Path(
            Path { global: false, segments: vec!["Vec".to_string()] },
            vec![Type::Path(Path { global: false, segments: vec![of.to_string()] }, vec![])],
        )
    };
    let item = Item::Fn(ItemFn {
        sig: Signature {
            ident: "k".to_string(),
            generics: vec![],
            inputs: vec![
                FnArg::Typed {
                    pat: Pat::Ident("x".to_string()),
                    ty: Type::Reference {
                        mutable: false,
                        elem: Box::new(Type::Path(Path { global: false, segments: vec!["f32".to_string()] }, vec![])),
                    },
                },
                FnArg::Typed {
                    pat: Pat::Ident("out".to_string()),
                    ty: Type::Reference { mutable: true, elem: Box::new(vector("f32")) },
                },
            ],
            output: None,
        },
        block: Block {
            stmts: vec![
                Stmt::Local { pat: Pat::Ident("y".to_string()), init: Some(name("x")) },
                Stmt::Expr(
                    Expr::Assign {
                        left: Box::new(Expr::Index {
                            expr: Box::new(name("out")),
                            index: Box::new(Expr::Lit(chandra::syntax::Lit {
                                digits: "0".to_string(),
                                suffix: String::new(),
                                float: false,
                            })),
                        }),
                        right: Box::new(Expr::Binary {
                            op: chandra::syntax::BinOp::Mul,
                            left: Box::new(name("y")),
                            right: Box::new(name("y")),
                        }),
                    },
                    true,
                ),
            ],
        },
    });
    let k = kernel(tables, &item, vec![]).unwrap();
    let inputs = k.inputs.len();
    let derivative = k.differantiate_for(&var("x"));
    assert_eq!(derivative.inputs.len(), inputs);
    assert_eq!(derivative.cpu_fn.stmts.len(), 2);
    let text = GPUProcessor::new().build(derivative.get_main_tree()).prog;
    assert_eq!(
        text,
        " \n fn main() {\n     \nvar y: f32 = 1; \nout[0] = y * y;\n}"
    );
}
