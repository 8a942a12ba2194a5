use chandra::cpu::DifferentiatedCPUContext;
use chandra::evaluate::{
    combine_exec, evaluate, evaluate_with, parse_number, EvalError, FloatTask, Value,
};
use chandra::operation::{BinaryOp, Constant, Literal, Operation, Scope};
use chandra::operations;
use chandra::types::{Scalar, ValueKind};
use chandra::var::Variable;

fn whole(kind: ValueKind, digits: &str) -> Operation {
    Operation::Literal(Literal { kind, value: Constant::Integer(digits.to_string()) })
}

fn i(digits: &str) -> Operation {
    whole(ValueKind::I32, digits)
}

fn yes() -> Operation {
    Operation::Literal(Literal::one(ValueKind::Bool))
}

fn no() -> Operation {
    Operation::Literal(Literal::zero(ValueKind::Bool))
}

fn run(op: &Operation) -> Result<Value, EvalError> {
    evaluate(op, &mut DifferentiatedCPUContext::new())
}

fn value(x: i32) -> Result<Value, EvalError> {
    Ok(Value::Scalar(Scalar::I32(x)))
}

fn truth(b: bool) -> Result<Value, EvalError> {
    Ok(Value::Scalar(Scalar::Bool(b)))
}

#[test]
fn digits_are_read_as_a_number() {
    assert_eq!(parse_number("0"), Some(0));
    assert_eq!(parse_number("007"), Some(7));
    assert_eq!(parse_number("1234567890"), Some(1234567890));
    assert_eq!(parse_number(&isize::MAX.to_string()), Some(isize::MAX));
    assert_eq!(parse_number("9223372036854775808"), None);
    assert_eq!(parse_number("99999999999999999999999"), None);
    assert_eq!(parse_number(""), None);
    assert_eq!(parse_number("-1"), None);
    assert_eq!(parse_number("1_000"), None);
    assert_eq!(parse_number("12a"), None);
    assert_eq!(parse_number("٣"), None);
}

#[test]
fn literals_yield_their_value() {
    assert_eq!(run(&i("42")), value(42));
    assert_eq!(run(&whole(ValueKind::U64, "7")), Ok(Value::Scalar(Scalar::U64(7))));
    assert_eq!(run(&whole(ValueKind::Bool, "2")), truth(true));
    assert_eq!(run(&yes()), truth(true));
    assert_eq!(run(&no()), truth(false));
    assert_eq!(run(&whole(ValueKind::U32, "4294967296")), Ok(Value::Scalar(Scalar::U32(0))));
    assert_eq!(run(&i("x")), Err(EvalError::BadLiteral));
    assert_eq!(run(&whole(ValueKind::Void, "1")), Err(EvalError::KindMismatch));
    assert_eq!(run(&whole(ValueKind::F32, "1")), Err(EvalError::Float));
    let half = Operation::Literal(Literal {
        kind: ValueKind::I32,
        value: Constant::Float("0.5".to_string()),
    });
    assert_eq!(run(&half), Err(EvalError::Float));
}

#[test]
fn operators_work_on_integers() {
    assert_eq!(run(&operations::add(i("2"), i("3"))), value(5));
    assert_eq!(run(&operations::subtract(i("2"), i("3"))), value(-1));
    assert_eq!(run(&operations::multiply(i("6"), i("7"))), value(42));
    assert_eq!(run(&operations::divide(i("7"), i("2"))), value(3));
    assert_eq!(run(&operations::less_than(i("2"), i("3"))), truth(true));
    assert_eq!(run(&operations::greater_than_or_equal(i("2"), i("3"))), truth(false));
    assert_eq!(run(&operations::equals(i("3"), i("3"))), truth(true));
    assert_eq!(run(&operations::not_qual(i("3"), i("3"))), truth(false));
}

#[test]
fn division_rounds_towards_zero() {
    let q = |a: i32, b: i32| combine_exec(BinaryOp::Divide, Scalar::I32(a), Scalar::I32(b));
    assert_eq!(q(7, 2), Ok(Scalar::I32(3)));
    assert_eq!(q(-7, 2), Ok(Scalar::I32(-3)));
    assert_eq!(q(7, -2), Ok(Scalar::I32(-3)));
    assert_eq!(q(-7, -2), Ok(Scalar::I32(3)));
    assert_eq!(q(0, -5), Ok(Scalar::I32(0)));
    assert_eq!(q(1, 0), Err(EvalError::DivisionByZero));
    assert_eq!(q(i32::MIN, -1), Err(EvalError::Overflow));
    assert_eq!(
        combine_exec(BinaryOp::Divide, Scalar::I64(i64::MIN), Scalar::I64(-1)),
        Err(EvalError::Overflow)
    );
}

#[test]
fn results_out_of_bounds_are_overflows() {
    let max = Scalar::I32(i32::MAX);
    assert_eq!(combine_exec(BinaryOp::Add, max, Scalar::I32(1)), Err(EvalError::Overflow));
    assert_eq!(
        combine_exec(BinaryOp::Subtract, Scalar::U32(0), Scalar::U32(1)),
        Err(EvalError::Overflow)
    );
    assert_eq!(
        combine_exec(BinaryOp::Multiply, Scalar::U64(u64::MAX), Scalar::U64(u64::MAX)),
        Err(EvalError::Overflow)
    );
    assert_eq!(
        combine_exec(BinaryOp::Multiply, Scalar::I64(i64::MIN), Scalar::I64(i64::MIN)),
        Err(EvalError::Overflow)
    );
    assert_eq!(
        combine_exec(BinaryOp::Multiply, Scalar::U64(1 << 32), Scalar::U64((1 << 32) - 1)),
        Ok(Scalar::U64(u64::MAX - (1 << 32) + 1))
    );
    assert_eq!(
        combine_exec(BinaryOp::Add, Scalar::I64(i64::MIN), Scalar::I64(i64::MAX)),
        Ok(Scalar::I64(-1))
    );
}

#[test]
fn operands_must_be_of_one_kind() {
    assert_eq!(
        combine_exec(BinaryOp::Add, Scalar::I32(1), Scalar::U32(1)),
        Err(EvalError::KindMismatch)
    );
    assert_eq!(
        combine_exec(BinaryOp::Add, Scalar::Bool(true), Scalar::Bool(true)),
        Err(EvalError::KindMismatch)
    );
    assert_eq!(
        combine_exec(BinaryOp::And, Scalar::I32(1), Scalar::I32(1)),
        Err(EvalError::KindMismatch)
    );
    assert_eq!(
        combine_exec(BinaryOp::Add, Scalar::F32 { bits: 0 }, Scalar::F32 { bits: 0 }),
        Err(EvalError::Float)
    );
    assert_eq!(
        combine_exec(BinaryOp::Add, Scalar::I32(1), Scalar::F32 { bits: 0 }),
        Err(EvalError::Float)
    );
}

#[test]
fn logic_leaves_the_right_operand_alone_where_the_left_decides() {
    let broken = || operations::get(&Variable::new("x", ValueKind::Bool));
    assert_eq!(run(&operations::and(no(), broken())), truth(false));
    assert_eq!(run(&operations::or(yes(), broken())), truth(true));
    assert_eq!(run(&operations::and(yes(), broken())), Err(EvalError::Unresolved));
    assert_eq!(run(&operations::or(no(), broken())), Err(EvalError::Unresolved));
    assert_eq!(run(&operations::and(yes(), no())), truth(false));
    assert_eq!(run(&operations::or(no(), yes())), truth(true));
    assert_eq!(run(&operations::equals(yes(), no())), truth(false));
}

#[test]
fn a_conditional_yields_what_its_branch_yields() {
    let pick = |cond: Operation| {
        operations::if_then_or_else(
            cond,
            Scope::new(ValueKind::I32).returning(i("1")),
            Scope::new(ValueKind::I32).returning(i("2")),
        )
    };
    assert_eq!(run(&pick(operations::less_than(i("1"), i("2")))), value(1));
    assert_eq!(run(&pick(operations::less_than(i("2"), i("1")))), value(2));
    assert_eq!(run(&pick(i("1"))), Err(EvalError::KindMismatch));
    let alone = operations::if_then(no(), Scope::new(ValueKind::Void));
    assert_eq!(run(&alone), Ok(Value::Void));
}

#[test]
fn a_return_ends_the_scope() {
    let body = Scope::new(ValueKind::I32)
        .include_instruction(i("1"))
        .include_instruction(operations::returning(i("2")))
        .include_instruction(operations::divide(i("1"), i("0")))
        .returning(i("3"));
    let mut context = DifferentiatedCPUContext::new();
    assert_eq!(evaluate(&Operation::Scope(Box::new(body)), &mut context), value(2));
    assert!(context.is_in_return_state());
    let body = Scope::new(ValueKind::I32).include_instruction(i("1")).returning(i("3"));
    let mut context = DifferentiatedCPUContext::new();
    assert_eq!(evaluate(&Operation::Scope(Box::new(body)), &mut context), value(3));
    assert!(!context.is_in_return_state());
    assert_eq!(run(&Operation::Scope(Box::new(Scope::new(ValueKind::Void)))), Ok(Value::Void));
}

#[test]
fn what_a_backend_resolves_is_not_evaluated() {
    let x = Variable::new("x", ValueKind::I32);
    assert_eq!(run(&operations::get(&x)), Err(EvalError::Unresolved));
    assert_eq!(
        run(&operations::assign("y".to_string(), i("1")).1),
        Err(EvalError::Unresolved)
    );
    assert_eq!(
        run(&Operation::Range(Box::new(operations::range(i("0"), i("1"))))),
        Err(EvalError::Unresolved)
    );
    assert_eq!(
        run(&operations::add(i("1"), operations::get(&x))),
        Err(EvalError::Unresolved)
    );
}

fn float_unit(task: FloatTask) -> Result<Scalar, EvalError> {
    let wrap = |x: f32| Ok(Scalar::F32 { bits: x.to_bits() });
    match task {
        FloatTask::Literal(l) => match &l.value {
            Constant::Zero => wrap(0.0),
            Constant::One => wrap(1.0),
            Constant::Integer(digits) | Constant::Float(digits) => {
                digits.parse::<f32>().map_err(|_| EvalError::BadLiteral).and_then(wrap)
            }
        },
        FloatTask::Combine(op, a, b) => {
            let (a, b) = (f32::from_bits(a), f32::from_bits(b));
            match op {
                BinaryOp::Add => wrap(a + b),
                BinaryOp::Multiply => wrap(a * b),
                BinaryOp::LessThan => Ok(Scalar::Bool(a < b)),
                _ => Err(EvalError::KindMismatch),
            }
        }
    }
}

fn float(digits: &str) -> Operation {
    Operation::Literal(Literal { kind: ValueKind::F32, value: Constant::Float(digits.to_string()) })
}

fn bits(x: f32) -> Result<Value, EvalError> {
    Ok(Value::Scalar(Scalar::F32 { bits: x.to_bits() }))
}

#[test]
fn floats_are_left_to_the_float_unit() {
    let sum = operations::add(float("1.5"), float("2.25"));
    assert_eq!(run(&sum), Err(EvalError::Float));
    let mut context = DifferentiatedCPUContext::new();
    assert_eq!(evaluate_with(&sum, &mut context, &float_unit), bits(3.75));
    let product = operations::multiply(sum, float("2"));
    assert_eq!(evaluate_with(&product, &mut context, &float_unit), bits(7.5));
    let less = operations::less_than(float("1"), float("2"));
    assert_eq!(
        evaluate_with(&less, &mut context, &float_unit),
        Ok(Value::Scalar(Scalar::Bool(true)))
    );
    let refused = operations::subtract(float("1"), float("2"));
    assert_eq!(evaluate_with(&refused, &mut context, &float_unit), Err(EvalError::KindMismatch));
}

#[test]
fn the_walk_is_the_same_with_a_float_unit() {
    let cond = operations::less_than(float("1"), float("2"));
    let then_scope = Scope::new(ValueKind::I32).returning(operations::returning(i("1")));
    let else_scope = Scope::new(ValueKind::I32).returning(operations::returning(i("2")));
    let op = operations::if_then_or_else(cond, then_scope, else_scope);
    let mut context = DifferentiatedCPUContext::new();
    assert_eq!(evaluate_with(&op, &mut context, &float_unit), value(1));
    assert!(context.is_in_return_state());
    let mut context = DifferentiatedCPUContext::new();
    assert_eq!(evaluate_with(&operations::add(i("2"), i("3")), &mut context, &float_unit), value(5));
    assert_eq!(run(&operations::add(i("2"), i("3"))), value(5));
    let stops = |_: FloatTask| -> Result<Scalar, EvalError> { Err(EvalError::Float) };
    let mut context = DifferentiatedCPUContext::new();
    assert_eq!(evaluate_with(&op, &mut context, &stops), run(&op));
}
