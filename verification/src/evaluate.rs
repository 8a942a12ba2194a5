//! Evaluation of an operation tree on the host: literals, operators,
//! conditionals and scopes over booleans and integers. What needs a backend
//! to resolve it, a variable or a call, is not evaluated here. Floats are
//! held by their bits; what is to be computed on them is handed to a float
//! unit that the caller brings.

use vstd::prelude::*;
use crate::cpu::DifferentiatedCPUContext;
use crate::operation::{BinaryOp, Constant, InstructionList, Literal, Operation, Scope};
use crate::types::{Scalar, ValueKind};

verus! {

/// What an operation yields.
#[derive(Clone, Copy, Debug, PartialEq, Eq, Structural)]
pub enum Value {
    Void,
    Scalar(Scalar),
}

/// Why an operation cannot be evaluated.
#[derive(Clone, Copy, Debug, PartialEq, Eq, Structural)]
pub enum EvalError {
    /// The operation needs what a backend resolves: a variable, an index, a
    /// call or a loop.
    Unresolved,
    /// A literal whose digits are no number that fits the machine.
    BadLiteral,
    /// Operands of different kinds, or of a kind the operator does not take.
    KindMismatch,
    /// A float: floats are not evaluated here.
    Float,
    Overflow,
    DivisionByZero,
}

/// The number that a decimal digit stands for.
pub open spec fn digit(c: char) -> Option<int> {
    if '0' <= c <= '9' {
        Some(c as int - '0' as int)
    } else {
        None
    }
}

/// The number that the first `n` characters stand for as decimal digits.
pub open spec fn digits_value(s: Seq<char>, n: nat) -> Option<int>
    decreases n,
{
    if n == 0 {
        Some(0)
    } else {
        match (digits_value(s, (n - 1) as nat), digit(s[n - 1])) {
            (Some(v), Some(d)) => Some(v * 10 + d),
            _ => None,
        }
    }
}

/// The number that a text of decimal digits stands for, where it has at
/// least one digit and the number fits the machine.
pub open spec fn number(s: Seq<char>) -> Option<isize> {
    match digits_value(s, s.len()) {
        Some(v) if s.len() > 0 && v <= isize::MAX => Some(v as isize),
        _ => None,
    }
}

/// More digits do not make a smaller number, and characters that are no
/// digits stay so.
pub proof fn lemma_digits_grow(s: Seq<char>, n: nat, m: nat)
    requires
        n <= m,
    ensures
        digits_value(s, n) is None ==> digits_value(s, m) is None,
        digits_value(s, m) matches Some(w) ==> digits_value(s, n) matches Some(v) && 0 <= v <= w,
    decreases m,
{
    if n < m {
        lemma_digits_grow(s, n, (m - 1) as nat);
    } else {
        lemma_digits_positive(s, n);
    }
}

/// The number that digits stand for is not negative.
pub proof fn lemma_digits_positive(s: Seq<char>, n: nat)
    ensures
        digits_value(s, n) matches Some(v) ==> v >= 0,
    decreases n,
{
    if n > 0 {
        lemma_digits_positive(s, (n - 1) as nat);
    }
}

/// Reads a text of decimal digits.
pub fn parse_number(text: &str) -> (r: Option<isize>)
    ensures
        r == number(text@),
{
    let n = text.unicode_len();
    if n == 0 {
        return None;
    }
    let mut value: isize = 0;
    let mut i: usize = 0;
    while i < n
        invariant
            i <= n,
            n == text@.len(),
            digits_value(text@, i as nat) == Some(value as int),
            0 <= value,
        decreases n - i,
    {
        let c = text.get_char(i);
        if !(c >= '0' && c <= '9') {
            proof {
                lemma_digits_grow(text@, (i + 1) as nat, n as nat);
            }
            return None;
        }
        let d = (c as u32 - '0' as u32) as isize;
        let next = match value.checked_mul(10) {
            Some(tens) => tens.checked_add(d),
            None => None,
        };
        match next {
            Some(v) => {
                value = v;
            },
            None => {
                proof {
                    lemma_digits_grow(text@, (i + 1) as nat, n as nat);
                }
                return None;
            },
        }
        i += 1;
    }
    Some(value)
}

/// The value of a literal: zero, one, or what its digits stand for, as a
/// value of its kind.
pub open spec fn literal_value(l: Literal) -> Result<Value, EvalError> {
    if l.kind is F32 || l.value is Float {
        Err(EvalError::Float)
    } else {
        let from = match l.value {
            Constant::Zero => Some(0isize),
            Constant::One => Some(1isize),
            Constant::Integer(digits) => number(digits@),
            Constant::Float(_) => None,
        };
        match from {
            None => Err(EvalError::BadLiteral),
            Some(n) => match Scalar::of_int(l.kind, n) {
                Some(value) => Ok(Value::Scalar(value)),
                None => Err(EvalError::KindMismatch),
            },
        }
    }
}

/// Evaluates a literal.
pub fn evaluate_literal(l: &Literal) -> (r: Result<Value, EvalError>)
    ensures
        r == literal_value(*l),
{
    match l.kind {
        ValueKind::F32 => {
            return Err(EvalError::Float);
        },
        _ => {},
    }
    let from = match &l.value {
        Constant::Zero => Some(0isize),
        Constant::One => Some(1isize),
        Constant::Integer(digits) => parse_number(digits.as_str()),
        Constant::Float(_) => {
            return Err(EvalError::Float);
        },
    };
    match from {
        None => Err(EvalError::BadLiteral),
        Some(n) => match Scalar::from_int(l.kind, n) {
            Some(value) => Ok(Value::Scalar(value)),
            None => Err(EvalError::KindMismatch),
        },
    }
}

/// What an operator makes of two integers within the bounds of their kind.
/// A result out of the bounds is an overflow.
pub open spec fn combine_integers(op: BinaryOp, a: int, b: int, low: int, high: int) -> Result<
    Result<int, bool>,
    EvalError,
> {
    let bounded = |v: int|
        if low <= v <= high {
            Ok::<Result<int, bool>, EvalError>(Ok(v))
        } else {
            Err::<Result<int, bool>, EvalError>(EvalError::Overflow)
        };
    match op {
        BinaryOp::Add => bounded(a + b),
        BinaryOp::Subtract => bounded(a - b),
        BinaryOp::Multiply => bounded(a * b),
        BinaryOp::Divide => if b == 0 {
            Err(EvalError::DivisionByZero)
        } else {
            bounded(truncated_quotient(a, b))
        },
        BinaryOp::Equals => Ok(Err(a == b)),
        BinaryOp::NotEqual => Ok(Err(a != b)),
        BinaryOp::LessThan => Ok(Err(a < b)),
        BinaryOp::LessThanOrEqual => Ok(Err(a <= b)),
        BinaryOp::GreaterThan => Ok(Err(a > b)),
        BinaryOp::GreaterThanOrEqual => Ok(Err(a >= b)),
        BinaryOp::And | BinaryOp::Or => Err(EvalError::KindMismatch),
    }
}

/// The quotient of two integers, rounded towards zero.
pub open spec fn truncated_quotient(a: int, b: int) -> int {
    if a >= 0 && b > 0 {
        a / b
    } else if a < 0 && b > 0 {
        -((-a) / b)
    } else if a >= 0 && b < 0 {
        -(a / (-b))
    } else {
        (-a) / (-b)
    }
}

/// What an operator makes of two values of the same kind.
pub open spec fn combine(op: BinaryOp, a: Scalar, b: Scalar) -> Result<Scalar, EvalError> {
    match (a, b) {
        (Scalar::Bool(x), Scalar::Bool(y)) => match op {
            BinaryOp::And => Ok(Scalar::Bool(x && y)),
            BinaryOp::Or => Ok(Scalar::Bool(x || y)),
            BinaryOp::Equals => Ok(Scalar::Bool(x == y)),
            BinaryOp::NotEqual => Ok(Scalar::Bool(x != y)),
            _ => Err(EvalError::KindMismatch),
        },
        (Scalar::I32(x), Scalar::I32(y)) => match combine_integers(
            op,
            x as int,
            y as int,
            i32::MIN as int,
            i32::MAX as int,
        ) {
            Err(e) => Err(e),
            Ok(Ok(v)) => Ok(Scalar::I32(v as i32)),
            Ok(Err(t)) => Ok(Scalar::Bool(t)),
        },
        (Scalar::I64(x), Scalar::I64(y)) => match combine_integers(
            op,
            x as int,
            y as int,
            i64::MIN as int,
            i64::MAX as int,
        ) {
            Err(e) => Err(e),
            Ok(Ok(v)) => Ok(Scalar::I64(v as i64)),
            Ok(Err(t)) => Ok(Scalar::Bool(t)),
        },
        (Scalar::U32(x), Scalar::U32(y)) => match combine_integers(
            op,
            x as int,
            y as int,
            0,
            u32::MAX as int,
        ) {
            Err(e) => Err(e),
            Ok(Ok(v)) => Ok(Scalar::U32(v as u32)),
            Ok(Err(t)) => Ok(Scalar::Bool(t)),
        },
        (Scalar::U64(x), Scalar::U64(y)) => match combine_integers(
            op,
            x as int,
            y as int,
            0,
            u64::MAX as int,
        ) {
            Err(e) => Err(e),
            Ok(Ok(v)) => Ok(Scalar::U64(v as u64)),
            Ok(Err(t)) => Ok(Scalar::Bool(t)),
        },
        (Scalar::F32 { .. }, _) | (_, Scalar::F32 { .. }) => Err(EvalError::Float),
        _ => Err(EvalError::KindMismatch),
    }
}

/// The quotient of two integers, rounded towards zero.
pub fn truncated_quotient_exec(a: i128, b: i128) -> (r: i128)
    requires
        b != 0,
        -0x1_0000_0000_0000_0000 <= a <= 0x1_0000_0000_0000_0000,
        -0x1_0000_0000_0000_0000 <= b <= 0x1_0000_0000_0000_0000,
    ensures
        r == truncated_quotient(a as int, b as int),
        -0x1_0000_0000_0000_0000 <= r <= 0x1_0000_0000_0000_0000,
{
    if a >= 0 && b > 0 {
        a / b
    } else if a < 0 && b > 0 {
        -((-a) / b)
    } else if a >= 0 && b < 0 {
        -(a / (-b))
    } else {
        (-a) / (-b)
    }
}

/// Applies an operator to two integers within the bounds of their kind.
pub fn combine_integers_exec(op: BinaryOp, a: i128, b: i128, low: i128, high: i128) -> (r: Result<
    Result<i128, bool>,
    EvalError,
>)
    requires
        -0x1_0000_0000_0000_0000 <= low <= a <= high <= 0x1_0000_0000_0000_0000,
        low <= b <= high,
    ensures
        match combine_integers(op, a as int, b as int, low as int, high as int) {
            Err(e) => r == Err::<Result<i128, bool>, EvalError>(e),
            Ok(Ok(v)) => r == Ok::<Result<i128, bool>, EvalError>(Ok(v as i128)) && low <= v
                <= high,
            Ok(Err(t)) => r == Ok::<Result<i128, bool>, EvalError>(Err(t)),
        },
{
    let value = match op {
        BinaryOp::Add => a + b,
        BinaryOp::Subtract => a - b,
        BinaryOp::Multiply => match a.checked_mul(b) {
            Some(product) => product,
            None => {
                return Err(EvalError::Overflow);
            },
        },
        BinaryOp::Divide => {
            if b == 0 {
                return Err(EvalError::DivisionByZero);
            }
            truncated_quotient_exec(a, b)
        },
        BinaryOp::Equals => {
            return Ok(Err(a == b));
        },
        BinaryOp::NotEqual => {
            return Ok(Err(a != b));
        },
        BinaryOp::LessThan => {
            return Ok(Err(a < b));
        },
        BinaryOp::LessThanOrEqual => {
            return Ok(Err(a <= b));
        },
        BinaryOp::GreaterThan => {
            return Ok(Err(a > b));
        },
        BinaryOp::GreaterThanOrEqual => {
            return Ok(Err(a >= b));
        },
        BinaryOp::And | BinaryOp::Or => {
            return Err(EvalError::KindMismatch);
        },
    };
    if low <= value && value <= high {
        Ok(Ok(value))
    } else {
        Err(EvalError::Overflow)
    }
}

/// Applies an operator to two values of the same kind.
pub fn combine_exec(op: BinaryOp, a: Scalar, b: Scalar) -> (r: Result<Scalar, EvalError>)
    ensures
        r == combine(op, a, b),
{
    match (a, b) {
        (Scalar::Bool(x), Scalar::Bool(y)) => match op {
            BinaryOp::And => Ok(Scalar::Bool(x && y)),
            BinaryOp::Or => Ok(Scalar::Bool(x || y)),
            BinaryOp::Equals => Ok(Scalar::Bool(x == y)),
            BinaryOp::NotEqual => Ok(Scalar::Bool(x != y)),
            _ => Err(EvalError::KindMismatch),
        },
        (Scalar::I32(x), Scalar::I32(y)) => match combine_integers_exec(
            op,
            x as i128,
            y as i128,
            i32::MIN as i128,
            i32::MAX as i128,
        ) {
            Err(e) => Err(e),
            Ok(Ok(v)) => Ok(Scalar::I32(v as i32)),
            Ok(Err(t)) => Ok(Scalar::Bool(t)),
        },
        (Scalar::I64(x), Scalar::I64(y)) => match combine_integers_exec(
            op,
            x as i128,
            y as i128,
            i64::MIN as i128,
            i64::MAX as i128,
        ) {
            Err(e) => Err(e),
            Ok(Ok(v)) => Ok(Scalar::I64(v as i64)),
            Ok(Err(t)) => Ok(Scalar::Bool(t)),
        },
        (Scalar::U32(x), Scalar::U32(y)) => match combine_integers_exec(
            op,
            x as i128,
            y as i128,
            0,
            u32::MAX as i128,
        ) {
            Err(e) => Err(e),
            Ok(Ok(v)) => Ok(Scalar::U32(v as u32)),
            Ok(Err(t)) => Ok(Scalar::Bool(t)),
        },
        (Scalar::U64(x), Scalar::U64(y)) => match combine_integers_exec(
            op,
            x as i128,
            y as i128,
            0,
            u64::MAX as i128,
        ) {
            Err(e) => Err(e),
            Ok(Ok(v)) => Ok(Scalar::U64(v as u64)),
            Ok(Err(t)) => Ok(Scalar::Bool(t)),
        },
        (Scalar::F32 { .. }, _) => Err(EvalError::Float),
        (_, Scalar::F32 { .. }) => Err(EvalError::Float),
        _ => Err(EvalError::KindMismatch),
    }
}

/// What evaluation leaves to a float unit: the value of a literal that is a
/// float or has float digits, and what an operator makes of two floats, each
/// given by its bits.
#[derive(Debug, PartialEq, Eq)]
pub enum FloatTask {
    Literal(Literal),
    Combine(BinaryOp, u32, u32),
}

/// The float unit that takes no task: with it, floats are not evaluated.
pub open spec fn no_floats() -> spec_fn(FloatTask) -> Result<Scalar, EvalError> {
    |task: FloatTask| Err::<Scalar, EvalError>(EvalError::Float)
}

/// Whether the float unit `floats` gives, for every task, what `unit` says.
pub open spec fn agrees<F: Fn(FloatTask) -> Result<Scalar, EvalError>>(
    floats: F,
    unit: spec_fn(FloatTask) -> Result<Scalar, EvalError>,
) -> bool {
    forall|task: FloatTask, r: Result<Scalar, EvalError>| #[trigger]
        floats.ensures((task,), r) ==> r == unit(task)
}

/// The value of a literal, where floats are left to `unit`.
pub open spec fn literal_with(
    l: Literal,
    unit: spec_fn(FloatTask) -> Result<Scalar, EvalError>,
) -> Result<Value, EvalError> {
    match literal_value(l) {
        Err(EvalError::Float) => match unit(FloatTask::Literal(l)) {
            Ok(value) => Ok(Value::Scalar(value)),
            Err(e) => Err(e),
        },
        other => other,
    }
}

/// What an operator makes of two values, where two floats are left to
/// `unit`.
pub open spec fn combine_with(
    op: BinaryOp,
    a: Scalar,
    b: Scalar,
    unit: spec_fn(FloatTask) -> Result<Scalar, EvalError>,
) -> Result<Scalar, EvalError> {
    match (a, b) {
        (Scalar::F32 { bits: x }, Scalar::F32 { bits: y }) => unit(FloatTask::Combine(op, x, y)),
        _ => combine(op, a, b),
    }
}

/// What an operator between two operations yields. `&&` and `||` leave the
/// right operand alone where the left decides.
pub open spec fn eval_binary(
    op: Operation,
    returned: bool,
    unit: spec_fn(FloatTask) -> Result<Scalar, EvalError>,
) -> (Result<Value, EvalError>, bool)
    decreases op, 0nat,
{
    match op {
        Operation::Binary(b) => match eval_with(b.left, returned, unit) {
            (Err(e), after) => (Err(e), after),
            (Ok(left), r1) => if b.op == BinaryOp::And && left == Value::Scalar(
                Scalar::Bool(false),
            ) || b.op == BinaryOp::Or && left == Value::Scalar(Scalar::Bool(true)) {
                (Ok(left), r1)
            } else {
                match eval_with(b.right, r1, unit) {
                    (Err(e), after) => (Err(e), after),
                    (Ok(right), r2) => match (left, right) {
                        (Value::Scalar(x), Value::Scalar(y)) => match combine_with(
                            b.op,
                            x,
                            y,
                            unit,
                        ) {
                            Ok(v) => (Ok(Value::Scalar(v)), r2),
                            Err(e) => (Err(e), r2),
                        },
                        _ => (Err(EvalError::KindMismatch), r2),
                    },
                }
            },
        },
        _ => (Err(EvalError::Unresolved), returned),
    }
}

/// What a conditional yields: what the branch yields that the condition
/// picks.
pub open spec fn eval_if(
    op: Operation,
    returned: bool,
    unit: spec_fn(FloatTask) -> Result<Scalar, EvalError>,
) -> (Result<Value, EvalError>, bool)
    decreases op, 0nat,
{
    match op {
        Operation::IfElse(i) => match eval_with(i.condition, returned, unit) {
            (Err(e), after) => (Err(e), after),
            (Ok(Value::Scalar(Scalar::Bool(true))), r1) => eval_scope(i.then_branch, r1, unit),
            (Ok(Value::Scalar(Scalar::Bool(false))), r1) => eval_scope(i.else_branch, r1, unit),
            (Ok(_), r1) => (Err(EvalError::KindMismatch), r1),
        },
        _ => (Err(EvalError::Unresolved), returned),
    }
}

/// What a chain of instructions yields: what its latest instruction
/// yields, or what was yielded when a `return` was reached before it.
pub open spec fn eval_list(
    list: InstructionList,
    returned: bool,
    unit: spec_fn(FloatTask) -> Result<Scalar, EvalError>,
) -> (Result<Value, EvalError>, bool)
    decreases list, 0nat,
{
    match list.previous {
        None => eval_with(list.this, returned, unit),
        Some(previous) => match eval_list(*previous, returned, unit) {
            (Err(e), after) => (Err(e), after),
            (Ok(before), r1) => if r1 {
                (Ok(before), r1)
            } else {
                eval_with(list.this, r1, unit)
            },
        },
    }
}

/// What a scope yields: what its instructions yield.
pub open spec fn eval_scope(
    scope: Scope,
    returned: bool,
    unit: spec_fn(FloatTask) -> Result<Scalar, EvalError>,
) -> (Result<Value, EvalError>, bool)
    decreases scope, 0nat,
{
    eval_list(scope.instruction, returned, unit)
}

/// What an operation yields, and whether a `return` was reached, where
/// floats are left to `unit`.
pub open spec fn eval_with(
    op: Operation,
    returned: bool,
    unit: spec_fn(FloatTask) -> Result<Scalar, EvalError>,
) -> (Result<Value, EvalError>, bool)
    decreases op, 1nat,
{
    match op {
        Operation::Literal(l) => (literal_with(l, unit), returned),
        Operation::Binary(_) => eval_binary(op, returned, unit),
        Operation::IfElse(_) => eval_if(op, returned, unit),
        Operation::Scope(s) => eval_scope(*s, returned, unit),
        Operation::Returns(r) => eval_with(r.operation, true, unit),
        Operation::Noop(_) => (Ok(Value::Void), returned),
        _ => (Err(EvalError::Unresolved), returned),
    }
}

/// What an operation yields, and whether a `return` was reached, where
/// floats are not evaluated.
pub open spec fn eval(op: Operation, returned: bool) -> (Result<Value, EvalError>, bool) {
    eval_with(op, returned, no_floats())
}

/// Evaluates a literal; a float is left to the float unit.
pub fn evaluate_literal_with<F: Fn(FloatTask) -> Result<Scalar, EvalError>>(
    l: &Literal,
    floats: &F,
) -> (r: Result<Value, EvalError>)
    requires
        forall|task: FloatTask| floats.requires((task,)),
    ensures
        forall|unit: spec_fn(FloatTask) -> Result<Scalar, EvalError>| #[trigger]
            agrees(*floats, unit) ==> r == literal_with(*l, unit),
{
    match evaluate_literal(l) {
        Err(EvalError::Float) => match floats(FloatTask::Literal(l.duplicate())) {
            Ok(value) => Ok(Value::Scalar(value)),
            Err(e) => Err(e),
        },
        other => other,
    }
}

/// What an operator makes of two values; two floats are left to the float
/// unit.
pub fn combine_exec_with<F: Fn(FloatTask) -> Result<Scalar, EvalError>>(
    op: BinaryOp,
    a: Scalar,
    b: Scalar,
    floats: &F,
) -> (r: Result<Scalar, EvalError>)
    requires
        forall|task: FloatTask| floats.requires((task,)),
    ensures
        forall|unit: spec_fn(FloatTask) -> Result<Scalar, EvalError>| #[trigger]
            agrees(*floats, unit) ==> r == combine_with(op, a, b, unit),
{
    match (a, b) {
        (Scalar::F32 { bits: x }, Scalar::F32 { bits: y }) => floats(FloatTask::Combine(op, x, y)),
        _ => combine_exec(op, a, b),
    }
}

/// Evaluates an operator between two operations.
pub fn evaluate_binary<F: Fn(FloatTask) -> Result<Scalar, EvalError>>(
    op: &Operation,
    context: &mut DifferentiatedCPUContext<Scalar>,
    floats: &F,
) -> (r: Result<Value, EvalError>)
    requires
        forall|task: FloatTask| floats.requires((task,)),
    ensures
        forall|unit: spec_fn(FloatTask) -> Result<Scalar, EvalError>| #[trigger]
            agrees(*floats, unit) ==> (r, final(context).return_state) == eval_binary(
                *op,
                old(context).return_state,
                unit,
            ),
        final(context).values == old(context).values,
    decreases op, 0nat,
{
    match op {
        Operation::Binary(b) => {
            let left = evaluate_with(&b.left, context, floats)?;
            match (b.op, left) {
                (BinaryOp::And, Value::Scalar(Scalar::Bool(false))) => {
                    return Ok(left);
                },
                (BinaryOp::Or, Value::Scalar(Scalar::Bool(true))) => {
                    return Ok(left);
                },
                _ => {},
            }
            let right = evaluate_with(&b.right, context, floats)?;
            match (left, right) {
                (Value::Scalar(x), Value::Scalar(y)) => match combine_exec_with(b.op, x, y, floats) {
                    Ok(v) => Ok(Value::Scalar(v)),
                    Err(e) => Err(e),
                },
                _ => Err(EvalError::KindMismatch),
            }
        },
        _ => Err(EvalError::Unresolved),
    }
}

/// Evaluates a conditional.
pub fn evaluate_if<F: Fn(FloatTask) -> Result<Scalar, EvalError>>(
    op: &Operation,
    context: &mut DifferentiatedCPUContext<Scalar>,
    floats: &F,
) -> (r: Result<Value, EvalError>)
    requires
        forall|task: FloatTask| floats.requires((task,)),
    ensures
        forall|unit: spec_fn(FloatTask) -> Result<Scalar, EvalError>| #[trigger]
            agrees(*floats, unit) ==> (r, final(context).return_state) == eval_if(
                *op,
                old(context).return_state,
                unit,
            ),
        final(context).values == old(context).values,
    decreases op, 0nat,
{
    match op {
        Operation::IfElse(i) => match evaluate_with(&i.condition, context, floats)? {
            Value::Scalar(Scalar::Bool(true)) => evaluate_scope(&i.then_branch, context, floats),
            Value::Scalar(Scalar::Bool(false)) => evaluate_scope(&i.else_branch, context, floats),
            _ => Err(EvalError::KindMismatch),
        },
        _ => Err(EvalError::Unresolved),
    }
}

/// Evaluates a chain of instructions.
pub fn evaluate_list<F: Fn(FloatTask) -> Result<Scalar, EvalError>>(
    list: &InstructionList,
    context: &mut DifferentiatedCPUContext<Scalar>,
    floats: &F,
) -> (r: Result<Value, EvalError>)
    requires
        forall|task: FloatTask| floats.requires((task,)),
    ensures
        forall|unit: spec_fn(FloatTask) -> Result<Scalar, EvalError>| #[trigger]
            agrees(*floats, unit) ==> (r, final(context).return_state) == eval_list(
                *list,
                old(context).return_state,
                unit,
            ),
        final(context).values == old(context).values,
    decreases list, 0nat,
{
    match &list.previous {
        None => evaluate_with(&list.this, context, floats),
        Some(previous) => {
            let before = evaluate_list(previous, context, floats)?;
            if context.is_in_return_state() {
                Ok(before)
            } else {
                evaluate_with(&list.this, context, floats)
            }
        },
    }
}

/// Evaluates a scope.
pub fn evaluate_scope<F: Fn(FloatTask) -> Result<Scalar, EvalError>>(
    scope: &Scope,
    context: &mut DifferentiatedCPUContext<Scalar>,
    floats: &F,
) -> (r: Result<Value, EvalError>)
    requires
        forall|task: FloatTask| floats.requires((task,)),
    ensures
        forall|unit: spec_fn(FloatTask) -> Result<Scalar, EvalError>| #[trigger]
            agrees(*floats, unit) ==> (r, final(context).return_state) == eval_scope(
                *scope,
                old(context).return_state,
                unit,
            ),
        final(context).values == old(context).values,
    decreases scope, 0nat,
{
    evaluate_list(&scope.instruction, context, floats)
}

/// Evaluates an operation and leaves floats to the float unit `floats`. A
/// `return` sets the return state of the context; the instructions after it
/// are not evaluated.
pub fn evaluate_with<F: Fn(FloatTask) -> Result<Scalar, EvalError>>(
    op: &Operation,
    context: &mut DifferentiatedCPUContext<Scalar>,
    floats: &F,
) -> (r: Result<Value, EvalError>)
    requires
        forall|task: FloatTask| floats.requires((task,)),
    ensures
        forall|unit: spec_fn(FloatTask) -> Result<Scalar, EvalError>| #[trigger]
            agrees(*floats, unit) ==> (r, final(context).return_state) == eval_with(
                *op,
                old(context).return_state,
                unit,
            ),
        final(context).values == old(context).values,
    decreases op, 1nat,
{
    match op {
        Operation::Literal(l) => evaluate_literal_with(l, floats),
        Operation::Binary(_) => evaluate_binary(op, context, floats),
        Operation::IfElse(_) => evaluate_if(op, context, floats),
        Operation::Scope(s) => evaluate_scope(s, context, floats),
        Operation::Returns(r) => {
            context.set_return_state(true);
            evaluate_with(&r.operation, context, floats)
        },
        Operation::Noop(_) => Ok(Value::Void),
        _ => Err(EvalError::Unresolved),
    }
}

/// Evaluates an operation; a float is an error. A `return` sets the return
/// state of the context; the instructions after it are not evaluated.
pub fn evaluate(op: &Operation, context: &mut DifferentiatedCPUContext<Scalar>) -> (r: Result<
    Value,
    EvalError,
>)
    ensures
        r == eval(*op, old(context).return_state).0,
        final(context).return_state == eval(*op, old(context).return_state).1,
        final(context).values == old(context).values,
{
    let floats = |task: FloatTask| -> (r: Result<Scalar, EvalError>)
        ensures
            r == Err::<Scalar, EvalError>(EvalError::Float),
        { Err(EvalError::Float) };
    assert(agrees(floats, no_floats()));
    evaluate_with(op, context, &floats)
}

} // verus!
