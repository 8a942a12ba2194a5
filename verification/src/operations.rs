//! Builders for the nodes of the operation tree.
//!
//! An arithmetic node has the kind of its left operand; comparisons and
//! logical operators yield `Bool`.

use vstd::prelude::*;
use crate::operation::{
    Assign, Binary, BinaryOp, Call, Container, ForEach, Function, FunctionName, Get, IfElse, Index,
    Inputs, InstructionList, Location, Noop, Operation, Parameters, Range, Returns, Scope, Store,
    Until,
};
use crate::types::ValueKind;
use crate::var::Variable;

verus! {

/// The sum of two operations.
pub fn add(left: Operation, right: Operation) -> (r: Operation)
    ensures
        r == Operation::Binary(
            Box::new(Binary { op: BinaryOp::Add, kind: left.kind_of(), left, right }),
        ),
{
    let kind = left.kind();
    Operation::Binary(Box::new(Binary { op: BinaryOp::Add, kind, left, right }))
}

/// The difference of two operations.
pub fn subtract(left: Operation, right: Operation) -> (r: Operation)
    ensures
        r == Operation::Binary(
            Box::new(Binary { op: BinaryOp::Subtract, kind: left.kind_of(), left, right }),
        ),
{
    let kind = left.kind();
    Operation::Binary(Box::new(Binary { op: BinaryOp::Subtract, kind, left, right }))
}

/// The product of two operations.
pub fn multiply(left: Operation, right: Operation) -> (r: Operation)
    ensures
        r == Operation::Binary(
            Box::new(Binary { op: BinaryOp::Multiply, kind: left.kind_of(), left, right }),
        ),
{
    let kind = left.kind();
    Operation::Binary(Box::new(Binary { op: BinaryOp::Multiply, kind, left, right }))
}

/// The quotient of two operations.
pub fn divide(left: Operation, right: Operation) -> (r: Operation)
    ensures
        r == Operation::Binary(
            Box::new(Binary { op: BinaryOp::Divide, kind: left.kind_of(), left, right }),
        ),
{
    let kind = left.kind();
    Operation::Binary(Box::new(Binary { op: BinaryOp::Divide, kind, left, right }))
}

/// Whether two operations yield the same.
pub fn equals(left: Operation, right: Operation) -> (r: Operation)
    ensures
        r == Operation::Binary(
            Box::new(Binary { op: BinaryOp::Equals, kind: ValueKind::Bool, left, right }),
        ),
{
    let kind = ValueKind::Bool;
    Operation::Binary(Box::new(Binary { op: BinaryOp::Equals, kind, left, right }))
}

/// Whether two operations yield different values.
pub fn not_qual(left: Operation, right: Operation) -> (r: Operation)
    ensures
        r == Operation::Binary(
            Box::new(Binary { op: BinaryOp::NotEqual, kind: ValueKind::Bool, left, right }),
        ),
{
    let kind = ValueKind::Bool;
    Operation::Binary(Box::new(Binary { op: BinaryOp::NotEqual, kind, left, right }))
}

/// Whether the left operation yields less than the right.
pub fn less_than(left: Operation, right: Operation) -> (r: Operation)
    ensures
        r == Operation::Binary(
            Box::new(Binary { op: BinaryOp::LessThan, kind: ValueKind::Bool, left, right }),
        ),
{
    let kind = ValueKind::Bool;
    Operation::Binary(Box::new(Binary { op: BinaryOp::LessThan, kind, left, right }))
}

/// Whether the left operation yields at most what the right yields.
pub fn less_than_or_equal(left: Operation, right: Operation) -> (r: Operation)
    ensures
        r == Operation::Binary(
            Box::new(Binary { op: BinaryOp::LessThanOrEqual, kind: ValueKind::Bool, left, right }),
        ),
{
    let kind = ValueKind::Bool;
    Operation::Binary(Box::new(Binary { op: BinaryOp::LessThanOrEqual, kind, left, right }))
}

/// Whether the left operation yields more than the right.
pub fn greater_than(left: Operation, right: Operation) -> (r: Operation)
    ensures
        r == Operation::Binary(
            Box::new(Binary { op: BinaryOp::GreaterThan, kind: ValueKind::Bool, left, right }),
        ),
{
    let kind = ValueKind::Bool;
    Operation::Binary(Box::new(Binary { op: BinaryOp::GreaterThan, kind, left, right }))
}

/// Whether the left operation yields at least what the right yields.
pub fn greater_than_or_equal(left: Operation, right: Operation) -> (r: Operation)
    ensures
        r == Operation::Binary(
            Box::new(Binary { op: BinaryOp::GreaterThanOrEqual, kind: ValueKind::Bool, left, right }),
        ),
{
    let kind = ValueKind::Bool;
    Operation::Binary(Box::new(Binary { op: BinaryOp::GreaterThanOrEqual, kind, left, right }))
}

/// Whether both operations hold.
pub fn and(left: Operation, right: Operation) -> (r: Operation)
    ensures
        r == Operation::Binary(
            Box::new(Binary { op: BinaryOp::And, kind: ValueKind::Bool, left, right }),
        ),
{
    let kind = ValueKind::Bool;
    Operation::Binary(Box::new(Binary { op: BinaryOp::And, kind, left, right }))
}

/// Whether one of the operations holds.
pub fn or(left: Operation, right: Operation) -> (r: Operation)
    ensures
        r == Operation::Binary(
            Box::new(Binary { op: BinaryOp::Or, kind: ValueKind::Bool, left, right }),
        ),
{
    let kind = ValueKind::Bool;
    Operation::Binary(Box::new(Binary { op: BinaryOp::Or, kind, left, right }))
}

/// Reads a variable.
pub fn get(var: &Variable) -> (r: Operation)
    ensures
        r == Operation::Get(Get { getable: *var }),
{
    Operation::Get(Get { getable: var.duplicate() })
}

/// Writes what `assign` yields to a place that exists.
pub fn set(var: &Location, assign: Operation) -> (r: Operation)
    ensures
        r == Operation::Store(Box::new(Store { getable: *var, assign })),
{
    Operation::Store(Box::new(Store { getable: var.duplicate(), assign }))
}

/// Binds what `operation` yields to a new name. The result is the variable
/// of that name and the instruction that binds it.
pub fn assign(name: String, operation: Operation) -> (r: (Variable, Operation))
    ensures
        r.0 == (Variable { reference: name, member: None, kind: operation.kind_of() }),
        r.1 == Operation::Assign(Box::new(Assign { variable: r.0, assign: operation })),
{
    let kind = operation.kind();
    let variable = Variable { reference: name, member: None, kind };
    let instruction = Operation::Assign(
        Box::new(Assign { variable: variable.duplicate(), assign: operation }),
    );
    (variable, instruction)
}

/// Reads the element at `op` of an indexable input.
pub fn index(tensor: &Variable, container: Container, op: Operation) -> (r: Operation)
    ensures
        r == Operation::Index(
            Box::new(Index { tensor: *tensor, container, index: op, kind: tensor.kind }),
        ),
{
    Operation::Index(
        Box::new(Index { tensor: tensor.duplicate(), container, index: op, kind: tensor.kind }),
    )
}

/// Calls a function with the given arguments, of which there must be as
/// many as the function has parameters.
pub fn call(inputs: Inputs, function: Function) -> (r: Operation)
    requires
        inputs.count() == function.inputs.count(),
    ensures
        r == Operation::Call(Box::new(Call { inputs, function })),
{
    Operation::Call(Box::new(Call { inputs, function }))
}

/// A function of the given name, parameters and body. It yields what its
/// body yields.
pub fn function(name: &str, inputs: Parameters, scope: Scope) -> (r: Function)
    ensures
        r.name matches FunctionName::Given(given) && given@ == name@,
        r.kind == scope.kind,
        r.inputs == inputs,
        r.scope == scope,
{
    Function { name: FunctionName::Given(name.to_owned()), kind: scope.kind, inputs, scope }
}

/// Runs `scope` once for each integer of `iterable`, bound to `variable`.
pub fn foreach(variable: Variable, iterable: Range, scope: Scope) -> (r: Operation)
    ensures
        r == Operation::ForEach(Box::new(ForEach { variable, iterable, scope })),
{
    Operation::ForEach(Box::new(ForEach { variable, iterable, scope }))
}

/// Runs `then_scope` where `condition` holds. The other branch does
/// nothing.
pub fn if_then(condition: Operation, then_scope: Scope) -> (r: Operation)
    ensures
        r == Operation::IfElse(
            Box::new(
                IfElse {
                    kind: then_scope.kind,
                    condition,
                    then_branch: then_scope,
                    else_branch: Scope {
                        kind: then_scope.kind,
                        returned: false,
                        instruction: InstructionList {
                            this: Operation::Noop(Noop),
                            previous: None,
                        },
                    },
                },
            ),
        ),
{
    let kind = then_scope.kind;
    Operation::IfElse(
        Box::new(
            IfElse { kind, condition, then_branch: then_scope, else_branch: Scope::new(kind) },
        ),
    )
}

/// Runs `then_scope` where `condition` holds and `els` where it does not.
pub fn if_then_or_else(condition: Operation, then_scope: Scope, els: Scope) -> (r: Operation)
    ensures
        r == Operation::IfElse(
            Box::new(
                IfElse {
                    kind: then_scope.kind,
                    condition,
                    then_branch: then_scope,
                    else_branch: els,
                },
            ),
        ),
{
    let kind = then_scope.kind;
    Operation::IfElse(
        Box::new(IfElse { kind, condition, then_branch: then_scope, else_branch: els }),
    )
}

/// The integers from `left` up to, and without, `right`.
pub fn range(left: Operation, right: Operation) -> (r: Range)
    ensures
        r == (Range { left, right }),
{
    Range { left, right }
}

/// Runs `scope` again and again until `condition` holds.
pub fn until(condition: Operation, scope: Scope) -> (r: Operation)
    ensures
        r == Operation::Until(Box::new(Until { condition, scope })),
{
    Operation::Until(Box::new(Until { condition, scope }))
}

/// Yields what `operation` yields as the result of the scope it stands in.
pub fn returning(operation: Operation) -> (r: Operation)
    ensures
        r == Operation::Returns(Box::new(Returns { kind: operation.kind_of(), operation })),
{
    let kind = operation.kind();
    Operation::Returns(Box::new(Returns { kind, operation }))
}

} // verus!
