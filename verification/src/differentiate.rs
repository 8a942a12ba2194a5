//! Symbolic differentiation of an operation tree with respect to one
//! variable.
//!
//! The derivative is built by structural recursion. While it goes through
//! the assignments of a scope, it keeps track of which names the target flows
//! into: the dependency trace.

use vstd::prelude::*;
use crate::operation::{
    Assign, Binary, BinaryOp, Call, Container, ForEach, Function, FunctionName, Get, IfElse, Index,
    Inputs, InstructionList, Literal, Location, Operation, Parameters, Returns, Scope, Store, Until,
};
use crate::var::Variable;

verus! {

/// One step of the dependency trace.
#[derive(Debug, PartialEq, Eq)]
pub enum TraceEntry {
    /// The derivative of `on` flows into `variable`.
    Depends { variable: Variable, on: Variable },
    /// `variable` is bound anew: what flowed into it before does no more.
    Reset { variable: Variable },
}

/// Whether the trace says that the derivative of `on` flows into `variable`:
/// an entry says so, and `variable` was not bound anew after it.
pub open spec fn depends(trace: Seq<TraceEntry>, variable: Variable, on: Variable) -> bool
    decreases trace.len(),
{
    if trace.len() == 0 {
        false
    } else {
        match trace.last() {
            TraceEntry::Reset { variable: v } if v.same_name(variable) => false,
            TraceEntry::Depends { variable: v, on: o } if v.same_name(variable) && o.same_name(
                on,
            ) => true,
            _ => depends(trace.drop_last(), variable, on),
        }
    }
}

/// Decides [`depends`].
pub fn depends_exec(trace: &Vec<TraceEntry>, variable: &Variable, on: &Variable) -> (r: bool)
    ensures
        r == depends(trace@, *variable, *on),
{
    let mut i: usize = trace.len();
    assert(trace@.take(i as int) =~= trace@);
    while i > 0
        invariant
            i <= trace.len(),
            depends(trace@, *variable, *on) == depends(trace@.take(i as int), *variable, *on),
        decreases i,
    {
        assert(trace@.take(i as int).drop_last() =~= trace@.take(i - 1));
        match &trace[i - 1] {
            TraceEntry::Reset { variable: v } => {
                if v.is(variable) {
                    return false;
                }
            },
            TraceEntry::Depends { variable: v, on: o } => {
                if v.is(variable) && o.is(on) {
                    return true;
                }
            },
        }
        i -= 1;
    }
    false
}

/// Whether an element of the indexable input `tensor` is an element of
/// `var`: the input must be known by the name of `var` alone.
pub open spec fn index_of(tensor: Variable, var: Variable) -> bool {
    var.member is None && tensor.reference@ == var.reference@
}

/// Whether what the location names is `var`.
pub open spec fn location_is(location: Location, var: Variable) -> bool {
    match location {
        Location::Variable(v) => v.same_name(var),
        Location::Index(i) => i.container == Container::Vector && i.tensor.same_name(var),
    }
}

/// Whether the operation reads or writes `var`.
pub open spec fn contains(op: Operation, var: Variable) -> bool
    decreases op,
{
    match op {
        Operation::Literal(_) => false,
        Operation::Get(g) => g.getable.same_name(var),
        Operation::Index(i) => index_of(i.tensor, var),
        Operation::Store(s) => contains(s.assign, var) || location_is(s.getable, var),
        Operation::Assign(a) => contains(a.assign, var),
        Operation::Binary(b) => contains(b.left, var) || contains(b.right, var),
        Operation::Range(r) => contains(r.left, var) || contains(r.right, var),
        Operation::ForEach(f) => scope_contains(f.scope, var),
        Operation::IfElse(i) => scope_contains(i.then_branch, var) || scope_contains(
            i.else_branch,
            var,
        ),
        Operation::Until(u) => scope_contains(u.scope, var),
        Operation::Call(c) => inputs_contain(c.inputs, var),
        Operation::Function(f) => scope_contains(f.scope, var),
        Operation::Scope(s) => scope_contains(*s, var),
        Operation::Returns(r) => contains(r.operation, var),
        Operation::Record(_) => false,
        Operation::Noop(_) => false,
    }
}

/// Whether an instruction of the scope reads or writes `var`.
pub open spec fn scope_contains(scope: Scope, var: Variable) -> bool
    decreases scope,
{
    list_contains(scope.instruction, var)
}

/// Whether an instruction of the chain reads or writes `var`.
pub open spec fn list_contains(list: InstructionList, var: Variable) -> bool
    decreases list,
{
    contains(list.this, var) || match list.previous {
        Some(previous) => list_contains(*previous, var),
        None => false,
    }
}

/// Whether an argument reads or writes `var`.
pub open spec fn inputs_contain(inputs: Inputs, var: Variable) -> bool
    decreases inputs,
{
    contains(inputs.first, var) || match inputs.rest {
        Some(rest) => inputs_contain(*rest, var),
        None => false,
    }
}

/// Decides [`contains`].
pub fn contains_var(op: &Operation, var: &Variable) -> (r: bool)
    ensures
        r == contains(*op, *var),
    decreases op,
{
    match op {
        Operation::Literal(_) => false,
        Operation::Get(g) => g.getable.is(var),
        Operation::Index(i) => var.member.is_none() && i.tensor.reference == var.reference,
        Operation::Store(s) => {
            contains_var(&s.assign, var) || match &s.getable {
                Location::Variable(v) => v.is(var),
                Location::Index(i) => i.container == Container::Vector && i.tensor.is(var),
            }
        },
        Operation::Assign(a) => contains_var(&a.assign, var),
        Operation::Binary(b) => contains_var(&b.left, var) || contains_var(&b.right, var),
        Operation::Range(r) => contains_var(&r.left, var) || contains_var(&r.right, var),
        Operation::ForEach(f) => scope_contains_var(&f.scope, var),
        Operation::IfElse(i) => scope_contains_var(&i.then_branch, var) || scope_contains_var(
            &i.else_branch,
            var,
        ),
        Operation::Until(u) => scope_contains_var(&u.scope, var),
        Operation::Call(c) => inputs_contain_var(&c.inputs, var),
        Operation::Function(f) => scope_contains_var(&f.scope, var),
        Operation::Scope(s) => scope_contains_var(s, var),
        Operation::Returns(r) => contains_var(&r.operation, var),
        Operation::Record(_) => false,
        Operation::Noop(_) => false,
    }
}

/// Decides [`scope_contains`].
pub fn scope_contains_var(scope: &Scope, var: &Variable) -> (r: bool)
    ensures
        r == scope_contains(*scope, *var),
    decreases scope,
{
    list_contains_var(&scope.instruction, var)
}

/// Decides [`list_contains`].
pub fn list_contains_var(list: &InstructionList, var: &Variable) -> (r: bool)
    ensures
        r == list_contains(*list, *var),
    decreases list,
{
    contains_var(&list.this, var) || match &list.previous {
        Some(previous) => list_contains_var(previous, var),
        None => false,
    }
}

/// Decides [`inputs_contain`].
pub fn inputs_contain_var(inputs: &Inputs, var: &Variable) -> (r: bool)
    ensures
        r == inputs_contain(*inputs, *var),
    decreases inputs,
{
    contains_var(&inputs.first, var) || match &inputs.rest {
        Some(rest) => inputs_contain_var(rest, var),
        None => false,
    }
}

/// A parameter as the target of a derivative: under its own name and the
/// kind of `var`.
pub open spec fn as_target(parameter: Variable, var: Variable) -> Variable {
    Variable { reference: parameter.reference, member: parameter.member, kind: var.kind }
}

/// Builds the target of [`as_target`].
pub fn as_target_exec(parameter: &Variable, var: &Variable) -> (r: Variable)
    ensures
        r == as_target(*parameter, *var),
{
    Variable {
        reference: parameter.reference.clone(),
        member: crate::text::clone_text(&parameter.member),
        kind: var.kind,
    }
}

/// The parameter that stands for the first argument which reads `var`,
/// under the kind of `var`.
pub open spec fn map_variable(inputs: Inputs, parameters: Parameters, var: Variable) -> Option<
    Variable,
>
    decreases inputs,
{
    if contains(inputs.first, var) {
        Some(as_target(parameters.first, var))
    } else {
        match (inputs.rest, parameters.rest) {
            (Some(rest), Some(others)) => map_variable(*rest, *others, var),
            _ => None,
        }
    }
}

/// Finds the parameter of [`map_variable`].
pub fn map_variable_exec(inputs: &Inputs, parameters: &Parameters, var: &Variable) -> (r: Option<
    Variable,
>)
    ensures
        r == map_variable(*inputs, *parameters, *var),
    decreases inputs,
{
    if contains_var(&inputs.first, var) {
        Some(as_target_exec(&parameters.first, var))
    } else {
        match (&inputs.rest, &parameters.rest) {
            (Some(rest), Some(others)) => map_variable_exec(rest, others, var),
            _ => None,
        }
    }
}

/// The product of two operations.
pub open spec fn product(kind: crate::types::ValueKind, left: Operation, right: Operation) -> Operation {
    Operation::Binary(Box::new(Binary { op: BinaryOp::Multiply, kind, left, right }))
}

/// The sum of two operations.
pub open spec fn sum(kind: crate::types::ValueKind, left: Operation, right: Operation) -> Operation {
    Operation::Binary(Box::new(Binary { op: BinaryOp::Add, kind, left, right }))
}

/// The derivative of a variable that is read: one where it is the target,
/// the variable itself where the trace says that the target flows into it,
/// and zero otherwise.
pub open spec fn diff_get(g: Get, var: Variable, trace: Seq<TraceEntry>) -> Operation {
    if g.getable.same_name(var) {
        Operation::Literal(Literal::one_of(g.getable.kind))
    } else if depends(trace, g.getable, var) {
        Operation::Get(g)
    } else {
        Operation::Literal(Literal::zero_of(g.getable.kind))
    }
}

/// The derivative of an operator: sums and differences term by term,
/// products by the product rule, quotients by the quotient rule. Comparisons
/// and logical operators stay as they are.
pub open spec fn diff_binary(op: Operation, var: Variable, trace: Seq<TraceEntry>) -> (
    Operation,
    Seq<TraceEntry>,
)
    decreases op, 0nat,
{
    match op {
        Operation::Binary(b) => match b.op {
            BinaryOp::Add | BinaryOp::Subtract => {
                let (l, t1) = diff(b.left, var, trace);
                let (r, t2) = diff(b.right, var, t1);
                (Operation::Binary(Box::new(Binary { op: b.op, kind: b.kind, left: l, right: r })), t2)
            },
            BinaryOp::Multiply => {
                let (r, t1) = diff(b.right, var, trace);
                let (l, t2) = diff(b.left, var, t1);
                (
                    Operation::Binary(
                        Box::new(
                            Binary {
                                op: BinaryOp::Add,
                                kind: b.kind,
                                left: product(b.kind, b.left, r),
                                right: product(b.kind, l, b.right),
                            },
                        ),
                    ),
                    t2,
                )
            },
            BinaryOp::Divide => {
                let (l, t1) = diff(b.left, var, trace);
                let (r, t2) = diff(b.right, var, t1);
                (
                    Operation::Binary(
                        Box::new(
                            Binary {
                                op: BinaryOp::Divide,
                                kind: b.kind,
                                left: Operation::Binary(
                                    Box::new(
                                        Binary {
                                            op: BinaryOp::Subtract,
                                            kind: b.kind,
                                            left: product(b.kind, l, b.right),
                                            right: product(b.kind, b.left, r),
                                        },
                                    ),
                                ),
                                right: product(b.kind, b.right, b.right),
                            },
                        ),
                    ),
                    t2,
                )
            },
            _ => (op, trace),
        },
        _ => (op, trace),
    }
}

/// What the trace holds once `variable` is bound to `value`: that the name
/// is bound anew and, where the value reads `var`, that `var` flows into it.
pub open spec fn bind(trace: Seq<TraceEntry>, variable: Variable, value: Operation, var: Variable) -> Seq<
    TraceEntry,
> {
    let anew = trace.push(TraceEntry::Reset { variable });
    if contains(value, var) {
        anew.push(TraceEntry::Depends { variable, on: var })
    } else {
        anew
    }
}

/// The derivative of a new binding: the name is bound anew, so what the
/// trace said of it holds no more; where the value reads the target, the trace
/// takes note that the target flows into the name. Then the value is
/// differentiated.
pub open spec fn diff_assign(op: Operation, var: Variable, trace: Seq<TraceEntry>) -> (
    Operation,
    Seq<TraceEntry>,
)
    decreases op, 0nat,
{
    match op {
        Operation::Assign(a) => {
            let (value, after) = diff(a.assign, var, bind(trace, a.variable, a.assign, var));
            (Operation::Assign(Box::new(Assign { variable: a.variable, assign: value })), after)
        },
        _ => (op, trace),
    }
}

/// The derivative of a write: where the target flows into the value, the
/// trace takes note of it for the variable that is written to.
pub open spec fn diff_store(op: Operation, var: Variable, trace: Seq<TraceEntry>) -> (
    Operation,
    Seq<TraceEntry>,
)
    decreases op, 0nat,
{
    match op {
        Operation::Store(s) => {
            let noted = if contains(s.assign, var) {
                trace.push(TraceEntry::Depends { variable: s.getable.variable(), on: var })
            } else {
                trace
            };
            let (value, after) = diff(s.assign, var, noted);
            (Operation::Store(Box::new(Store { getable: s.getable, assign: value })), after)
        },
        _ => (op, trace),
    }
}

/// The derivative of a conditional: both branches are differentiated, the
/// condition stays.
pub open spec fn diff_if(op: Operation, var: Variable, trace: Seq<TraceEntry>) -> (
    Operation,
    Seq<TraceEntry>,
)
    decreases op, 0nat,
{
    match op {
        Operation::IfElse(i) => {
            let (t, t1) = diff_scope(i.then_branch, var, trace);
            let (e, t2) = diff_scope(i.else_branch, var, t1);
            (
                Operation::IfElse(
                    Box::new(
                        IfElse {
                            kind: i.kind,
                            condition: i.condition,
                            then_branch: t,
                            else_branch: e,
                        },
                    ),
                ),
                t2,
            )
        },
        _ => (op, trace),
    }
}

/// The derivative of each argument, in the order of the arguments.
pub open spec fn diff_inputs(inputs: Inputs, var: Variable, trace: Seq<TraceEntry>) -> (
    Inputs,
    Seq<TraceEntry>,
)
    decreases inputs, 0nat,
{
    let (first, t1) = diff(inputs.first, var, trace);
    match inputs.rest {
        None => (Inputs { first, rest: None }, t1),
        Some(rest) => {
            let (others, t2) = diff_inputs(*rest, var, t1);
            (Inputs { first, rest: Some(Box::new(others)) }, t2)
        },
    }
}

/// The partial derivatives of a function, one for each of `parameters` in
/// their order: the derivative of the function with respect to the parameter,
/// called with `inputs`.
pub open spec fn diff_partials(
    f: Function,
    parameters: Parameters,
    inputs: Inputs,
    var: Variable,
    trace: Seq<TraceEntry>,
) -> (Inputs, Seq<TraceEntry>)
    decreases f, parameters.count(),
{
    let (d, t1) = diff_function(f, as_target(parameters.first, var), trace);
    let first = Operation::Call(Box::new(Call { inputs, function: d }));
    match parameters.rest {
        None => (Inputs { first, rest: None }, t1),
        Some(rest) => {
            let (others, t2) = diff_partials(f, *rest, inputs, var, t1);
            (Inputs { first, rest: Some(Box::new(others)) }, t2)
        },
    }
}

/// The sum of the products of the operations of two lists, pair by pair: the
/// first of one times the first of the other, plus the second times the
/// second, and so on as far as both lists go.
pub open spec fn sum_of_products(kind: crate::types::ValueKind, left: Inputs, right: Inputs) -> Operation
    decreases left,
{
    let term = product(kind, left.first, right.first);
    match (left.rest, right.rest) {
        (Some(l), Some(r)) => sum(kind, term, sum_of_products(kind, *l, *r)),
        _ => term,
    }
}

/// The derivative of a call by the chain rule: the sum, over the arguments,
/// of the derivative of the function with respect to the parameter of the
/// argument, called with the same arguments, times the derivative of the
/// argument. A call of which no argument reads the target stays as it is.
pub open spec fn diff_call(op: Operation, var: Variable, trace: Seq<TraceEntry>) -> (
    Operation,
    Seq<TraceEntry>,
)
    decreases op, 0nat,
{
    match op {
        Operation::Call(c) => if inputs_contain(c.inputs, var) {
            let (partials, t1) = diff_partials(c.function, c.function.inputs, c.inputs, var, trace);
            let (derivatives, t2) = diff_inputs(c.inputs, var, t1);
            (sum_of_products(c.function.kind, partials, derivatives), t2)
        } else {
            (op, trace)
        },
        _ => (op, trace),
    }
}

/// The derivative of a function: the derivative of its body, under a name
/// that says so.
pub open spec fn diff_function(f: Function, var: Variable, trace: Seq<TraceEntry>) -> (
    Function,
    Seq<TraceEntry>,
)
    decreases f, 0nat,
{
    let (scope, after) = diff_scope(f.scope, var, trace);
    (
        Function {
            name: FunctionName::Derivative(Box::new(f.name)),
            kind: f.kind,
            inputs: f.inputs,
            scope,
        },
        after,
    )
}

/// The derivative of a scope: that of its instructions.
pub open spec fn diff_scope(scope: Scope, var: Variable, trace: Seq<TraceEntry>) -> (
    Scope,
    Seq<TraceEntry>,
)
    decreases scope, 0nat,
{
    let (instruction, after) = diff_list(scope.instruction, var, trace);
    (Scope { kind: scope.kind, returned: scope.returned, instruction }, after)
}

/// The derivative of a chain of instructions, the earlier ones first. What
/// does not read or write the target stays as it is.
pub open spec fn diff_list(list: InstructionList, var: Variable, trace: Seq<TraceEntry>) -> (
    InstructionList,
    Seq<TraceEntry>,
)
    decreases list, 0nat,
{
    let (previous, t1) = match list.previous {
        None => (None, trace),
        Some(p) => if list_contains(*p, var) {
            let (d, t) = diff_list(*p, var, trace);
            (Some(Box::new(d)), t)
        } else {
            (Some(p), trace)
        },
    };
    if contains(list.this, var) {
        let (this, t2) = diff(list.this, var, t1);
        (InstructionList { this, previous }, t2)
    } else {
        (InstructionList { this: list.this, previous }, t1)
    }
}

/// The derivative of an operation with respect to `var`, and what the trace
/// holds afterwards.
pub open spec fn diff(op: Operation, var: Variable, trace: Seq<TraceEntry>) -> (
    Operation,
    Seq<TraceEntry>,
)
    decreases op, 1nat,
{
    match op {
        Operation::Literal(l) => (Operation::Literal(Literal::zero_of(l.kind)), trace),
        Operation::Get(g) => (diff_get(g, var, trace), trace),
        Operation::Index(i) => (
            Operation::Literal(
                if index_of(i.tensor, var) {
                    Literal::one_of(i.kind)
                } else {
                    Literal::zero_of(i.kind)
                },
            ),
            trace,
        ),
        Operation::Binary(_) => diff_binary(op, var, trace),
        Operation::Assign(_) => diff_assign(op, var, trace),
        Operation::Store(_) => diff_store(op, var, trace),
        Operation::IfElse(_) => diff_if(op, var, trace),
        Operation::Call(_) => diff_call(op, var, trace),
        Operation::ForEach(f) => {
            let (scope, after) = diff_scope(f.scope, var, trace);
            (
                Operation::ForEach(
                    Box::new(ForEach { variable: f.variable, iterable: f.iterable, scope }),
                ),
                after,
            )
        },
        Operation::Function(f) => {
            let (d, after) = diff_function(*f, var, trace);
            (Operation::Function(Box::new(d)), after)
        },
        Operation::Scope(s) => {
            let (d, after) = diff_scope(*s, var, trace);
            (Operation::Scope(Box::new(d)), after)
        },
        Operation::Returns(r) => {
            let (d, after) = diff(r.operation, var, trace);
            (Operation::Returns(Box::new(Returns { kind: r.kind, operation: d })), after)
        },
        Operation::Range(_) | Operation::Until(_) | Operation::Record(_) | Operation::Noop(_) => (
            op,
            trace,
        ),
    }
}

/// Builds the product of two operations.
pub fn product_exec(kind: crate::types::ValueKind, left: Operation, right: Operation) -> (r:
    Operation)
    ensures
        r == product(kind, left, right),
{
    Operation::Binary(Box::new(Binary { op: BinaryOp::Multiply, kind, left, right }))
}

/// Differentiates a variable that is read.
pub fn diff_get_exec(g: &Get, var: &Variable, trace: &Vec<TraceEntry>) -> (r: Operation)
    ensures
        r == diff_get(*g, *var, trace@),
{
    if g.getable.is(var) {
        Operation::Literal(Literal::one(g.getable.kind))
    } else if depends_exec(trace, &g.getable, var) {
        Operation::Get(Get { getable: g.getable.duplicate() })
    } else {
        Operation::Literal(Literal::zero(g.getable.kind))
    }
}

/// Differentiates an operator.
pub fn diff_binary_exec(op: &Operation, var: &Variable, trace: &mut Vec<TraceEntry>) -> (r:
    Operation)
    ensures
        (r, final(trace)@) == diff_binary(*op, *var, old(trace)@),
    decreases op, 0nat,
{
    match op {
        Operation::Binary(b) => match b.op {
            BinaryOp::Add | BinaryOp::Subtract => {
                let l = auto_diff_for(&b.left, var, trace);
                let r = auto_diff_for(&b.right, var, trace);
                Operation::Binary(Box::new(Binary { op: b.op, kind: b.kind, left: l, right: r }))
            },
            BinaryOp::Multiply => {
                let r = auto_diff_for(&b.right, var, trace);
                let l = auto_diff_for(&b.left, var, trace);
                Operation::Binary(
                    Box::new(
                        Binary {
                            op: BinaryOp::Add,
                            kind: b.kind,
                            left: product_exec(b.kind, b.left.duplicate(), r),
                            right: product_exec(b.kind, l, b.right.duplicate()),
                        },
                    ),
                )
            },
            BinaryOp::Divide => {
                let l = auto_diff_for(&b.left, var, trace);
                let r = auto_diff_for(&b.right, var, trace);
                Operation::Binary(
                    Box::new(
                        Binary {
                            op: BinaryOp::Divide,
                            kind: b.kind,
                            left: Operation::Binary(
                                Box::new(
                                    Binary {
                                        op: BinaryOp::Subtract,
                                        kind: b.kind,
                                        left: product_exec(b.kind, l, b.right.duplicate()),
                                        right: product_exec(b.kind, b.left.duplicate(), r),
                                    },
                                ),
                            ),
                            right: product_exec(
                                b.kind,
                                b.right.duplicate(),
                                b.right.duplicate(),
                            ),
                        },
                    ),
                )
            },
            _ => op.duplicate(),
        },
        _ => op.duplicate(),
    }
}

/// Differentiates a new binding.
pub fn diff_assign_exec(op: &Operation, var: &Variable, trace: &mut Vec<TraceEntry>) -> (r:
    Operation)
    ensures
        (r, final(trace)@) == diff_assign(*op, *var, old(trace)@),
    decreases op, 0nat,
{
    match op {
        Operation::Assign(a) => {
            trace.push(TraceEntry::Reset { variable: a.variable.duplicate() });
            if contains_var(&a.assign, var) {
                trace.push(
                    TraceEntry::Depends { variable: a.variable.duplicate(), on: var.duplicate() },
                );
            }
            let value = auto_diff_for(&a.assign, var, trace);
            Operation::Assign(Box::new(Assign { variable: a.variable.duplicate(), assign: value }))
        },
        _ => op.duplicate(),
    }
}

/// Differentiates a write.
pub fn diff_store_exec(op: &Operation, var: &Variable, trace: &mut Vec<TraceEntry>) -> (r:
    Operation)
    ensures
        (r, final(trace)@) == diff_store(*op, *var, old(trace)@),
    decreases op, 0nat,
{
    match op {
        Operation::Store(s) => {
            if contains_var(&s.assign, var) {
                trace.push(
                    TraceEntry::Depends {
                        variable: s.getable.get_variable().duplicate(),
                        on: var.duplicate(),
                    },
                );
            }
            let value = auto_diff_for(&s.assign, var, trace);
            Operation::Store(Box::new(Store { getable: s.getable.duplicate(), assign: value }))
        },
        _ => op.duplicate(),
    }
}

/// Differentiates a conditional.
pub fn diff_if_exec(op: &Operation, var: &Variable, trace: &mut Vec<TraceEntry>) -> (r: Operation)
    ensures
        (r, final(trace)@) == diff_if(*op, *var, old(trace)@),
    decreases op, 0nat,
{
    match op {
        Operation::IfElse(i) => {
            let t = diff_scope_exec(&i.then_branch, var, trace);
            let e = diff_scope_exec(&i.else_branch, var, trace);
            Operation::IfElse(
                Box::new(
                    IfElse {
                        kind: i.kind,
                        condition: i.condition.duplicate(),
                        then_branch: t,
                        else_branch: e,
                    },
                ),
            )
        },
        _ => op.duplicate(),
    }
}

/// Differentiates the arguments of a call one by one.
pub fn diff_inputs_exec(inputs: &Inputs, var: &Variable, trace: &mut Vec<TraceEntry>) -> (r: Inputs)
    ensures
        (r, final(trace)@) == diff_inputs(*inputs, *var, old(trace)@),
    decreases inputs, 0nat,
{
    let first = auto_diff_for(&inputs.first, var, trace);
    match &inputs.rest {
        None => Inputs { first, rest: None },
        Some(rest) => {
            let others = diff_inputs_exec(rest, var, trace);
            Inputs { first, rest: Some(Box::new(others)) }
        },
    }
}

/// Differentiates a function with respect to each of `parameters` and calls
/// each derivative with `inputs`.
pub fn diff_partials_exec(
    f: &Function,
    parameters: &Parameters,
    inputs: &Inputs,
    var: &Variable,
    trace: &mut Vec<TraceEntry>,
) -> (r: Inputs)
    ensures
        (r, final(trace)@) == diff_partials(*f, *parameters, *inputs, *var, old(trace)@),
    decreases f, parameters.count(),
{
    let target = as_target_exec(&parameters.first, var);
    let d = diff_function_exec(f, &target, trace);
    let first = Operation::Call(Box::new(Call { inputs: inputs.duplicate(), function: d }));
    match &parameters.rest {
        None => Inputs { first, rest: None },
        Some(rest) => {
            let others = diff_partials_exec(f, rest, inputs, var, trace);
            Inputs { first, rest: Some(Box::new(others)) }
        },
    }
}

/// Builds the sum of two operations.
pub fn sum_exec(kind: crate::types::ValueKind, left: Operation, right: Operation) -> (r: Operation)
    ensures
        r == sum(kind, left, right),
{
    Operation::Binary(Box::new(Binary { op: BinaryOp::Add, kind, left, right }))
}

/// Builds the sum of the products of two lists, pair by pair.
pub fn sum_of_products_exec(kind: crate::types::ValueKind, left: Inputs, right: Inputs) -> (r:
    Operation)
    ensures
        r == sum_of_products(kind, left, right),
    decreases left,
{
    let term = product_exec(kind, left.first, right.first);
    match (left.rest, right.rest) {
        (Some(l), Some(r)) => sum_exec(kind, term, sum_of_products_exec(kind, *l, *r)),
        _ => term,
    }
}

/// Differentiates a call.
pub fn diff_call_exec(op: &Operation, var: &Variable, trace: &mut Vec<TraceEntry>) -> (r:
    Operation)
    ensures
        (r, final(trace)@) == diff_call(*op, *var, old(trace)@),
    decreases op, 0nat,
{
    match op {
        Operation::Call(c) => {
            if inputs_contain_var(&c.inputs, var) {
                let partials = diff_partials_exec(&c.function, &c.function.inputs, &c.inputs, var, trace);
                let derivatives = diff_inputs_exec(&c.inputs, var, trace);
                sum_of_products_exec(c.function.kind, partials, derivatives)
            } else {
                op.duplicate()
            }
        },
        _ => op.duplicate(),
    }
}

/// Differentiates a function.
pub fn diff_function_exec(f: &Function, var: &Variable, trace: &mut Vec<TraceEntry>) -> (r:
    Function)
    ensures
        (r, final(trace)@) == diff_function(*f, *var, old(trace)@),
    decreases f, 0nat,
{
    let scope = diff_scope_exec(&f.scope, var, trace);
    Function {
        name: FunctionName::Derivative(Box::new(f.name.duplicate())),
        kind: f.kind,
        inputs: f.inputs.duplicate(),
        scope,
    }
}

/// Differentiates a scope.
pub fn diff_scope_exec(scope: &Scope, var: &Variable, trace: &mut Vec<TraceEntry>) -> (r: Scope)
    ensures
        (r, final(trace)@) == diff_scope(*scope, *var, old(trace)@),
    decreases scope, 0nat,
{
    let instruction = diff_list_exec(&scope.instruction, var, trace);
    Scope { kind: scope.kind, returned: scope.returned, instruction }
}

/// Differentiates a chain of instructions.
pub fn diff_list_exec(list: &InstructionList, var: &Variable, trace: &mut Vec<TraceEntry>) -> (r:
    InstructionList)
    ensures
        (r, final(trace)@) == diff_list(*list, *var, old(trace)@),
    decreases list, 0nat,
{
    let previous = match &list.previous {
        None => None,
        Some(p) => {
            if list_contains_var(p, var) {
                Some(Box::new(diff_list_exec(p, var, trace)))
            } else {
                Some(Box::new(p.duplicate()))
            }
        },
    };
    if contains_var(&list.this, var) {
        let this = auto_diff_for(&list.this, var, trace);
        InstructionList { this, previous }
    } else {
        InstructionList { this: list.this.duplicate(), previous }
    }
}

/// Differentiates an operation with respect to `var`. The trace says which
/// names the target flows into; it is brought up to date on the way.
pub fn auto_diff_for(op: &Operation, var: &Variable, var_trace: &mut Vec<TraceEntry>) -> (r:
    Operation)
    ensures
        (r, final(var_trace)@) == diff(*op, *var, old(var_trace)@),
    decreases op, 1nat,
{
    match op {
        Operation::Literal(l) => Operation::Literal(Literal::zero(l.kind)),
        Operation::Get(g) => diff_get_exec(g, var, var_trace),
        Operation::Index(i) => {
            if var.member.is_none() && i.tensor.reference == var.reference {
                Operation::Literal(Literal::one(i.kind))
            } else {
                Operation::Literal(Literal::zero(i.kind))
            }
        },
        Operation::Binary(_) => diff_binary_exec(op, var, var_trace),
        Operation::Assign(_) => diff_assign_exec(op, var, var_trace),
        Operation::Store(_) => diff_store_exec(op, var, var_trace),
        Operation::IfElse(_) => diff_if_exec(op, var, var_trace),
        Operation::Call(_) => diff_call_exec(op, var, var_trace),
        Operation::ForEach(f) => {
            let scope = diff_scope_exec(&f.scope, var, var_trace);
            Operation::ForEach(
                Box::new(
                    ForEach {
                        variable: f.variable.duplicate(),
                        iterable: f.iterable.duplicate(),
                        scope,
                    },
                ),
            )
        },
        Operation::Function(f) => {
            let d = diff_function_exec(f, var, var_trace);
            Operation::Function(Box::new(d))
        },
        Operation::Scope(s) => {
            let d = diff_scope_exec(s, var, var_trace);
            Operation::Scope(Box::new(d))
        },
        Operation::Returns(r) => {
            let d = auto_diff_for(&r.operation, var, var_trace);
            Operation::Returns(Box::new(Returns { kind: r.kind, operation: d }))
        },
        Operation::Range(_) | Operation::Until(_) | Operation::Record(_) | Operation::Noop(_) => {
            op.duplicate()
        },
    }
}

/// The derivative of a scope has the kind of the scope.
pub proof fn lemma_scope_keeps_kind(scope: Scope, var: Variable, trace: Seq<TraceEntry>)
    ensures
        diff_scope(scope, var, trace).0.kind == scope.kind,
{
}

/// The derivative of a function has the kind of the function.
pub proof fn lemma_function_keeps_kind(f: Function, var: Variable, trace: Seq<TraceEntry>)
    ensures
        diff_function(f, var, trace).0.kind == f.kind,
{
}

/// The derivative has the kind of what it is the derivative of.
pub proof fn law_derivative_keeps_kind(op: Operation, var: Variable, trace: Seq<TraceEntry>)
    ensures
        diff(op, var, trace).0.kind_of() == op.kind_of(),
{
    match op {
        Operation::Binary(_) => {
            assert(diff(op, var, trace) == diff_binary(op, var, trace));
        },
        Operation::Assign(_) => {
            assert(diff(op, var, trace) == diff_assign(op, var, trace));
        },
        Operation::Store(_) => {
            assert(diff(op, var, trace) == diff_store(op, var, trace));
        },
        Operation::IfElse(_) => {
            assert(diff(op, var, trace) == diff_if(op, var, trace));
        },
        Operation::Call(c) => {
            assert(diff(op, var, trace) == diff_call(op, var, trace));
        },
        Operation::Function(f) => {
            lemma_function_keeps_kind(*f, var, trace);
        },
        Operation::Scope(s) => {
            lemma_scope_keeps_kind(*s, var, trace);
        },
        _ => {},
    }
}

/// The derivative of a variable with respect to itself is one, whatever the
/// trace holds.
pub proof fn law_derivative_of_target_is_one(var: Variable, trace: Seq<TraceEntry>)
    ensures
        diff(Operation::Get(Get { getable: var }), var, trace) == (
            Operation::Literal(Literal::one_of(var.kind)),
            trace,
        ),
{
}

/// The derivative of what does not depend on the target is zero: of a
/// literal, and of a variable under another name that the target does not flow
/// into.
pub proof fn law_derivative_of_constant_is_zero(
    literal: Literal,
    other: Variable,
    var: Variable,
    trace: Seq<TraceEntry>,
)
    requires
        !other.same_name(var),
        !depends(trace, other, var),
    ensures
        diff(Operation::Literal(literal), var, trace) == (
            Operation::Literal(Literal::zero_of(literal.kind)),
            trace,
        ),
        diff(Operation::Get(Get { getable: other }), var, trace) == (
            Operation::Literal(Literal::zero_of(other.kind)),
            trace,
        ),
{
}

/// The derivative of `x * y` with respect to `x`, where `y` does not depend
/// on `x`, is `x * 0 + 1 * y`.
pub proof fn law_derivative_of_product(
    x: Variable,
    y: Variable,
    kind: crate::types::ValueKind,
    trace: Seq<TraceEntry>,
)
    requires
        !y.same_name(x),
        !depends(trace, y, x),
    ensures
        diff(
            product(kind, Operation::Get(Get { getable: x }), Operation::Get(Get { getable: y })),
            x,
            trace,
        ) == (
            Operation::Binary(
                Box::new(
                    Binary {
                        op: BinaryOp::Add,
                        kind,
                        left: product(
                            kind,
                            Operation::Get(Get { getable: x }),
                            Operation::Literal(Literal::zero_of(y.kind)),
                        ),
                        right: product(
                            kind,
                            Operation::Literal(Literal::one_of(x.kind)),
                            Operation::Get(Get { getable: y }),
                        ),
                    },
                ),
            ),
            trace,
        ),
{
    let gx = Operation::Get(Get { getable: x });
    let gy = Operation::Get(Get { getable: y });
    let op = product(kind, gx, gy);
    assert(diff(op, x, trace) == diff_binary(op, x, trace));
    assert(diff(gy, x, trace) == (Operation::Literal(Literal::zero_of(y.kind)), trace));
    assert(diff(gx, x, trace) == (Operation::Literal(Literal::one_of(x.kind)), trace));
}

/// A binding whose value reads the target carries the derivative on: after
/// `let y = value`, the trace says that the target flows into `y`, and the
/// derivative of `y` is `y` itself, not zero.
pub proof fn law_binding_carries_derivative(
    y: Variable,
    value: Operation,
    x: Variable,
    trace: Seq<TraceEntry>,
)
    requires
        contains(value, x),
        !y.same_name(x),
    ensures
        ({
            let noted = trace.push(TraceEntry::Reset { variable: y }).push(
                TraceEntry::Depends { variable: y, on: x },
            );
            &&& depends(noted, y, x)
            &&& diff(Operation::Get(Get { getable: y }), x, noted).0 == Operation::Get(
                Get { getable: y },
            )
            &&& diff(
                Operation::Assign(Box::new(Assign { variable: y, assign: value })),
                x,
                trace,
            ) == (
                Operation::Assign(
                    Box::new(Assign { variable: y, assign: diff(value, x, noted).0 }),
                ),
                diff(value, x, noted).1,
            )
        }),
{
    let noted = trace.push(TraceEntry::Reset { variable: y }).push(
        TraceEntry::Depends { variable: y, on: x },
    );
    assert(noted.last() == (TraceEntry::Depends { variable: y, on: x }));
    assert(noted == bind(trace, y, value, x));
    let op = Operation::Assign(Box::new(Assign { variable: y, assign: value }));
    assert(diff(op, x, trace) == diff_assign(op, x, trace));
}

/// A binding replaces what the trace said of its name: afterwards a target
/// flows into the name exactly where the value reads `var` and the target is
/// `var`.
pub proof fn law_binding_replaces_flow(
    trace: Seq<TraceEntry>,
    y: Variable,
    value: Operation,
    var: Variable,
    other: Variable,
)
    ensures
        depends(bind(trace, y, value, var), y, other) == (contains(value, var) && var.same_name(
            other,
        )),
{
    let anew = trace.push(TraceEntry::Reset { variable: y });
    assert(anew.last() == (TraceEntry::Reset { variable: y }));
    assert(y.same_name(y));
    assert(!depends(anew, y, other));
    if contains(value, var) {
        let noted = anew.push(TraceEntry::Depends { variable: y, on: var });
        assert(noted.last() == (TraceEntry::Depends { variable: y, on: var }));
        assert(noted.drop_last() =~= anew);
        assert(depends(noted, y, other) == var.same_name(other));
    }
}

/// The derivative of a call of one argument that reads the target is the
/// derivative of the function with respect to its parameter, called with the
/// argument, times the derivative of the argument.
pub proof fn law_chain_rule_of_one_argument(
    f: Function,
    argument: Operation,
    var: Variable,
    trace: Seq<TraceEntry>,
)
    requires
        contains(argument, var),
        f.inputs.rest is None,
    ensures
        ({
            let inputs = Inputs { first: argument, rest: None };
            let (d, t1) = diff_function(f, as_target(f.inputs.first, var), trace);
            diff(Operation::Call(Box::new(Call { inputs, function: f })), var, trace) == (
                product(
                    f.kind,
                    Operation::Call(Box::new(Call { inputs, function: d })),
                    diff(argument, var, t1).0,
                ),
                diff(argument, var, t1).1,
            )
        }),
{
    let inputs = Inputs { first: argument, rest: None };
    let op = Operation::Call(Box::new(Call { inputs, function: f }));
    assert(diff(op, var, trace) == diff_call(op, var, trace));
    assert(inputs_contain(inputs, var));
}

/// The derivative of a call of two arguments of which one or both read the
/// target is a sum of two terms: for each argument, the derivative of the
/// function with respect to the parameter of that argument, called with both
/// arguments, times the derivative of the argument.
pub proof fn law_chain_rule_sums_over_arguments(
    f: Function,
    first: Operation,
    second: Operation,
    var: Variable,
    trace: Seq<TraceEntry>,
)
    requires
        contains(first, var) || contains(second, var),
        f.inputs.rest matches Some(rest) && rest.rest is None,
    ensures
        ({
            let inputs = Inputs {
                first,
                rest: Some(Box::new(Inputs { first: second, rest: None })),
            };
            let (d1, t1) = diff_function(f, as_target(f.inputs.first, var), trace);
            let (d2, t2) = diff_function(f, as_target(f.inputs.rest->0.first, var), t1);
            let (a1, t3) = diff(first, var, t2);
            let (a2, t4) = diff(second, var, t3);
            diff(Operation::Call(Box::new(Call { inputs, function: f })), var, trace) == (
                sum(
                    f.kind,
                    product(f.kind, Operation::Call(Box::new(Call { inputs, function: d1 })), a1),
                    product(f.kind, Operation::Call(Box::new(Call { inputs, function: d2 })), a2),
                ),
                t4,
            )
        }),
{
    let last = Inputs { first: second, rest: None };
    let inputs = Inputs { first, rest: Some(Box::new(last)) };
    let op = Operation::Call(Box::new(Call { inputs, function: f }));
    assert(diff(op, var, trace) == diff_call(op, var, trace));
    assert(inputs_contain(last, var) == contains(second, var));
    assert(inputs_contain(inputs, var));
    let (d1, t1) = diff_function(f, as_target(f.inputs.first, var), trace);
    let others = *f.inputs.rest->0;
    let (d2, t2) = diff_function(f, as_target(others.first, var), t1);
    let c1 = Operation::Call(Box::new(Call { inputs, function: d1 }));
    let c2 = Operation::Call(Box::new(Call { inputs, function: d2 }));
    assert(diff_partials(f, others, inputs, var, t1) == (Inputs { first: c2, rest: None }, t2));
    assert(diff_partials(f, f.inputs, inputs, var, trace) == (
        Inputs { first: c1, rest: Some(Box::new(Inputs { first: c2, rest: None })) },
        t2,
    ));
    let (a1, t3) = diff(first, var, t2);
    let (a2, t4) = diff(second, var, t3);
    assert(diff_inputs(last, var, t3) == (Inputs { first: a2, rest: None }, t4));
    assert(diff_inputs(inputs, var, t2) == (
        Inputs { first: a1, rest: Some(Box::new(Inputs { first: a2, rest: None })) },
        t4,
    ));
    assert(sum_of_products(
        f.kind,
        Inputs { first: c2, rest: None },
        Inputs { first: a2, rest: None },
    ) == product(f.kind, c2, a2));
}

/// A part of an operation tree that can be differentiated.
pub trait Differentiable: Sized {
    /// The derivative with respect to `var`, and what the trace holds
    /// afterwards.
    spec fn derivative(self, var: Variable, trace: Seq<TraceEntry>) -> (Self, Seq<TraceEntry>);

    /// Whether the part reads or writes `var`.
    spec fn reads(self, var: Variable) -> bool;

    fn auto_diff_for(&self, var: &Variable, var_trace: &mut Vec<TraceEntry>) -> (r: Self)
        ensures
            (r, final(var_trace)@) == self.derivative(*var, old(var_trace)@),
    ;

    fn contains_var(&self, var: &Variable) -> (r: bool)
        ensures
            r == self.reads(*var),
    ;
}

impl Differentiable for Operation {
    open spec fn derivative(self, var: Variable, trace: Seq<TraceEntry>) -> (
        Operation,
        Seq<TraceEntry>,
    ) {
        diff(self, var, trace)
    }

    open spec fn reads(self, var: Variable) -> bool {
        contains(self, var)
    }

    fn auto_diff_for(&self, var: &Variable, var_trace: &mut Vec<TraceEntry>) -> (r: Operation) {
        auto_diff_for(self, var, var_trace)
    }

    fn contains_var(&self, var: &Variable) -> (r: bool) {
        contains_var(self, var)
    }
}

impl Differentiable for Scope {
    open spec fn derivative(self, var: Variable, trace: Seq<TraceEntry>) -> (
        Scope,
        Seq<TraceEntry>,
    ) {
        diff_scope(self, var, trace)
    }

    open spec fn reads(self, var: Variable) -> bool {
        scope_contains(self, var)
    }

    fn auto_diff_for(&self, var: &Variable, var_trace: &mut Vec<TraceEntry>) -> (r: Scope) {
        diff_scope_exec(self, var, var_trace)
    }

    fn contains_var(&self, var: &Variable) -> (r: bool) {
        scope_contains_var(self, var)
    }
}

impl Differentiable for Function {
    open spec fn derivative(self, var: Variable, trace: Seq<TraceEntry>) -> (
        Function,
        Seq<TraceEntry>,
    ) {
        diff_function(self, var, trace)
    }

    open spec fn reads(self, var: Variable) -> bool {
        scope_contains(self.scope, var)
    }

    fn auto_diff_for(&self, var: &Variable, var_trace: &mut Vec<TraceEntry>) -> (r: Function) {
        diff_function_exec(self, var, var_trace)
    }

    fn contains_var(&self, var: &Variable) -> (r: bool) {
        scope_contains_var(&self.scope, var)
    }
}

} // verus!
