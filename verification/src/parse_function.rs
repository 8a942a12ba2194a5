//! Lowering of a function body: statements and expressions become a scope of
//! operations. Names are resolved against the bindings in scope, literals take
//! their kind from what they are combined with, and calls are resolved against
//! the imports.

use vstd::prelude::*;
use crate::lowering::{
    combine_binary, combine_binary_exec, index_target, index_target_exec, lower_conversion,
    lower_conversion_exec, lower_field, lower_field_exec, lower_lit, lower_lit_exec, lower_path,
    lower_path_exec, resolve_call, resolve_kind, resolve_kind_exec, resolve_method, settle,
    settle_exec, Callee, DataType, Env, LowerError, Lowered, State, Structure,
};
use crate::operation::{
    Assign, Call, Fields, ForEach, Function, IfElse, Index, Inputs, InstructionList, Location,
    Noop, Operation, Parameters, Range, Record, Returns, Scope, Store,
};
use crate::syntax::{Block, Expr, FieldValue, Member, Pat, Path, Stmt};
use crate::tables::{find_keyed, position_keyed, position_name, Keyed, Named};
use crate::types::ValueKind;
use crate::var::Variable;

verus! {

/// The walk over a function body. The tables are set up once; `expr_type`,
/// `vars` and `returns_struct` change as the walk goes on.
pub struct Parsefn {
    /// The kind of the expression lowered last, if it has one.
    pub expr_type: Option<ValueKind>,
    /// The bindings in scope, the innermost last.
    pub vars: Vec<Named<DataType>>,
    /// The known record types, by the name of the type.
    pub known_structures: Vec<Named<Structure>>,
    /// The record-shaped inputs: the name of the type of each.
    pub known_records: Vec<Named<String>>,
    /// The type parameters of the function.
    pub known_generics: Vec<String>,
    /// Whether a record literal was lowered.
    pub returns_struct: bool,
    /// Functions that `use path;` names, by that path.
    pub known_functions: Vec<Keyed<Path>>,
    /// Extensions that `use path as alias;` names, by the alias.
    pub known_extensions: Vec<Keyed<Path>>,
    /// The functions that calls can resolve to, by their path.
    pub definitions: Vec<Keyed<Function>>,
}

/// The rest of a parameter list.
pub open spec fn rest_of(params: Parameters) -> Option<Parameters> {
    match params.rest {
        Some(rest) => Some(*rest),
        None => None,
    }
}

/// The scope with one more instruction: a statement where a semicolon
/// follows, the result of the scope where none does.
pub open spec fn attach(scope: Scope, op: Operation, semi: bool) -> Scope {
    Scope {
        kind: scope.kind,
        returned: !semi,
        instruction: InstructionList { this: op, previous: Some(Box::new(scope.instruction)) },
    }
}

/// The scope that a missing `else` stands for.
pub open spec fn empty_scope(kind: ValueKind) -> Scope {
    Scope {
        kind,
        returned: false,
        instruction: InstructionList { this: Operation::Noop(Noop), previous: None },
    }
}

/// An operator between two operands.
pub open spec fn lower_binary(env: Env, e: Expr, st: State) -> Result<(Lowered, State), LowerError>
    decreases e, 0nat,
{
    match e {
        Expr::Binary { op, left, right } => match lower_expr(env, *left, st) {
            Err(x) => Err(x),
            Ok((l, s1)) => match lower_expr(env, *right, s1) {
                Err(x) => Err(x),
                Ok((r, s2)) => match combine_binary(op, l, s1.expr_type, r, s2.expr_type) {
                    Err(x) => Err(x),
                    Ok((node, kind)) => Ok(
                        (
                            Lowered { op: node, typed: true },
                            State { expr_type: Some(kind), ..s2 },
                        ),
                    ),
                },
            },
        },
        _ => Err(LowerError::UnsupportedExpression),
    }
}

/// A cast gives its operand the kind it names.
pub open spec fn lower_cast(env: Env, e: Expr, st: State) -> Result<(Lowered, State), LowerError>
    decreases e, 0nat,
{
    match e {
        Expr::Cast { expr, ty } => match resolve_kind(env.generics, ty) {
            None => Err(LowerError::UnknownType),
            Some(kind) => match lower_expr(env, *expr, st) {
                Err(x) => Err(x),
                Ok((l, s1)) => Ok(
                    (
                        Lowered { op: settle(l, kind), typed: true },
                        State { expr_type: Some(kind), ..s1 },
                    ),
                ),
            },
        },
        _ => Err(LowerError::UnsupportedExpression),
    }
}

/// An element of an indexable input.
pub open spec fn lower_index(env: Env, e: Expr, st: State) -> Result<(Lowered, State), LowerError>
    decreases e, 0nat,
{
    match e {
        Expr::Index { expr, index } => match index_target(*expr, st.vars) {
            Err(x) => Err(x),
            Ok((tensor, container)) => match lower_expr(env, *index, st) {
                Err(x) => Err(x),
                Ok((i, s1)) => Ok(
                    (
                        Lowered {
                            op: Operation::Index(
                                Box::new(
                                    Index {
                                        tensor,
                                        container,
                                        index: settle(i, ValueKind::U32),
                                        kind: tensor.kind,
                                    },
                                ),
                            ),
                            typed: true,
                        },
                        State { expr_type: Some(tensor.kind), ..s1 },
                    ),
                ),
            },
        },
        _ => Err(LowerError::UnsupportedExpression),
    }
}

/// A range needs both of its limits.
pub open spec fn lower_range(env: Env, e: Expr, st: State) -> Result<(Lowered, State), LowerError>
    decreases e, 0nat,
{
    match e {
        Expr::Range { start, end } => match (start, end) {
            (Some(a), Some(b)) => match lower_expr(env, *a, st) {
                Err(x) => Err(x),
                Ok((l, s1)) => match lower_expr(env, *b, s1) {
                    Err(x) => Err(x),
                    Ok((r, s2)) => Ok(
                        (
                            Lowered {
                                op: Operation::Range(
                                    Box::new(
                                        Range {
                                            left: settle(l, ValueKind::U32),
                                            right: settle(r, ValueKind::U32),
                                        },
                                    ),
                                ),
                                typed: true,
                            },
                            State { expr_type: Some(ValueKind::U32), ..s2 },
                        ),
                    ),
                },
            },
            _ => Err(LowerError::OpenRange),
        },
        _ => Err(LowerError::UnsupportedExpression),
    }
}

/// A call in call syntax.
pub open spec fn lower_call(env: Env, e: Expr, st: State) -> Result<(Lowered, State), LowerError>
    decreases e, 0nat,
{
    match e {
        Expr::Call { func, args, .. } => match resolve_call(env, *func) {
            Err(x) => Err(x),
            Ok(Callee::Conversion(kind, function)) => match lower_conversion(
                kind,
                function,
                args@,
            ) {
                Err(x) => Err(x),
                Ok(op) => Ok((Lowered { op, typed: true }, State { expr_type: Some(kind), ..st })),
            },
            Ok(Callee::Function(f)) => match lower_args(env, args, 0, Some(f.inputs), st) {
                Err(x) => Err(x),
                Ok((None, _)) => Err(LowerError::BadCallArity),
                Ok((Some(inputs), s1)) => Ok(
                    (
                        Lowered {
                            op: Operation::Call(Box::new(Call { inputs: *inputs, function: f })),
                            typed: true,
                        },
                        State { expr_type: Some(f.kind), ..s1 },
                    ),
                ),
            },
        },
        _ => Err(LowerError::UnsupportedExpression),
    }
}

/// A call in method syntax: the receiver is the first argument.
pub open spec fn lower_method_call(env: Env, e: Expr, st: State) -> Result<(Lowered, State), LowerError>
    decreases e, 0nat,
{
    match e {
        Expr::MethodCall { receiver, method, args } => match resolve_method(env, method) {
            Err(x) => Err(x),
            Ok(f) => match lower_expr(env, *receiver, st) {
                Err(x) => Err(x),
                Ok((first, s1)) => match lower_args(env, args, 0, rest_of(f.inputs), s1) {
                    Err(x) => Err(x),
                    Ok((rest, s2)) => Ok(
                        (
                            Lowered {
                                op: Operation::Call(
                                    Box::new(
                                        Call {
                                            inputs: Inputs {
                                                first: settle(first, f.inputs.first.kind),
                                                rest,
                                            },
                                            function: f,
                                        },
                                    ),
                                ),
                                typed: true,
                            },
                            State { expr_type: Some(f.kind), ..s2 },
                        ),
                    ),
                },
            },
        },
        _ => Err(LowerError::UnsupportedExpression),
    }
}

/// A conditional: both branches are scopes of their own.
pub open spec fn lower_if(env: Env, e: Expr, st: State) -> Result<(Lowered, State), LowerError>
    decreases e, 0nat,
{
    match e {
        Expr::If { cond, then_branch, else_branch } => match lower_expr(env, *cond, st) {
            Err(x) => Err(x),
            Ok((c, s1)) => if !c.typed {
                Err(LowerError::AmbiguousLiteral)
            } else {
                match lower_block(env, then_branch, s1) {
                    Err(x) => Err(x),
                    Ok((t, s2)) => match else_branch {
                        None => Ok(
                            (
                                Lowered {
                                    op: Operation::IfElse(
                                        Box::new(
                                            IfElse {
                                                kind: t.kind,
                                                condition: c.op,
                                                then_branch: t,
                                                else_branch: empty_scope(t.kind),
                                            },
                                        ),
                                    ),
                                    typed: true,
                                },
                                State { expr_type: Some(t.kind), ..s2 },
                            ),
                        ),
                        Some(other) => match *other {
                            Expr::Block(b) => match lower_block(env, b, s2) {
                                Err(x) => Err(x),
                                Ok((f, s3)) => Ok(
                                    (
                                        Lowered {
                                            op: Operation::IfElse(
                                                Box::new(
                                                    IfElse {
                                                        kind: t.kind,
                                                        condition: c.op,
                                                        then_branch: t,
                                                        else_branch: f,
                                                    },
                                                ),
                                            ),
                                            typed: true,
                                        },
                                        State { expr_type: Some(t.kind), ..s3 },
                                    ),
                                ),
                            },
                            _ => Err(LowerError::UnsupportedElse),
                        },
                    },
                }
            },
        },
        _ => Err(LowerError::UnsupportedExpression),
    }
}

/// An assignment writes to a scalar in scope or to an element of an
/// indexable input.
pub open spec fn lower_assign(env: Env, e: Expr, st: State) -> Result<(Lowered, State), LowerError>
    decreases e, 0nat,
{
    match e {
        Expr::Assign { left, right } => match lower_expr(env, *right, st) {
            Err(x) => Err(x),
            Ok((value, s1)) => match *left {
                Expr::Path(path) => match lower_path(path, s1.vars) {
                    Err(x) => Err(x),
                    Ok((_, kind)) => Ok(
                        (
                            Lowered {
                                op: Operation::Store(
                                    Box::new(
                                        Store {
                                            getable: Location::Variable(
                                                Variable {
                                                    reference: path.segments@[0],
                                                    member: None,
                                                    kind,
                                                },
                                            ),
                                            assign: settle(value, kind),
                                        },
                                    ),
                                ),
                                typed: true,
                            },
                            State { expr_type: Some(ValueKind::Void), ..s1 },
                        ),
                    ),
                },
                Expr::Index { expr, index } => match index_target(*expr, s1.vars) {
                    Err(x) => Err(x),
                    Ok((tensor, container)) => match lower_expr(env, *index, s1) {
                        Err(x) => Err(x),
                        Ok((i, s2)) => Ok(
                            (
                                Lowered {
                                    op: Operation::Store(
                                        Box::new(
                                            Store {
                                                getable: Location::Index(
                                                    Index {
                                                        tensor,
                                                        container,
                                                        index: settle(i, ValueKind::U32),
                                                        kind: tensor.kind,
                                                    },
                                                ),
                                                assign: settle(value, tensor.kind),
                                            },
                                        ),
                                    ),
                                    typed: true,
                                },
                                State { expr_type: Some(ValueKind::Void), ..s2 },
                            ),
                        ),
                    },
                },
                _ => Err(LowerError::UnsupportedTarget),
            },
        },
        _ => Err(LowerError::UnsupportedExpression),
    }
}

/// What an expression lowers to, and the state it leaves behind.
pub open spec fn lower_expr(env: Env, e: Expr, st: State) -> Result<(Lowered, State), LowerError>
    decreases e, 1nat,
{
    match e {
        Expr::Lit(lit) => Ok(
            (lower_lit(lit).0, State { expr_type: lower_lit(lit).1, ..st }),
        ),
        Expr::Path(path) => match lower_path(path, st.vars) {
            Err(x) => Err(x),
            Ok((op, kind)) => Ok(
                (Lowered { op, typed: true }, State { expr_type: Some(kind), ..st }),
            ),
        },
        Expr::Field { base, member } => match lower_field(env.structures, env.records, *base, member) {
            Err(x) => Err(x),
            Ok((op, kind)) => Ok(
                (Lowered { op, typed: true }, State { expr_type: Some(kind), ..st }),
            ),
        },
        Expr::Paren(inner) => lower_expr(env, *inner, st),
        Expr::Reference(inner) => lower_expr(env, *inner, st),
        Expr::Binary { .. } => lower_binary(env, e, st),
        Expr::Cast { .. } => lower_cast(env, e, st),
        Expr::Index { .. } => lower_index(env, e, st),
        Expr::Range { .. } => lower_range(env, e, st),
        Expr::Call { .. } => lower_call(env, e, st),
        Expr::MethodCall { .. } => lower_method_call(env, e, st),
        Expr::If { .. } => lower_if(env, e, st),
        Expr::Block(b) => match lower_block(env, b, st) {
            Err(x) => Err(x),
            Ok((scope, s1)) => Ok(
                (Lowered { op: Operation::Scope(Box::new(scope)), typed: true }, s1),
            ),
        },
        Expr::Assign { .. } => lower_assign(env, e, st),
        Expr::Struct { .. } => Err(LowerError::MisplacedRecord),
        Expr::ForLoop { .. } => Err(LowerError::UnsupportedExpression),
        Expr::Return(_) => Err(LowerError::UnsupportedExpression),
        Expr::Other => Err(LowerError::UnsupportedExpression),
    }
}

/// The arguments from `from` on, each matched with a parameter. A literal
/// without a kind takes the kind of its parameter. Too few or too many
/// arguments are an error.
pub open spec fn lower_args(
    env: Env,
    args: Vec<Expr>,
    from: nat,
    params: Option<Parameters>,
    st: State,
) -> Result<(Option<Box<Inputs>>, State), LowerError>
    decreases args, args.len() - from,
{
    if from >= args.len() {
        match params {
            None => Ok((None, st)),
            Some(_) => Err(LowerError::BadCallArity),
        }
    } else {
        match params {
            None => Err(LowerError::BadCallArity),
            Some(p) => match lower_expr(env, args[from as int], st) {
                Err(x) => Err(x),
                Ok((l, s1)) => match lower_args(env, args, from + 1, rest_of(p), s1) {
                    Err(x) => Err(x),
                    Ok((rest, s2)) => Ok(
                        (Some(Box::new(Inputs { first: settle(l, p.first.kind), rest })), s2),
                    ),
                },
            },
        }
    }
}

/// The fields of a record literal from `from` on.
pub open spec fn lower_fields(env: Env, fields: Vec<FieldValue>, from: nat, st: State) -> Result<
    (Option<Box<Fields>>, State),
    LowerError,
>
    decreases fields, fields.len() - from,
{
    if from >= fields.len() {
        Ok((None, st))
    } else {
        match fields[from as int].member {
            Member::Unnamed => Err(LowerError::UnsupportedMember),
            Member::Named(name) => match lower_expr(env, fields[from as int].expr, st) {
                Err(x) => Err(x),
                Ok((l, s1)) => if !l.typed {
                    Err(LowerError::AmbiguousLiteral)
                } else {
                    match lower_fields(env, fields, from + 1, s1) {
                        Err(x) => Err(x),
                        Ok((rest, s2)) => Ok(
                            (Some(Box::new(Fields { name, value: l.op, rest })), s2),
                        ),
                    }
                },
            },
        }
    }
}

/// A `let` with an initializer binds a new name to what the initializer
/// yields.
pub open spec fn lower_local(env: Env, s: Stmt, scope: Scope, st: State) -> Result<
    (Scope, State),
    LowerError,
>
    decreases s, 0nat,
{
    match s {
        Stmt::Local { pat: Pat::Other, .. } => Err(LowerError::UnsupportedPattern),
        Stmt::Local { pat: Pat::Ident(_), init: None } => Err(LowerError::MissingInitializer),
        Stmt::Local { pat: Pat::Ident(name), init: Some(e) } => match lower_expr(env, e, st) {
            Err(x) => Err(x),
            Ok((l, s1)) => match s1.expr_type {
                Some(kind) if l.typed => Ok(
                    (
                        attach(
                            scope,
                            Operation::Assign(
                                Box::new(
                                    Assign {
                                        variable: Variable { reference: name, member: None, kind },
                                        assign: l.op,
                                    },
                                ),
                            ),
                            true,
                        ),
                        State {
                            expr_type: Some(ValueKind::Void),
                            vars: s1.vars.push(Named { name, value: DataType::Scalar(kind) }),
                            ..s1
                        },
                    ),
                ),
                _ => Err(LowerError::AmbiguousLiteral),
            },
        },
        _ => Err(LowerError::UnsupportedStatement),
    }
}

/// `return` ends the scope with what it yields, or with nothing.
pub open spec fn lower_return(env: Env, s: Stmt, scope: Scope, st: State) -> Result<
    (Scope, State),
    LowerError,
>
    decreases s, 0nat,
{
    match s {
        Stmt::Expr(Expr::Return(None), _) => Ok(
            (
                attach(
                    scope,
                    Operation::Returns(
                        Box::new(
                            Returns { kind: ValueKind::Void, operation: Operation::Noop(Noop) },
                        ),
                    ),
                    false,
                ),
                State { expr_type: Some(ValueKind::Void), ..st },
            ),
        ),
        Stmt::Expr(Expr::Return(Some(v)), _) => match lower_expr(env, *v, st) {
            Err(x) => Err(x),
            Ok((l, s1)) => match s1.expr_type {
                Some(kind) if l.typed => Ok(
                    (
                        attach(
                            scope,
                            Operation::Returns(Box::new(Returns { kind, operation: l.op })),
                            false,
                        ),
                        s1,
                    ),
                ),
                _ => Err(LowerError::AmbiguousLiteral),
            },
        },
        _ => Err(LowerError::UnsupportedStatement),
    }
}

/// `for name in a..b { .. }` runs its body once for each integer of the
/// range. The loop variable is bound in the body only.
pub open spec fn lower_for(env: Env, s: Stmt, scope: Scope, st: State) -> Result<
    (Scope, State),
    LowerError,
>
    decreases s, 0nat,
{
    match s {
        Stmt::Expr(Expr::ForLoop { pat: Pat::Other, .. }, _) => Err(
            LowerError::UnsupportedPattern,
        ),
        Stmt::Expr(Expr::ForLoop { pat: Pat::Ident(name), expr, body }, semi) => match lower_expr(
            env,
            *expr,
            st,
        ) {
            Err(x) => Err(x),
            Ok((iterable, s1)) => match iterable.op {
                Operation::Range(range) => match lower_block(
                    env,
                    body,
                    State {
                        vars: s1.vars.push(
                            Named { name, value: DataType::Scalar(ValueKind::U32) },
                        ),
                        ..s1
                    },
                ) {
                    Err(x) => Err(x),
                    Ok((b, s2)) => Ok(
                        (
                            attach(
                                scope,
                                Operation::ForEach(
                                    Box::new(
                                        ForEach {
                                            variable: Variable {
                                                reference: name,
                                                member: None,
                                                kind: ValueKind::U32,
                                            },
                                            iterable: *range,
                                            scope: b,
                                        },
                                    ),
                                ),
                                semi,
                            ),
                            State { expr_type: Some(ValueKind::Void), vars: s1.vars, ..s2 },
                        ),
                    ),
                },
                _ => Err(LowerError::UnsupportedIterable),
            },
        },
        _ => Err(LowerError::UnsupportedStatement),
    }
}

/// A record literal may only stand at the end of a block, as its result.
pub open spec fn lower_record(env: Env, s: Stmt, scope: Scope, st: State) -> Result<
    (Scope, State),
    LowerError,
>
    decreases s, 0nat,
{
    match s {
        Stmt::Expr(Expr::Struct { path, fields }, semi) => if semi {
            Err(LowerError::MisplacedRecord)
        } else if path.segments@.len() == 0 {
            Err(LowerError::UnsupportedPath)
        } else {
            match lower_fields(env, fields, 0, st) {
                Err(x) => Err(x),
                Ok((lowered, s1)) => Ok(
                    (
                        attach(
                            scope,
                            Operation::Record(
                                Box::new(Record { name: path.segments@.last(), fields: lowered }),
                            ),
                            false,
                        ),
                        State { returns_struct: true, ..s1 },
                    ),
                ),
            }
        },
        _ => Err(LowerError::UnsupportedStatement),
    }
}

/// Any other expression is a statement where a semicolon follows it, and the
/// result of the scope where none does. A cast may only be the result.
pub open spec fn lower_plain(env: Env, s: Stmt, scope: Scope, st: State) -> Result<
    (Scope, State),
    LowerError,
>
    decreases s, 0nat,
{
    match s {
        Stmt::Expr(e, semi) => if e is Cast && semi {
            Err(LowerError::MisplacedCast)
        } else {
            match lower_expr(env, e, st) {
                Err(x) => Err(x),
                Ok((l, s1)) => if !l.typed {
                    Err(LowerError::AmbiguousLiteral)
                } else {
                    Ok((attach(scope, l.op, semi), s1))
                },
            }
        },
        _ => Err(LowerError::UnsupportedStatement),
    }
}

/// What one statement adds to the scope it stands in.
pub open spec fn lower_stmt(env: Env, s: Stmt, scope: Scope, st: State) -> Result<
    (Scope, State),
    LowerError,
>
    decreases s, 1nat,
{
    match s {
        Stmt::Local { .. } => lower_local(env, s, scope, st),
        Stmt::Expr(Expr::Return(_), _) => lower_return(env, s, scope, st),
        Stmt::Expr(Expr::ForLoop { .. }, _) => lower_for(env, s, scope, st),
        Stmt::Expr(Expr::Struct { .. }, _) => lower_record(env, s, scope, st),
        Stmt::Expr(_, _) => lower_plain(env, s, scope, st),
        Stmt::Other => Err(LowerError::UnsupportedStatement),
    }
}

/// The statements from `from` on, added to `scope` one after the other.
pub open spec fn lower_stmts(env: Env, stmts: Vec<Stmt>, from: nat, scope: Scope, st: State) -> Result<
    (Scope, State),
    LowerError,
>
    decreases stmts, stmts.len() - from,
{
    if from >= stmts.len() {
        Ok((scope, st))
    } else {
        match lower_stmt(env, stmts[from as int], scope, st) {
            Err(x) => Err(x),
            Ok((next, s1)) => lower_stmts(env, stmts, from + 1, next, s1),
        }
    }
}

/// A block becomes a scope of the kind that its last statement leaves
/// behind. The bindings made in the block end with it.
pub open spec fn lower_block(env: Env, b: Block, st: State) -> Result<(Scope, State), LowerError>
    decreases b, 0nat,
{
    match lower_stmts(
        env,
        b.stmts,
        0,
        empty_scope(ValueKind::Void),
        State { expr_type: Some(ValueKind::Void), ..st },
    ) {
        Err(x) => Err(x),
        Ok((scope, s1)) => match s1.expr_type {
            None => Err(LowerError::AmbiguousLiteral),
            Some(kind) => Ok(
                (
                    Scope { kind, returned: scope.returned, instruction: scope.instruction },
                    State { vars: st.vars, ..s1 },
                ),
            ),
        },
    }
}

/// A copy of the bindings in scope.
pub fn copy_bindings(vars: &Vec<Named<DataType>>) -> (r: Vec<Named<DataType>>)
    ensures
        r@ == vars@,
{
    let mut copy: Vec<Named<DataType>> = Vec::new();
    let mut i: usize = 0;
    while i < vars.len()
        invariant
            i <= vars.len(),
            copy@ == vars@.take(i as int),
        decreases vars.len() - i,
    {
        copy.push(Named { name: vars[i].name.clone(), value: vars[i].value });
        assert(copy@ =~= vars@.take(i + 1));
        i += 1;
    }
    assert(vars@.take(i as int) =~= vars@);
    copy
}

impl Parsefn {
    /// The tables of the walk: the part of it that lowering reads and never
    /// changes. With [`Parsefn::state`] it is all that the walk holds.
    pub open spec fn env(self) -> Env {
        Env {
            structures: self.known_structures@,
            records: self.known_records@,
            generics: self.known_generics@,
            functions: self.known_functions@,
            extensions: self.known_extensions@,
            definitions: self.definitions@,
        }
    }

    /// What the walk has gathered so far: the part of it that lowering
    /// changes. With [`Parsefn::env`] it is all that the walk holds.
    pub open spec fn state(self) -> State {
        State { expr_type: self.expr_type, vars: self.vars@, returns_struct: self.returns_struct }
    }

    /// Resolves the callee of a call expression.
    pub fn resolve_call(&self, func: &Expr) -> (r: Result<Callee, LowerError>)
        ensures
            r == resolve_call(self.env(), *func),
    {
        match func {
            Expr::Path(path) => {
                let target = match position_keyed(&self.known_extensions, path) {
                    Some(i) => Some(&self.known_extensions[i].value),
                    None => match position_keyed(&self.known_functions, path) {
                        Some(i) => Some(&self.known_functions[i].value),
                        None => None,
                    },
                };
                match target {
                    Some(t) => match position_keyed(&self.definitions, t) {
                        Some(d) => Ok(Callee::Function(self.definitions[d].value.duplicate())),
                        None => Err(LowerError::UnknownFunction),
                    },
                    None => {
                        if path.segments.len() == 2 {
                            match position_name(&self.known_generics, &path.segments[0]) {
                                Some(i) => if i <= 255 {
                                    Ok(
                                        Callee::Conversion(
                                            ValueKind::Generic(i as u8),
                                            path.segments[1].clone(),
                                        ),
                                    )
                                } else {
                                    Err(LowerError::UnknownFunction)
                                },
                                None => Err(LowerError::UnknownFunction),
                            }
                        } else {
                            Err(LowerError::UnknownFunction)
                        }
                    },
                }
            },
            _ => Err(LowerError::NotAPath),
        }
    }

    /// Resolves the extension that a method call names.
    pub fn resolve_method(&self, method: &String) -> (r: Result<Function, LowerError>)
        ensures
            r == resolve_method(self.env(), *method),
    {
        let path = Path::from_ident(method.as_str());
        match position_keyed(&self.known_extensions, &path) {
            Some(i) => match position_keyed(&self.definitions, &self.known_extensions[i].value) {
                Some(d) => Ok(self.definitions[d].value.duplicate()),
                None => Err(LowerError::UnknownFunction),
            },
            None => Err(LowerError::UnknownMethod),
        }
    }

    /// Lowers an operator between two operands.
    pub fn fold_binary(&mut self, e: &Expr) -> (r: Result<Lowered, LowerError>)
        ensures
            final(self).env() == old(self).env(),
            match lower_binary(old(self).env(), *e, old(self).state()) {
                Ok((l, st)) => r == Ok::<Lowered, LowerError>(l) && final(self).state() == st,
                Err(x) => r == Err::<Lowered, LowerError>(x),
            },
        decreases e, 0nat,
    {
        match e {
            Expr::Binary { op, left, right } => {
                let l = self.fold_expr(left)?;
                let left_type = self.expr_type;
                let r = self.fold_expr(right)?;
                let right_type = self.expr_type;
                let (node, kind) = combine_binary_exec(*op, l, left_type, r, right_type)?;
                self.expr_type = Some(kind);
                Ok(Lowered { op: node, typed: true })
            },
            _ => Err(LowerError::UnsupportedExpression),
        }
    }

    /// Lowers a cast.
    pub fn fold_cast(&mut self, e: &Expr) -> (r: Result<Lowered, LowerError>)
        ensures
            final(self).env() == old(self).env(),
            match lower_cast(old(self).env(), *e, old(self).state()) {
                Ok((l, st)) => r == Ok::<Lowered, LowerError>(l) && final(self).state() == st,
                Err(x) => r == Err::<Lowered, LowerError>(x),
            },
        decreases e, 0nat,
    {
        match e {
            Expr::Cast { expr, ty } => {
                match resolve_kind_exec(&self.known_generics, ty) {
                    None => Err(LowerError::UnknownType),
                    Some(kind) => {
                        let l = self.fold_expr(expr)?;
                        self.expr_type = Some(kind);
                        Ok(Lowered { op: settle_exec(l, kind), typed: true })
                    },
                }
            },
            _ => Err(LowerError::UnsupportedExpression),
        }
    }

    /// Lowers an index expression.
    pub fn fold_index(&mut self, e: &Expr) -> (r: Result<Lowered, LowerError>)
        ensures
            final(self).env() == old(self).env(),
            match lower_index(old(self).env(), *e, old(self).state()) {
                Ok((l, st)) => r == Ok::<Lowered, LowerError>(l) && final(self).state() == st,
                Err(x) => r == Err::<Lowered, LowerError>(x),
            },
        decreases e, 0nat,
    {
        match e {
            Expr::Index { expr, index } => {
                let (tensor, container) = index_target_exec(expr, &self.vars)?;
                let i = self.fold_expr(index)?;
                let kind = tensor.kind;
                self.expr_type = Some(kind);
                Ok(
                    Lowered {
                        op: Operation::Index(
                            Box::new(
                                Index {
                                    tensor,
                                    container,
                                    index: settle_exec(i, ValueKind::U32),
                                    kind,
                                },
                            ),
                        ),
                        typed: true,
                    },
                )
            },
            _ => Err(LowerError::UnsupportedExpression),
        }
    }

    /// Lowers a range.
    pub fn fold_range(&mut self, e: &Expr) -> (r: Result<Lowered, LowerError>)
        ensures
            final(self).env() == old(self).env(),
            match lower_range(old(self).env(), *e, old(self).state()) {
                Ok((l, st)) => r == Ok::<Lowered, LowerError>(l) && final(self).state() == st,
                Err(x) => r == Err::<Lowered, LowerError>(x),
            },
        decreases e, 0nat,
    {
        match e {
            Expr::Range { start, end } => {
                match (start, end) {
                    (Some(a), Some(b)) => {
                        let l = self.fold_expr(a)?;
                        let r = self.fold_expr(b)?;
                        self.expr_type = Some(ValueKind::U32);
                        Ok(
                            Lowered {
                                op: Operation::Range(
                                    Box::new(
                                        Range {
                                            left: settle_exec(l, ValueKind::U32),
                                            right: settle_exec(r, ValueKind::U32),
                                        },
                                    ),
                                ),
                                typed: true,
                            },
                        )
                    },
                    _ => Err(LowerError::OpenRange),
                }
            },
            _ => Err(LowerError::UnsupportedExpression),
        }
    }

    /// Lowers a call in call syntax.
    pub fn fold_call(&mut self, e: &Expr) -> (r: Result<Lowered, LowerError>)
        ensures
            final(self).env() == old(self).env(),
            match lower_call(old(self).env(), *e, old(self).state()) {
                Ok((l, st)) => r == Ok::<Lowered, LowerError>(l) && final(self).state() == st,
                Err(x) => r == Err::<Lowered, LowerError>(x),
            },
        decreases e, 0nat,
    {
        match e {
            Expr::Call { func, args, .. } => {
                match self.resolve_call(func)? {
                    Callee::Conversion(kind, function) => {
                        let op = lower_conversion_exec(kind, &function, args)?;
                        self.expr_type = Some(kind);
                        Ok(Lowered { op, typed: true })
                    },
                    Callee::Function(f) => {
                        let params = f.inputs.duplicate();
                        match self.fold_args(args, 0, Some(params))? {
                            None => Err(LowerError::BadCallArity),
                            Some(inputs) => {
                                self.expr_type = Some(f.kind);
                                Ok(
                                    Lowered {
                                        op: Operation::Call(
                                            Box::new(Call { inputs: *inputs, function: f }),
                                        ),
                                        typed: true,
                                    },
                                )
                            },
                        }
                    },
                }
            },
            _ => Err(LowerError::UnsupportedExpression),
        }
    }

    /// Lowers a call in method syntax.
    pub fn fold_method_call(&mut self, e: &Expr) -> (r: Result<Lowered, LowerError>)
        ensures
            final(self).env() == old(self).env(),
            match lower_method_call(old(self).env(), *e, old(self).state()) {
                Ok((l, st)) => r == Ok::<Lowered, LowerError>(l) && final(self).state() == st,
                Err(x) => r == Err::<Lowered, LowerError>(x),
            },
        decreases e, 0nat,
    {
        match e {
            Expr::MethodCall { receiver, method, args } => {
                let f = self.resolve_method(method)?;
                let first = self.fold_expr(receiver)?;
                let params = match &f.inputs.rest {
                    Some(rest) => Some(rest.duplicate()),
                    None => None,
                };
                let rest = self.fold_args(args, 0, params)?;
                self.expr_type = Some(f.kind);
                let kind = f.inputs.first.kind;
                Ok(
                    Lowered {
                        op: Operation::Call(
                            Box::new(
                                Call {
                                    inputs: Inputs { first: settle_exec(first, kind), rest },
                                    function: f,
                                },
                            ),
                        ),
                        typed: true,
                    },
                )
            },
            _ => Err(LowerError::UnsupportedExpression),
        }
    }

    /// Lowers a conditional.
    pub fn fold_if(&mut self, e: &Expr) -> (r: Result<Lowered, LowerError>)
        ensures
            final(self).env() == old(self).env(),
            match lower_if(old(self).env(), *e, old(self).state()) {
                Ok((l, st)) => r == Ok::<Lowered, LowerError>(l) && final(self).state() == st,
                Err(x) => r == Err::<Lowered, LowerError>(x),
            },
        decreases e, 0nat,
    {
        match e {
            Expr::If { cond, then_branch, else_branch } => {
                let c = self.fold_expr(cond)?;
                if !c.typed {
                    return Err(LowerError::AmbiguousLiteral);
                }
                let t = self.fold_block(then_branch)?;
                let kind = t.kind;
                let f = match else_branch {
                    None => Scope::new(kind),
                    Some(other) => match &**other {
                        Expr::Block(b) => self.fold_block(b)?,
                        _ => {
                            return Err(LowerError::UnsupportedElse);
                        },
                    },
                };
                self.expr_type = Some(kind);
                Ok(
                    Lowered {
                        op: Operation::IfElse(
                            Box::new(
                                IfElse { kind, condition: c.op, then_branch: t, else_branch: f },
                            ),
                        ),
                        typed: true,
                    },
                )
            },
            _ => Err(LowerError::UnsupportedExpression),
        }
    }

    /// Lowers an assignment.
    pub fn fold_assign(&mut self, e: &Expr) -> (r: Result<Lowered, LowerError>)
        ensures
            final(self).env() == old(self).env(),
            match lower_assign(old(self).env(), *e, old(self).state()) {
                Ok((l, st)) => r == Ok::<Lowered, LowerError>(l) && final(self).state() == st,
                Err(x) => r == Err::<Lowered, LowerError>(x),
            },
        decreases e, 0nat,
    {
        match e {
            Expr::Assign { left, right } => {
                let value = self.fold_expr(right)?;
                match &**left {
                    Expr::Path(path) => {
                        let (_, kind) = lower_path_exec(path, &self.vars)?;
                        self.expr_type = Some(ValueKind::Void);
                        Ok(
                            Lowered {
                                op: Operation::Store(
                                    Box::new(
                                        Store {
                                            getable: Location::Variable(
                                                Variable {
                                                    reference: path.segments[0].clone(),
                                                    member: None,
                                                    kind,
                                                },
                                            ),
                                            assign: settle_exec(value, kind),
                                        },
                                    ),
                                ),
                                typed: true,
                            },
                        )
                    },
                    Expr::Index { expr, index } => {
                        let (tensor, container) = index_target_exec(expr, &self.vars)?;
                        let i = self.fold_expr(index)?;
                        let kind = tensor.kind;
                        self.expr_type = Some(ValueKind::Void);
                        Ok(
                            Lowered {
                                op: Operation::Store(
                                    Box::new(
                                        Store {
                                            getable: Location::Index(
                                                Index {
                                                    tensor,
                                                    container,
                                                    index: settle_exec(i, ValueKind::U32),
                                                    kind,
                                                },
                                            ),
                                            assign: settle_exec(value, kind),
                                        },
                                    ),
                                ),
                                typed: true,
                            },
                        )
                    },
                    _ => Err(LowerError::UnsupportedTarget),
                }
            },
            _ => Err(LowerError::UnsupportedExpression),
        }
    }

    /// Lowers one expression.
    pub fn fold_expr(&mut self, e: &Expr) -> (r: Result<Lowered, LowerError>)
        ensures
            final(self).env() == old(self).env(),
            match lower_expr(old(self).env(), *e, old(self).state()) {
                Ok((l, st)) => r == Ok::<Lowered, LowerError>(l) && final(self).state() == st,
                Err(x) => r == Err::<Lowered, LowerError>(x),
            },
        decreases e, 1nat,
    {
        match e {
            Expr::Lit(lit) => {
                let (l, kind) = lower_lit_exec(lit);
                self.expr_type = kind;
                Ok(l)
            },
            Expr::Path(path) => {
                let (op, kind) = lower_path_exec(path, &self.vars)?;
                self.expr_type = Some(kind);
                Ok(Lowered { op, typed: true })
            },
            Expr::Field { base, member } => {
                let (op, kind) = lower_field_exec(&self.known_structures, &self.known_records, base, member)?;
                self.expr_type = Some(kind);
                Ok(Lowered { op, typed: true })
            },
            Expr::Paren(inner) => self.fold_expr(inner),
            Expr::Reference(inner) => self.fold_expr(inner),
            Expr::Binary { .. } => self.fold_binary(e),
            Expr::Cast { .. } => self.fold_cast(e),
            Expr::Index { .. } => self.fold_index(e),
            Expr::Range { .. } => self.fold_range(e),
            Expr::Call { .. } => self.fold_call(e),
            Expr::MethodCall { .. } => self.fold_method_call(e),
            Expr::If { .. } => self.fold_if(e),
            Expr::Block(b) => {
                let scope = self.fold_block(b)?;
                Ok(Lowered { op: Operation::Scope(Box::new(scope)), typed: true })
            },
            Expr::Assign { .. } => self.fold_assign(e),
            Expr::Struct { .. } => Err(LowerError::MisplacedRecord),
            Expr::ForLoop { .. } => Err(LowerError::UnsupportedExpression),
            Expr::Return(_) => Err(LowerError::UnsupportedExpression),
            Expr::Other => Err(LowerError::UnsupportedExpression),
        }
    }

    /// Lowers the arguments of a call from `from` on.
    pub fn fold_args(&mut self, args: &Vec<Expr>, from: usize, params: Option<Parameters>) -> (r:
        Result<Option<Box<Inputs>>, LowerError>)
        ensures
            final(self).env() == old(self).env(),
            match lower_args(old(self).env(), *args, from as nat, params, old(self).state()) {
                Ok((l, st)) => r == Ok::<Option<Box<Inputs>>, LowerError>(l) && final(self).state() == st,
                Err(x) => r == Err::<Option<Box<Inputs>>, LowerError>(x),
            },
        decreases args, args.len() - from,
    {
        if from >= args.len() {
            match params {
                None => Ok(None),
                Some(_) => Err(LowerError::BadCallArity),
            }
        } else {
            match params {
                None => Err(LowerError::BadCallArity),
                Some(p) => {
                    let l = self.fold_expr(&args[from])?;
                    let kind = p.first.kind;
                    let next = match p.rest {
                        Some(rest) => Some(*rest),
                        None => None,
                    };
                    let rest = self.fold_args(args, from + 1, next)?;
                    Ok(Some(Box::new(Inputs { first: settle_exec(l, kind), rest })))
                },
            }
        }
    }

    /// Lowers the fields of a record literal from `from` on.
    pub fn fold_fields(&mut self, fields: &Vec<FieldValue>, from: usize) -> (r: Result<
        Option<Box<Fields>>,
        LowerError,
    >)
        ensures
            final(self).env() == old(self).env(),
            match lower_fields(old(self).env(), *fields, from as nat, old(self).state()) {
                Ok((l, st)) => r == Ok::<Option<Box<Fields>>, LowerError>(l) && final(self).state() == st,
                Err(x) => r == Err::<Option<Box<Fields>>, LowerError>(x),
            },
        decreases fields, fields.len() - from,
    {
        if from >= fields.len() {
            Ok(None)
        } else {
            match &fields[from].member {
                Member::Unnamed => Err(LowerError::UnsupportedMember),
                Member::Named(name) => {
                    let l = self.fold_expr(&fields[from].expr)?;
                    if !l.typed {
                        return Err(LowerError::AmbiguousLiteral);
                    }
                    let rest = self.fold_fields(fields, from + 1)?;
                    Ok(Some(Box::new(Fields { name: name.clone(), value: l.op, rest })))
                },
            }
        }
    }

    /// Lowers a `let`.
    pub fn fold_local(&mut self, scope: Scope, s: &Stmt) -> (r: Result<Scope, LowerError>)
        ensures
            final(self).env() == old(self).env(),
            match lower_local(old(self).env(), *s, scope, old(self).state()) {
                Ok((l, st)) => r == Ok::<Scope, LowerError>(l) && final(self).state() == st,
                Err(x) => r == Err::<Scope, LowerError>(x),
            },
        decreases s, 0nat,
    {
        match s {
            Stmt::Local { pat: Pat::Other, .. } => Err(LowerError::UnsupportedPattern),
            Stmt::Local { pat: Pat::Ident(_), init: None } => Err(LowerError::MissingInitializer),
            Stmt::Local { pat: Pat::Ident(name), init: Some(e) } => {
                let l = self.fold_expr(e)?;
                match self.expr_type {
                    Some(kind) => {
                        if !l.typed {
                            return Err(LowerError::AmbiguousLiteral);
                        }
                        let node = Operation::Assign(
                            Box::new(
                                Assign {
                                    variable: Variable {
                                        reference: name.clone(),
                                        member: None,
                                        kind,
                                    },
                                    assign: l.op,
                                },
                            ),
                        );
                        self.vars.push(Named { name: name.clone(), value: DataType::Scalar(kind) });
                        self.expr_type = Some(ValueKind::Void);
                        Ok(scope.include_instruction(node))
                    },
                    None => Err(LowerError::AmbiguousLiteral),
                }
            },
            _ => Err(LowerError::UnsupportedStatement),
        }
    }

    /// Lowers a `return`.
    pub fn fold_return(&mut self, scope: Scope, s: &Stmt) -> (r: Result<Scope, LowerError>)
        ensures
            final(self).env() == old(self).env(),
            match lower_return(old(self).env(), *s, scope, old(self).state()) {
                Ok((l, st)) => r == Ok::<Scope, LowerError>(l) && final(self).state() == st,
                Err(x) => r == Err::<Scope, LowerError>(x),
            },
        decreases s, 0nat,
    {
        match s {
            Stmt::Expr(Expr::Return(None), _) => {
                self.expr_type = Some(ValueKind::Void);
                Ok(
                    scope.returning(
                        Operation::Returns(
                            Box::new(
                                Returns {
                                    kind: ValueKind::Void,
                                    operation: Operation::Noop(Noop),
                                },
                            ),
                        ),
                    ),
                )
            },
            Stmt::Expr(Expr::Return(Some(v)), _) => {
                let l = self.fold_expr(v)?;
                match self.expr_type {
                    Some(kind) => {
                        if !l.typed {
                            return Err(LowerError::AmbiguousLiteral);
                        }
                        Ok(
                            scope.returning(
                                Operation::Returns(Box::new(Returns { kind, operation: l.op })),
                            ),
                        )
                    },
                    None => Err(LowerError::AmbiguousLiteral),
                }
            },
            _ => Err(LowerError::UnsupportedStatement),
        }
    }

    /// Lowers a `for` loop.
    pub fn fold_for(&mut self, scope: Scope, s: &Stmt) -> (r: Result<Scope, LowerError>)
        ensures
            final(self).env() == old(self).env(),
            match lower_for(old(self).env(), *s, scope, old(self).state()) {
                Ok((l, st)) => r == Ok::<Scope, LowerError>(l) && final(self).state() == st,
                Err(x) => r == Err::<Scope, LowerError>(x),
            },
        decreases s, 0nat,
    {
        match s {
            Stmt::Expr(Expr::ForLoop { pat: Pat::Other, .. }, _) => Err(
                LowerError::UnsupportedPattern,
            ),
            Stmt::Expr(Expr::ForLoop { pat: Pat::Ident(name), expr, body }, semi) => {
                let iterable = self.fold_expr(expr)?;
                let range = match iterable.op {
                    Operation::Range(range) => *range,
                    _ => {
                        return Err(LowerError::UnsupportedIterable);
                    },
                };
                let saved = copy_bindings(&self.vars);
                self.vars.push(
                    Named { name: name.clone(), value: DataType::Scalar(ValueKind::U32) },
                );
                let b = self.fold_block(body)?;
                self.vars = saved;
                self.expr_type = Some(ValueKind::Void);
                let node = Operation::ForEach(
                    Box::new(
                        ForEach {
                            variable: Variable {
                                reference: name.clone(),
                                member: None,
                                kind: ValueKind::U32,
                            },
                            iterable: range,
                            scope: b,
                        },
                    ),
                );
                if *semi {
                    Ok(scope.include_instruction(node))
                } else {
                    Ok(scope.returning(node))
                }
            },
            _ => Err(LowerError::UnsupportedStatement),
        }
    }

    /// Lowers a record literal that ends a block.
    pub fn fold_record(&mut self, scope: Scope, s: &Stmt) -> (r: Result<Scope, LowerError>)
        ensures
            final(self).env() == old(self).env(),
            match lower_record(old(self).env(), *s, scope, old(self).state()) {
                Ok((l, st)) => r == Ok::<Scope, LowerError>(l) && final(self).state() == st,
                Err(x) => r == Err::<Scope, LowerError>(x),
            },
        decreases s, 0nat,
    {
        match s {
            Stmt::Expr(Expr::Struct { path, fields }, semi) => {
                if *semi {
                    return Err(LowerError::MisplacedRecord);
                }
                if path.segments.len() == 0 {
                    return Err(LowerError::UnsupportedPath);
                }
                let lowered = self.fold_fields(fields, 0)?;
                self.returns_struct = true;
                let name = path.segments[path.segments.len() - 1].clone();
                Ok(scope.returning(Operation::Record(Box::new(Record { name, fields: lowered }))))
            },
            _ => Err(LowerError::UnsupportedStatement),
        }
    }

    /// Lowers an expression that stands as a statement.
    pub fn fold_plain(&mut self, scope: Scope, s: &Stmt) -> (r: Result<Scope, LowerError>)
        ensures
            final(self).env() == old(self).env(),
            match lower_plain(old(self).env(), *s, scope, old(self).state()) {
                Ok((l, st)) => r == Ok::<Scope, LowerError>(l) && final(self).state() == st,
                Err(x) => r == Err::<Scope, LowerError>(x),
            },
        decreases s, 0nat,
    {
        match s {
            Stmt::Expr(e, semi) => {
                let cast = match e {
                    Expr::Cast { .. } => true,
                    _ => false,
                };
                if cast && *semi {
                    return Err(LowerError::MisplacedCast);
                }
                let l = self.fold_expr(e)?;
                if !l.typed {
                    return Err(LowerError::AmbiguousLiteral);
                }
                if *semi {
                    Ok(scope.include_instruction(l.op))
                } else {
                    Ok(scope.returning(l.op))
                }
            },
            _ => Err(LowerError::UnsupportedStatement),
        }
    }

    /// Lowers one statement into `scope`.
    pub fn fold_stmt(&mut self, scope: Scope, s: &Stmt) -> (r: Result<Scope, LowerError>)
        ensures
            final(self).env() == old(self).env(),
            match lower_stmt(old(self).env(), *s, scope, old(self).state()) {
                Ok((l, st)) => r == Ok::<Scope, LowerError>(l) && final(self).state() == st,
                Err(x) => r == Err::<Scope, LowerError>(x),
            },
        decreases s, 1nat,
    {
        match s {
            Stmt::Local { .. } => self.fold_local(scope, s),
            Stmt::Expr(Expr::Return(_), _) => self.fold_return(scope, s),
            Stmt::Expr(Expr::ForLoop { .. }, _) => self.fold_for(scope, s),
            Stmt::Expr(Expr::Struct { .. }, _) => self.fold_record(scope, s),
            Stmt::Expr(_, _) => self.fold_plain(scope, s),
            Stmt::Other => Err(LowerError::UnsupportedStatement),
        }
    }

    /// Lowers the statements from `from` on into `scope`.
    pub fn fold_stmts(&mut self, scope: Scope, stmts: &Vec<Stmt>, from: usize) -> (r: Result<
        Scope,
        LowerError,
    >)
        ensures
            final(self).env() == old(self).env(),
            match lower_stmts(old(self).env(), *stmts, from as nat, scope, old(self).state()) {
                Ok((l, st)) => r == Ok::<Scope, LowerError>(l) && final(self).state() == st,
                Err(x) => r == Err::<Scope, LowerError>(x),
            },
        decreases stmts, stmts.len() - from,
    {
        if from >= stmts.len() {
            Ok(scope)
        } else {
            let next = self.fold_stmt(scope, &stmts[from])?;
            self.fold_stmts(next, stmts, from + 1)
        }
    }

    /// Lowers a block into a scope of its own.
    pub fn fold_block(&mut self, b: &Block) -> (r: Result<Scope, LowerError>)
        ensures
            final(self).env() == old(self).env(),
            match lower_block(old(self).env(), *b, old(self).state()) {
                Ok((l, st)) => r == Ok::<Scope, LowerError>(l) && final(self).state() == st,
                Err(x) => r == Err::<Scope, LowerError>(x),
            },
        decreases b, 0nat,
    {
        let saved = copy_bindings(&self.vars);
        self.expr_type = Some(ValueKind::Void);
        let scope = self.fold_stmts(Scope::new(ValueKind::Void), &b.stmts, 0)?;
        match self.expr_type {
            None => Err(LowerError::AmbiguousLiteral),
            Some(kind) => {
                self.vars = saved;
                Ok(Scope { kind, returned: scope.returned, instruction: scope.instruction })
            },
        }
    }
}

/// A block that lowers leaves its kind behind.
pub proof fn lemma_block_leaves_kind(env: Env, b: Block, st: State)
    ensures
        lower_block(env, b, st) matches Ok((scope, after)) ==> after.expr_type == Some(scope.kind),
{
}

/// A lowered expression is either typed, and then leaves its kind behind,
/// or a literal that has no kind yet, and then leaves none.
pub proof fn lemma_typed_leaves_kind(env: Env, e: Expr, st: State)
    ensures
        match lower_expr(env, e, st) {
            Ok((l, s1)) => if l.typed {
                s1.expr_type is Some
            } else {
                s1.expr_type is None && l.op is Literal
            },
            Err(_) => true,
        },
    decreases e,
{
    match e {
        Expr::Paren(inner) => {
            lemma_typed_leaves_kind(env, *inner, st);
        },
        Expr::Reference(inner) => {
            lemma_typed_leaves_kind(env, *inner, st);
        },
        Expr::Binary { .. } => {
            assert(lower_expr(env, e, st) == lower_binary(env, e, st));
        },
        Expr::Cast { .. } => {
            assert(lower_expr(env, e, st) == lower_cast(env, e, st));
        },
        Expr::Index { .. } => {
            assert(lower_expr(env, e, st) == lower_index(env, e, st));
        },
        Expr::Range { .. } => {
            assert(lower_expr(env, e, st) == lower_range(env, e, st));
        },
        Expr::Call { .. } => {
            assert(lower_expr(env, e, st) == lower_call(env, e, st));
        },
        Expr::MethodCall { .. } => {
            assert(lower_expr(env, e, st) == lower_method_call(env, e, st));
        },
        Expr::If { .. } => {
            assert(lower_expr(env, e, st) == lower_if(env, e, st));
        },
        Expr::Assign { .. } => {
            assert(lower_expr(env, e, st) == lower_assign(env, e, st));
        },
        Expr::Block(b) => {
            lemma_block_leaves_kind(env, b, st);
        },
        _ => {},
    }
}

/// In a binary expression of which exactly one operand is a literal without
/// a kind, the literal takes the kind of the other operand. An arithmetic
/// operator yields that kind; a comparison or a logical operator yields
/// `Bool`. Only an operator that is not supported makes it fail.
pub proof fn law_literal_takes_kind_of_other_operand(
    env: Env,
    op: crate::syntax::BinOp,
    left: Expr,
    right: Expr,
    st: State,
)
    requires
        lower_expr(env, left, st) is Ok,
        lower_expr(env, right, lower_expr(env, left, st)->Ok_0.1) is Ok,
        lower_expr(env, left, st)->Ok_0.0.typed != lower_expr(
            env,
            right,
            lower_expr(env, left, st)->Ok_0.1,
        )->Ok_0.0.typed,
    ensures
        ({
            let (l, s1) = lower_expr(env, left, st)->Ok_0;
            let (r, s2) = lower_expr(env, right, s1)->Ok_0;
            let e = Expr::Binary { op, left: Box::new(left), right: Box::new(right) };
            let typed_kind = if l.typed {
                s1.expr_type
            } else {
                s2.expr_type
            };
            &&& typed_kind is Some
            &&& match crate::lowering::binary_op(op) {
                None => lower_expr(env, e, st) == Err::<(Lowered, State), LowerError>(
                    LowerError::UnsupportedOperator,
                ),
                Some(o) => {
                    &&& lower_expr(env, e, st) matches Ok((Lowered { op: Operation::Binary(b), typed }, s3))
                    &&& typed
                    &&& b.op == o
                    &&& b.kind == if o.yields_bool() {
                        ValueKind::Bool
                    } else {
                        typed_kind->0
                    }
                    &&& s3.expr_type == Some(b.kind)
                    &&& if l.typed {
                        b.left == l.op && b.right.kind_of() == typed_kind->0
                    } else {
                        b.right == r.op && b.left.kind_of() == typed_kind->0
                    }
                },
            }
        }),
{
    let (l, s1) = lower_expr(env, left, st)->Ok_0;
    let (r, s2) = lower_expr(env, right, s1)->Ok_0;
    let e = Expr::Binary { op, left: Box::new(left), right: Box::new(right) };
    lemma_typed_leaves_kind(env, left, st);
    lemma_typed_leaves_kind(env, right, s1);
    assert(lower_expr(env, e, st) == lower_binary(env, e, st));
}

/// A binary expression of two literals without a kind cannot be lowered.
pub proof fn law_two_untyped_literals_fail(
    env: Env,
    op: crate::syntax::BinOp,
    left: Expr,
    right: Expr,
    st: State,
)
    requires
        lower_expr(env, left, st) matches Ok((l, s1)) && !l.typed && (lower_expr(
            env,
            right,
            s1,
        ) matches Ok((r, _)) && !r.typed),
    ensures
        lower_expr(
            env,
            Expr::Binary { op, left: Box::new(left), right: Box::new(right) },
            st,
        ) == Err::<(Lowered, State), LowerError>(LowerError::AmbiguousLiteral),
{
    let (l, s1) = lower_expr(env, left, st)->Ok_0;
    let e = Expr::Binary { op, left: Box::new(left), right: Box::new(right) };
    lemma_typed_leaves_kind(env, left, st);
    lemma_typed_leaves_kind(env, right, s1);
    assert(lower_expr(env, e, st) == lower_binary(env, e, st));
}

/// What a block binds ends with the block: after it, every name stands for
/// what it stood for before.
pub proof fn law_bindings_end_with_block(env: Env, b: Block, st: State)
    ensures
        lower_block(env, b, st) matches Ok((_, after)) ==> after.vars == st.vars,
{
}

/// A new binding hides an older one of the same name and leaves every other
/// name, and the older binding itself, as they were.
pub proof fn law_binding_shadows(vars: Seq<Named<DataType>>, binding: Named<DataType>, other: Seq<char>)
    ensures
        crate::tables::find_named(vars.push(binding), binding.name@) == Some(vars.len() as int),
        other != binding.name@ ==> crate::tables::find_named(vars.push(binding), other)
            == crate::tables::find_named(vars, other),
        vars.push(binding).take(vars.len() as int) == vars,
{
    assert(vars.push(binding).drop_last() =~= vars);
    assert(vars.push(binding).take(vars.len() as int) =~= vars);
}

/// A name that both `use .. as ..` and `use ..;` give resolves through the
/// alias when it is called as a method, and when it is called as a function.
pub proof fn law_alias_comes_first(env: Env, method: String, path: Path)
    requires
        path.key() == (false, seq![method@]),
        find_keyed(env.extensions, path.key()) is Some,
        find_keyed(env.functions, path.key()) is Some,
    ensures
        ({
            let alias = env.extensions[find_keyed(env.extensions, path.key())->0].value;
            match find_keyed(env.definitions, alias.key()) {
                Some(d) => resolve_method(env, method) == Ok::<Function, LowerError>(
                    env.definitions[d].value,
                ) && resolve_call(env, Expr::Path(path)) == Ok::<Callee, LowerError>(
                    Callee::Function(env.definitions[d].value),
                ),
                None => resolve_method(env, method) == Err::<Function, LowerError>(
                    LowerError::UnknownFunction,
                ),
            }
        }),
{
}

} // verus!
