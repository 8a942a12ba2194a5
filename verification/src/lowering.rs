//! The rules of lowering that look at one expression alone: literals, names,
//! field access, operators and call resolution.

use vstd::prelude::*;
use crate::operation::{
    Binary, BinaryOp, Constant, Container, Function, Get, Literal, Operation,
};
use crate::syntax::{BinOp, Expr, Lit, Member, Path, Type};
use crate::tables::{
    find_keyed, find_name, find_named, position_name, position_named, Keyed, Named,
};
use crate::text::is_word;
use crate::types::ValueKind;
use crate::var::Variable;

verus! {

/// Why a function body cannot be lowered.
#[derive(Clone, Copy, Debug, PartialEq, Eq, Structural)]
pub enum LowerError {
    /// A name that no binding in scope answers to.
    UnknownVariable,
    /// An indexable input used where a scalar is needed.
    NotAScalar,
    /// A scalar used where an indexable input is needed.
    NotIndexable,
    /// A literal whose kind nothing around it decides.
    AmbiguousLiteral,
    UnsupportedOperator,
    UnsupportedExpression,
    UnsupportedStatement,
    UnsupportedPattern,
    UnsupportedPath,
    UnsupportedMember,
    UnsupportedTarget,
    UnsupportedElse,
    UnsupportedIterable,
    UnsupportedConversion,
    UnknownStructure,
    UnknownField,
    UnknownType,
    /// A call that is neither an extension, an imported function nor a
    /// conversion of a type parameter.
    UnknownFunction,
    /// A method that no `use .. as ..` names.
    UnknownMethod,
    NotAPath,
    BadCallArity,
    MissingInitializer,
    OpenRange,
    /// A record literal anywhere but at the end of a block.
    MisplacedRecord,
    MisplacedCast,
    SelfParameter,
    NonTypeGeneric,
    MultipleMutable,
    UnsupportedArgument,
    /// A plain kernel or function that yields a record.
    RecordResult,
    NotAFunction,
    /// A kernel without a parameter to write to.
    MissingOutput,
    /// A kernel that yields a value.
    ReturnsValue,
    /// A function without parameters.
    NoInputs,
    TooManyInputs,
}

/// What lowering knows of a binding.
#[derive(Clone, Copy, Debug, PartialEq, Eq, Structural)]
pub enum DataType {
    Scalar(ValueKind),
    /// An input that is read and written by index.
    Indexable { element: ValueKind, container: Container },
}

/// A lowered expression. `typed` is false for a literal that has no kind yet.
#[derive(Debug, PartialEq, Eq)]
pub struct Lowered {
    pub op: Operation,
    pub typed: bool,
}

/// The fields of a record-shaped input: name and kind name of each.
pub type Structure = Vec<Named<String>>;

/// The tables that lowering reads and never changes.
pub struct Env {
    /// The known record types, by the name of the type.
    pub structures: Seq<Named<Structure>>,
    /// The record-shaped inputs: the name of the type of each.
    pub records: Seq<Named<String>>,
    pub generics: Seq<String>,
    pub functions: Seq<Keyed<Path>>,
    pub extensions: Seq<Keyed<Path>>,
    pub definitions: Seq<Keyed<Function>>,
}

/// What lowering carries from one expression to the next.
pub struct State {
    pub expr_type: Option<ValueKind>,
    pub vars: Seq<Named<DataType>>,
    pub returns_struct: bool,
}

/// What a call resolves to.
pub enum Callee {
    Function(Function),
    /// A conversion to the type parameter of this kind, by the function of
    /// this name.
    Conversion(ValueKind, String),
}

/// The operator of the tree that stands for a source operator.
pub open spec fn binary_op(op: BinOp) -> Option<BinaryOp> {
    match op {
        BinOp::Add => Some(BinaryOp::Add),
        BinOp::Sub => Some(BinaryOp::Subtract),
        BinOp::Mul => Some(BinaryOp::Multiply),
        BinOp::Div => Some(BinaryOp::Divide),
        BinOp::Ge => Some(BinaryOp::GreaterThanOrEqual),
        BinOp::Gt => Some(BinaryOp::GreaterThan),
        BinOp::Le => Some(BinaryOp::LessThanOrEqual),
        BinOp::Lt => Some(BinaryOp::LessThan),
        BinOp::Eq => Some(BinaryOp::Equals),
        BinOp::Ne => Some(BinaryOp::NotEqual),
        BinOp::And => Some(BinaryOp::And),
        BinOp::Or => Some(BinaryOp::Or),
        BinOp::Other => None,
    }
}

pub fn binary_op_exec(op: BinOp) -> (r: Option<BinaryOp>)
    ensures
        r == binary_op(op),
{
    match op {
        BinOp::Add => Some(BinaryOp::Add),
        BinOp::Sub => Some(BinaryOp::Subtract),
        BinOp::Mul => Some(BinaryOp::Multiply),
        BinOp::Div => Some(BinaryOp::Divide),
        BinOp::Ge => Some(BinaryOp::GreaterThanOrEqual),
        BinOp::Gt => Some(BinaryOp::GreaterThan),
        BinOp::Le => Some(BinaryOp::LessThanOrEqual),
        BinOp::Lt => Some(BinaryOp::LessThan),
        BinOp::Eq => Some(BinaryOp::Equals),
        BinOp::Ne => Some(BinaryOp::NotEqual),
        BinOp::And => Some(BinaryOp::And),
        BinOp::Or => Some(BinaryOp::Or),
        BinOp::Other => None,
    }
}

/// The value a literal stands for.
pub open spec fn constant_of(lit: Lit) -> Constant {
    if lit.float {
        Constant::Float(lit.digits)
    } else {
        Constant::Integer(lit.digits)
    }
}

pub fn constant_of_exec(lit: &Lit) -> (r: Constant)
    ensures
        r == constant_of(*lit),
{
    if lit.float {
        Constant::Float(lit.digits.clone())
    } else {
        Constant::Integer(lit.digits.clone())
    }
}

/// A literal on its own: its suffix names its kind, and without a suffix it
/// has none yet.
pub open spec fn lower_lit(lit: Lit) -> (Lowered, Option<ValueKind>) {
    match ValueKind::named(lit.suffix@) {
        Some(kind) => (
            Lowered { op: Operation::Literal(Literal { kind, value: constant_of(lit) }), typed: true },
            Some(kind),
        ),
        None => (
            Lowered {
                op: Operation::Literal(Literal { kind: ValueKind::Void, value: constant_of(lit) }),
                typed: false,
            },
            None,
        ),
    }
}

pub fn lower_lit_exec(lit: &Lit) -> (r: (Lowered, Option<ValueKind>))
    ensures
        r == lower_lit(*lit),
{
    match ValueKind::from_name(lit.suffix.as_str()) {
        Some(kind) => (
            Lowered {
                op: Operation::Literal(Literal { kind, value: constant_of_exec(lit) }),
                typed: true,
            },
            Some(kind),
        ),
        None => (
            Lowered {
                op: Operation::Literal(
                    Literal { kind: ValueKind::Void, value: constant_of_exec(lit) },
                ),
                typed: false,
            },
            None,
        ),
    }
}

/// The operation with its kind set, where it is a literal.
pub open spec fn retype(op: Operation, kind: ValueKind) -> Operation {
    match op {
        Operation::Literal(l) => Operation::Literal(Literal { kind, value: l.value }),
        _ => op,
    }
}

/// The lowered expression as an operand of `kind`: a literal without a kind
/// takes it, anything else stays as it is.
pub open spec fn settle(l: Lowered, kind: ValueKind) -> Operation {
    if l.typed {
        l.op
    } else {
        retype(l.op, kind)
    }
}

pub fn settle_exec(l: Lowered, kind: ValueKind) -> (r: Operation)
    ensures
        r == settle(l, kind),
{
    if l.typed {
        l.op
    } else {
        match l.op {
            Operation::Literal(lit) => Operation::Literal(Literal { kind, value: lit.value }),
            other => other,
        }
    }
}

/// A binary expression from its lowered operands and the kinds they left
/// behind. Exactly one operand may be a literal without a kind: it takes the
/// kind of the other.
pub open spec fn combine_binary(
    op: BinOp,
    left: Lowered,
    left_type: Option<ValueKind>,
    right: Lowered,
    right_type: Option<ValueKind>,
) -> Result<(Operation, ValueKind), LowerError> {
    let operand = match (left_type, right_type) {
        (Some(k), _) => Some(k),
        (None, Some(k)) => Some(k),
        (None, None) => None,
    };
    match operand {
        None => Err(LowerError::AmbiguousLiteral),
        Some(k) => if !left.typed && !right.typed {
            Err(LowerError::AmbiguousLiteral)
        } else {
            match binary_op(op) {
                None => Err(LowerError::UnsupportedOperator),
                Some(o) => {
                    let kind = if o.yields_bool() {
                        ValueKind::Bool
                    } else {
                        k
                    };
                    Ok(
                        (
                            Operation::Binary(
                                Box::new(
                                    Binary {
                                        op: o,
                                        kind,
                                        left: settle(left, k),
                                        right: settle(right, k),
                                    },
                                ),
                            ),
                            kind,
                        ),
                    )
                },
            }
        },
    }
}

pub fn combine_binary_exec(
    op: BinOp,
    left: Lowered,
    left_type: Option<ValueKind>,
    right: Lowered,
    right_type: Option<ValueKind>,
) -> (r: Result<(Operation, ValueKind), LowerError>)
    ensures
        r == combine_binary(op, left, left_type, right, right_type),
{
    let operand = match (left_type, right_type) {
        (Some(k), _) => Some(k),
        (None, Some(k)) => Some(k),
        (None, None) => None,
    };
    match operand {
        None => Err(LowerError::AmbiguousLiteral),
        Some(k) => {
            if !left.typed && !right.typed {
                return Err(LowerError::AmbiguousLiteral);
            }
            match binary_op_exec(op) {
                None => Err(LowerError::UnsupportedOperator),
                Some(o) => {
                    let kind = if o.is_arithmetic() {
                        k
                    } else {
                        ValueKind::Bool
                    };
                    Ok(
                        (
                            Operation::Binary(
                                Box::new(
                                    Binary {
                                        op: o,
                                        kind,
                                        left: settle_exec(left, k),
                                        right: settle_exec(right, k),
                                    },
                                ),
                            ),
                            kind,
                        ),
                    )
                },
            }
        },
    }
}

/// A name on its own reads the scalar that is bound to it.
pub open spec fn lower_path(path: Path, vars: Seq<Named<DataType>>) -> Result<
    (Operation, ValueKind),
    LowerError,
> {
    match path.ident() {
        None => Err(LowerError::UnsupportedPath),
        Some(name) => match find_named(vars, name@) {
            None => Err(LowerError::UnknownVariable),
            Some(i) => match vars[i].value {
                DataType::Scalar(kind) => Ok(
                    (
                        Operation::Get(
                            Get { getable: Variable { reference: name, member: None, kind } },
                        ),
                        kind,
                    ),
                ),
                DataType::Indexable { .. } => Err(LowerError::NotAScalar),
            },
        },
    }
}

pub fn lower_path_exec(path: &Path, vars: &Vec<Named<DataType>>) -> (r: Result<
    (Operation, ValueKind),
    LowerError,
>)
    ensures
        r == lower_path(*path, vars@),
{
    match path.get_ident() {
        None => Err(LowerError::UnsupportedPath),
        Some(name) => match position_named(vars, name) {
            None => Err(LowerError::UnknownVariable),
            Some(i) => match &vars[i].value {
                DataType::Scalar(kind) => Ok(
                    (
                        Operation::Get(
                            Get {
                                getable: Variable {
                                    reference: name.clone(),
                                    member: None,
                                    kind: *kind,
                                },
                            },
                        ),
                        *kind,
                    ),
                ),
                DataType::Indexable { .. } => Err(LowerError::NotAScalar),
            },
        },
    }
}

/// The place, among the known record types, of the type of the input `name`.
pub open spec fn record_fields(
    structures: Seq<Named<Structure>>,
    records: Seq<Named<String>>,
    name: Seq<char>,
) -> Option<int> {
    match find_named(records, name) {
        None => None,
        Some(r) => find_named(structures, records[r].value@),
    }
}

pub fn record_fields_exec(
    structures: &Vec<Named<Structure>>,
    records: &Vec<Named<String>>,
    name: &String,
) -> (r: Option<usize>)
    ensures
        match r {
            Some(i) => record_fields(structures@, records@, name@) == Some(i as int) && i
                < structures.len(),
            None => record_fields(structures@, records@, name@) is None,
        },
{
    match position_named(records, name) {
        None => None,
        Some(r) => position_named(structures, &records[r].value),
    }
}

/// Access to a field of a record-shaped input reads the variable that stands
/// for the field; its kind is the one the structure gives.
pub open spec fn lower_field(
    structures: Seq<Named<Structure>>,
    records: Seq<Named<String>>,
    base: Expr,
    member: Member,
) -> Result<(Operation, ValueKind), LowerError> {
    match base {
        Expr::Path(path) => match path.ident() {
            None => Err(LowerError::UnsupportedPath),
            Some(name) => match member {
                Member::Unnamed => Err(LowerError::UnsupportedMember),
                Member::Named(field) => match record_fields(structures, records, name@) {
                    None => Err(LowerError::UnknownStructure),
                    Some(i) => match find_named(structures[i].value@, field@) {
                        None => Err(LowerError::UnknownField),
                        Some(j) => match ValueKind::named(structures[i].value@[j].value@) {
                            None => Err(LowerError::UnknownType),
                            Some(kind) => Ok(
                                (
                                    Operation::Get(
                                        Get {
                                            getable: Variable {
                                                reference: name,
                                                member: Some(field),
                                                kind,
                                            },
                                        },
                                    ),
                                    kind,
                                ),
                            ),
                        },
                    },
                },
            },
        },
        _ => Err(LowerError::UnsupportedExpression),
    }
}

pub fn lower_field_exec(
    structures: &Vec<Named<Structure>>,
    records: &Vec<Named<String>>,
    base: &Expr,
    member: &Member,
) -> (r: Result<(Operation, ValueKind), LowerError>)
    ensures
        r == lower_field(structures@, records@, *base, *member),
{
    match base {
        Expr::Path(path) => match path.get_ident() {
            None => Err(LowerError::UnsupportedPath),
            Some(name) => match member {
                Member::Unnamed => Err(LowerError::UnsupportedMember),
                Member::Named(field) => match record_fields_exec(structures, records, name) {
                    None => Err(LowerError::UnknownStructure),
                    Some(i) => match position_named(&structures[i].value, field) {
                        None => Err(LowerError::UnknownField),
                        Some(j) => match ValueKind::from_name(
                            structures[i].value[j].value.as_str(),
                        ) {
                            None => Err(LowerError::UnknownType),
                            Some(kind) => Ok(
                                (
                                    Operation::Get(
                                        Get {
                                            getable: Variable {
                                                reference: name.clone(),
                                                member: Some(field.clone()),
                                                kind,
                                            },
                                        },
                                    ),
                                    kind,
                                ),
                            ),
                        },
                    },
                },
            },
        },
        _ => Err(LowerError::UnsupportedExpression),
    }
}

/// The indexable input that an index expression reads or writes.
pub open spec fn index_target(base: Expr, vars: Seq<Named<DataType>>) -> Result<
    (Variable, Container),
    LowerError,
> {
    match base {
        Expr::Path(path) => match path.ident() {
            None => Err(LowerError::UnsupportedPath),
            Some(name) => match find_named(vars, name@) {
                None => Err(LowerError::UnknownVariable),
                Some(i) => match vars[i].value {
                    DataType::Scalar(_) => Err(LowerError::NotIndexable),
                    DataType::Indexable { element, container } => Ok(
                        (Variable { reference: name, member: None, kind: element }, container),
                    ),
                },
            },
        },
        _ => Err(LowerError::UnsupportedExpression),
    }
}

pub fn index_target_exec(base: &Expr, vars: &Vec<Named<DataType>>) -> (r: Result<
    (Variable, Container),
    LowerError,
>)
    ensures
        r == index_target(*base, vars@),
{
    match base {
        Expr::Path(path) => match path.get_ident() {
            None => Err(LowerError::UnsupportedPath),
            Some(name) => match position_named(vars, name) {
                None => Err(LowerError::UnknownVariable),
                Some(i) => match &vars[i].value {
                    DataType::Scalar(_) => Err(LowerError::NotIndexable),
                    DataType::Indexable { element, container } => Ok(
                        (
                            Variable { reference: name.clone(), member: None, kind: *element },
                            *container,
                        ),
                    ),
                },
            },
        },
        _ => Err(LowerError::UnsupportedExpression),
    }
}

/// The kind a type names: a scalar by its canonical name, or a type
/// parameter of the function by its place among them.
pub open spec fn resolve_kind(generics: Seq<String>, ty: Type) -> Option<ValueKind> {
    match ty {
        Type::Path(path, arguments) => match path.ident() {
            Some(name) if arguments@.len() == 0 => match ValueKind::named(name@) {
                Some(kind) => Some(kind),
                None => match find_name(generics, name@) {
                    Some(i) if i <= u8::MAX => Some(ValueKind::Generic(i as u8)),
                    _ => None,
                },
            },
            _ => None,
        },
        _ => None,
    }
}

pub fn resolve_kind_exec(generics: &Vec<String>, ty: &Type) -> (r: Option<ValueKind>)
    ensures
        r == resolve_kind(generics@, *ty),
{
    match ty {
        Type::Path(path, arguments) => {
            if arguments.len() != 0 {
                return None;
            }
            match path.get_ident() {
                Some(name) => match ValueKind::from_name(name.as_str()) {
                    Some(kind) => Some(kind),
                    None => match position_name(generics, name) {
                        Some(i) => if i <= 255 {
                            Some(ValueKind::Generic(i as u8))
                        } else {
                            None
                        },
                        None => None,
                    },
                },
                None => None,
            }
        },
        _ => None,
    }
}

/// Call resolution, in this order: a path that `use .. as ..` names is an
/// extension; a path that `use ..;` names is an imported function; a path of
/// two identifiers whose first is a type parameter is a conversion. Anything
/// else does not resolve.
pub open spec fn resolve_call(env: Env, func: Expr) -> Result<Callee, LowerError> {
    match func {
        Expr::Path(path) => {
            let target = match find_keyed(env.extensions, path.key()) {
                Some(i) => Some(env.extensions[i].value),
                None => match find_keyed(env.functions, path.key()) {
                    Some(i) => Some(env.functions[i].value),
                    None => None,
                },
            };
            match target {
                Some(t) => match find_keyed(env.definitions, t.key()) {
                    Some(d) => Ok(Callee::Function(env.definitions[d].value)),
                    None => Err(LowerError::UnknownFunction),
                },
                None => if path.segments@.len() == 2 {
                    match find_name(env.generics, path.segments@[0]@) {
                        Some(i) if i <= u8::MAX => Ok(
                            Callee::Conversion(ValueKind::Generic(i as u8), path.segments@[1]),
                        ),
                        _ => Err(LowerError::UnknownFunction),
                    }
                } else {
                    Err(LowerError::UnknownFunction)
                },
            }
        },
        _ => Err(LowerError::NotAPath),
    }
}

/// The extension that a method name stands for.
pub open spec fn resolve_method(env: Env, method: String) -> Result<Function, LowerError> {
    match find_keyed(env.extensions, (false, seq![method@])) {
        Some(i) => match find_keyed(env.definitions, env.extensions[i].value.key()) {
            Some(d) => Ok(env.definitions[d].value),
            None => Err(LowerError::UnknownFunction),
        },
        None => Err(LowerError::UnknownMethod),
    }
}

/// A conversion of a type parameter: `from_int` and `from_float` of one
/// literal, and `get_zero` of nothing.
pub open spec fn lower_conversion(kind: ValueKind, function: String, args: Seq<Expr>) -> Result<
    Operation,
    LowerError,
> {
    if args.len() == 0 && function@ == "get_zero"@ {
        Ok(Operation::Literal(Literal { kind, value: Constant::Zero }))
    } else if args.len() == 1 && (function@ == "from_int"@ || function@ == "from_float"@) {
        match args[0] {
            Expr::Lit(lit) => Ok(Operation::Literal(Literal { kind, value: constant_of(lit) })),
            _ => Err(LowerError::UnsupportedConversion),
        }
    } else {
        Err(LowerError::UnsupportedConversion)
    }
}

pub fn lower_conversion_exec(kind: ValueKind, function: &String, args: &Vec<Expr>) -> (r: Result<
    Operation,
    LowerError,
>)
    ensures
        r == lower_conversion(kind, *function, args@),
{
    if args.len() == 0 && is_word(function, "get_zero") {
        Ok(Operation::Literal(Literal { kind, value: Constant::Zero }))
    } else if args.len() == 1 && (is_word(function, "from_int") || is_word(function, "from_float")) {
        match &args[0] {
            Expr::Lit(lit) => Ok(
                Operation::Literal(Literal { kind, value: constant_of_exec(lit) }),
            ),
            _ => Err(LowerError::UnsupportedConversion),
        }
    } else {
        Err(LowerError::UnsupportedConversion)
    }
}

} // verus!
