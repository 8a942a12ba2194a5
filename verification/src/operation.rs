//! The operation tree: what a lowered function body is made of.
//!
//! Every node carries the kind of value it yields. Nodes are immutable:
//! composing them gives new nodes.

use vstd::prelude::*;
use crate::types::ValueKind;
use crate::var::Variable;

verus! {

/// The value of a literal. `Integer` and `Float` keep the digits as they were
/// written; `Zero` and `One` are what differentiation produces.
#[derive(Debug, PartialEq, Eq)]
pub enum Constant {
    Zero,
    One,
    Integer(String),
    Float(String),
}

#[derive(Debug, PartialEq, Eq)]
pub struct Literal {
    pub kind: ValueKind,
    pub value: Constant,
}

#[derive(Clone, Copy, Debug, PartialEq, Eq, Structural)]
pub enum BinaryOp {
    Add,
    Subtract,
    Multiply,
    Divide,
    Equals,
    NotEqual,
    LessThan,
    LessThanOrEqual,
    GreaterThan,
    GreaterThanOrEqual,
    And,
    Or,
}

/// Reads a variable.
#[derive(Debug, PartialEq, Eq)]
pub struct Get {
    pub getable: Variable,
}

/// How an indexable input holds its elements.
#[derive(Clone, Copy, Debug, PartialEq, Eq, Structural)]
pub enum Container {
    /// The elements are the value itself.
    Vector,
    /// The elements lie in the field `data`, beside the shape.
    Tensor,
}

/// Reads one element of an indexable input.
#[derive(Debug, PartialEq, Eq)]
pub struct Index {
    pub tensor: Variable,
    pub container: Container,
    pub index: Operation,
    pub kind: ValueKind,
}

/// What a `Store` writes to.
#[derive(Debug, PartialEq, Eq)]
pub enum Location {
    Variable(Variable),
    Index(Index),
}

/// Writes to a name that is already bound, or to an indexed location.
#[derive(Debug, PartialEq, Eq)]
pub struct Store {
    pub getable: Location,
    pub assign: Operation,
}

/// Introduces a new binding.
#[derive(Debug, PartialEq, Eq)]
pub struct Assign {
    pub variable: Variable,
    pub assign: Operation,
}

/// Arithmetic, comparison and logical operators.
#[derive(Debug, PartialEq, Eq)]
pub struct Binary {
    pub op: BinaryOp,
    pub kind: ValueKind,
    pub left: Operation,
    pub right: Operation,
}

/// The half-open integer range `left..right`.
#[derive(Debug, PartialEq, Eq)]
pub struct Range {
    pub left: Operation,
    pub right: Operation,
}

/// Runs a scope once for each integer of a range.
#[derive(Debug, PartialEq, Eq)]
pub struct ForEach {
    pub variable: Variable,
    pub iterable: Range,
    pub scope: Scope,
}

/// A conditional. Both branches are always there: a missing `else` is a
/// scope that does nothing.
#[derive(Debug, PartialEq, Eq)]
pub struct IfElse {
    pub kind: ValueKind,
    pub condition: Operation,
    pub then_branch: Scope,
    pub else_branch: Scope,
}

#[derive(Debug, PartialEq, Eq)]
pub struct Until {
    pub condition: Operation,
    pub scope: Scope,
}

/// The arguments of a call, in order.
#[derive(Debug, PartialEq, Eq)]
pub struct Inputs {
    pub first: Operation,
    pub rest: Option<Box<Inputs>>,
}

/// The parameters of a function, in order.
#[derive(Debug, PartialEq, Eq)]
pub struct Parameters {
    pub first: Variable,
    pub rest: Option<Box<Parameters>>,
}

/// The name of a function: as given, or the derivative of a named function.
#[derive(Debug, PartialEq, Eq)]
pub enum FunctionName {
    Given(String),
    Derivative(Box<FunctionName>),
}

#[derive(Debug, PartialEq, Eq)]
pub struct Function {
    pub name: FunctionName,
    pub kind: ValueKind,
    pub inputs: Parameters,
    pub scope: Scope,
}

#[derive(Debug, PartialEq, Eq)]
pub struct Call {
    pub inputs: Inputs,
    pub function: Function,
}

#[derive(Debug, PartialEq, Eq)]
pub struct Returns {
    pub kind: ValueKind,
    pub operation: Operation,
}

#[derive(Clone, Copy, Debug, PartialEq, Eq, Structural)]
pub struct Noop;

/// The fields of a record literal, in order.
#[derive(Debug, PartialEq, Eq)]
pub struct Fields {
    pub name: String,
    pub value: Operation,
    pub rest: Option<Box<Fields>>,
}

/// A record literal: the result of an extension.
#[derive(Debug, PartialEq, Eq)]
pub struct Record {
    pub name: String,
    pub fields: Option<Box<Fields>>,
}

/// A chain of instructions. `this` is the latest; `previous` holds what came
/// before it.
#[derive(Debug, PartialEq, Eq)]
pub struct InstructionList {
    pub this: Operation,
    pub previous: Option<Box<InstructionList>>,
}

/// The instructions of one block. `returned` says that the latest
/// instruction is the block's result.
#[derive(Debug, PartialEq, Eq)]
pub struct Scope {
    pub kind: ValueKind,
    pub returned: bool,
    pub instruction: InstructionList,
}

#[derive(Debug, PartialEq, Eq)]
pub enum Operation {
    Literal(Literal),
    Get(Get),
    Index(Box<Index>),
    Store(Box<Store>),
    Assign(Box<Assign>),
    Binary(Box<Binary>),
    Range(Box<Range>),
    ForEach(Box<ForEach>),
    IfElse(Box<IfElse>),
    Until(Box<Until>),
    Call(Box<Call>),
    Function(Box<Function>),
    Scope(Box<Scope>),
    Returns(Box<Returns>),
    Record(Box<Record>),
    Noop(Noop),
}

impl BinaryOp {
    /// Comparisons and logical operators yield a `Bool` whatever they compare.
    pub open spec fn yields_bool(self) -> bool {
        !(self is Add || self is Subtract || self is Multiply || self is Divide)
    }

    pub fn is_arithmetic(&self) -> (r: bool)
        ensures
            r == !self.yields_bool(),
    {
        match self {
            BinaryOp::Add | BinaryOp::Subtract | BinaryOp::Multiply | BinaryOp::Divide => true,
            _ => false,
        }
    }
}

impl Constant {
    pub fn duplicate(&self) -> (r: Constant)
        ensures
            r == *self,
    {
        match self {
            Constant::Zero => Constant::Zero,
            Constant::One => Constant::One,
            Constant::Integer(s) => Constant::Integer(s.clone()),
            Constant::Float(s) => Constant::Float(s.clone()),
        }
    }
}

impl Literal {
    /// The zero element of `kind`.
    pub open spec fn zero_of(kind: ValueKind) -> Literal {
        Literal { kind, value: Constant::Zero }
    }

    /// The integer one, converted to `kind`.
    pub open spec fn one_of(kind: ValueKind) -> Literal {
        Literal { kind, value: Constant::One }
    }

    /// The zero element of `kind`.
    pub fn zero(kind: ValueKind) -> (r: Literal)
        ensures
            r == Literal::zero_of(kind),
    {
        Literal { kind, value: Constant::Zero }
    }

    /// The integer one, converted to `kind`.
    pub fn one(kind: ValueKind) -> (r: Literal)
        ensures
            r == Literal::one_of(kind),
    {
        Literal { kind, value: Constant::One }
    }

    pub fn duplicate(&self) -> (r: Literal)
        ensures
            r == *self,
    {
        Literal { kind: self.kind, value: self.value.duplicate() }
    }
}

impl FunctionName {
    pub fn duplicate(&self) -> (r: FunctionName)
        ensures
            r == *self,
        decreases self,
    {
        match self {
            FunctionName::Given(s) => FunctionName::Given(s.clone()),
            FunctionName::Derivative(n) => FunctionName::Derivative(Box::new(n.duplicate())),
        }
    }
}

impl Parameters {
    /// How many parameters there are.
    pub open spec fn count(self) -> nat
        decreases self,
    {
        match self.rest {
            Some(rest) => 1 + rest.count(),
            None => 1,
        }
    }

    pub fn duplicate(&self) -> (r: Parameters)
        ensures
            r == *self,
        decreases self,
    {
        let rest = match &self.rest {
            Some(rest) => Some(Box::new(rest.duplicate())),
            None => None,
        };
        Parameters { first: self.first.duplicate(), rest }
    }
}

impl Inputs {
    /// How many arguments there are.
    pub open spec fn count(self) -> nat
        decreases self,
    {
        match self.rest {
            Some(rest) => 1 + rest.count(),
            None => 1,
        }
    }

    pub fn duplicate(&self) -> (r: Inputs)
        ensures
            r == *self,
        decreases self,
    {
        let rest = match &self.rest {
            Some(rest) => Some(Box::new(rest.duplicate())),
            None => None,
        };
        Inputs { first: self.first.duplicate(), rest }
    }
}

impl Range {
    pub fn duplicate(&self) -> (r: Range)
        ensures
            r == *self,
        decreases self,
    {
        Range { left: self.left.duplicate(), right: self.right.duplicate() }
    }
}

impl Index {
    pub fn duplicate(&self) -> (r: Index)
        ensures
            r == *self,
        decreases self,
    {
        Index {
            tensor: self.tensor.duplicate(),
            container: self.container,
            index: self.index.duplicate(),
            kind: self.kind,
        }
    }
}

impl Location {
    /// The variable that is written to.
    pub open spec fn variable(self) -> Variable {
        match self {
            Location::Variable(v) => v,
            Location::Index(i) => i.tensor,
        }
    }

    pub fn get_variable(&self) -> (r: &Variable)
        ensures
            *r == self.variable(),
    {
        match self {
            Location::Variable(v) => v,
            Location::Index(i) => &i.tensor,
        }
    }

    pub fn duplicate(&self) -> (r: Location)
        ensures
            r == *self,
        decreases self,
    {
        match self {
            Location::Variable(v) => Location::Variable(v.duplicate()),
            Location::Index(i) => Location::Index(i.duplicate()),
        }
    }
}

impl Fields {
    pub fn duplicate(&self) -> (r: Fields)
        ensures
            r == *self,
        decreases self,
    {
        let rest = match &self.rest {
            Some(rest) => Some(Box::new(rest.duplicate())),
            None => None,
        };
        Fields { name: self.name.clone(), value: self.value.duplicate(), rest }
    }
}

impl Function {
    pub fn duplicate(&self) -> (r: Function)
        ensures
            r == *self,
        decreases self,
    {
        Function {
            name: self.name.duplicate(),
            kind: self.kind,
            inputs: self.inputs.duplicate(),
            scope: self.scope.duplicate(),
        }
    }
}

impl InstructionList {
    /// A chain that holds `instr` alone.
    pub fn new(instr: Operation) -> (r: InstructionList)
        ensures
            r == (InstructionList { this: instr, previous: None }),
    {
        InstructionList { this: instr, previous: None }
    }

    /// The chain with `instr` added as its latest instruction.
    pub fn append(self, instr: Operation) -> (r: InstructionList)
        ensures
            r == (InstructionList { this: instr, previous: Some(Box::new(self)) }),
    {
        InstructionList { this: instr, previous: Some(Box::new(self)) }
    }

    pub fn duplicate(&self) -> (r: InstructionList)
        ensures
            r == *self,
        decreases self,
    {
        let previous = match &self.previous {
            Some(previous) => Some(Box::new(previous.duplicate())),
            None => None,
        };
        InstructionList { this: self.this.duplicate(), previous }
    }
}

impl Scope {
    /// An empty scope that is to yield a value of `kind`: it holds a no-op.
    pub fn new(kind: ValueKind) -> (r: Scope)
        ensures
            r == (Scope {
                kind,
                returned: false,
                instruction: InstructionList { this: Operation::Noop(Noop), previous: None },
            }),
    {
        Scope { kind, returned: false, instruction: InstructionList::new(Operation::Noop(Noop)) }
    }

    /// The scope with `instr` added as a statement.
    pub fn include_instruction(self, instr: Operation) -> (r: Scope)
        ensures
            r == (Scope {
                kind: self.kind,
                returned: false,
                instruction: InstructionList {
                    this: instr,
                    previous: Some(Box::new(self.instruction)),
                },
            }),
    {
        Scope { kind: self.kind, returned: false, instruction: self.instruction.append(instr) }
    }

    /// The scope with `instr` added as its result.
    pub fn returning(self, instr: Operation) -> (r: Scope)
        ensures
            r == (Scope {
                kind: self.kind,
                returned: true,
                instruction: InstructionList {
                    this: instr,
                    previous: Some(Box::new(self.instruction)),
                },
            }),
    {
        Scope { kind: self.kind, returned: true, instruction: self.instruction.append(instr) }
    }

    pub fn duplicate(&self) -> (r: Scope)
        ensures
            r == *self,
        decreases self,
    {
        Scope {
            kind: self.kind,
            returned: self.returned,
            instruction: self.instruction.duplicate(),
        }
    }
}

impl Operation {
    /// The kind of value the node yields.
    pub open spec fn kind_of(self) -> ValueKind {
        match self {
            Operation::Literal(l) => l.kind,
            Operation::Get(g) => g.getable.kind,
            Operation::Index(i) => i.kind,
            Operation::Binary(b) => b.kind,
            Operation::Range(_) => ValueKind::U32,
            Operation::IfElse(i) => i.kind,
            Operation::Call(c) => c.function.kind,
            Operation::Function(f) => f.kind,
            Operation::Scope(s) => s.kind,
            Operation::Returns(r) => r.kind,
            Operation::Store(_) | Operation::Assign(_) | Operation::ForEach(_) | Operation::Until(_)
            | Operation::Record(_) | Operation::Noop(_) => ValueKind::Void,
        }
    }

    pub fn kind(&self) -> (r: ValueKind)
        ensures
            r == self.kind_of(),
    {
        match self {
            Operation::Literal(l) => l.kind,
            Operation::Get(g) => g.getable.kind,
            Operation::Index(i) => i.kind,
            Operation::Binary(b) => b.kind,
            Operation::Range(_) => ValueKind::U32,
            Operation::IfElse(i) => i.kind,
            Operation::Call(c) => c.function.kind,
            Operation::Function(f) => f.kind,
            Operation::Scope(s) => s.kind,
            Operation::Returns(r) => r.kind,
            Operation::Store(_) | Operation::Assign(_) | Operation::ForEach(_) | Operation::Until(_)
            | Operation::Record(_) | Operation::Noop(_) => ValueKind::Void,
        }
    }

    pub fn duplicate(&self) -> (r: Operation)
        ensures
            r == *self,
        decreases self,
    {
        match self {
            Operation::Literal(l) => Operation::Literal(l.duplicate()),
            Operation::Get(g) => Operation::Get(Get { getable: g.getable.duplicate() }),
            Operation::Index(i) => Operation::Index(Box::new(i.duplicate())),
            Operation::Store(s) => Operation::Store(
                Box::new(Store { getable: s.getable.duplicate(), assign: s.assign.duplicate() }),
            ),
            Operation::Assign(a) => Operation::Assign(
                Box::new(Assign { variable: a.variable.duplicate(), assign: a.assign.duplicate() }),
            ),
            Operation::Binary(b) => Operation::Binary(
                Box::new(
                    Binary {
                        op: b.op,
                        kind: b.kind,
                        left: b.left.duplicate(),
                        right: b.right.duplicate(),
                    },
                ),
            ),
            Operation::Range(r) => Operation::Range(Box::new(r.duplicate())),
            Operation::ForEach(f) => Operation::ForEach(
                Box::new(
                    ForEach {
                        variable: f.variable.duplicate(),
                        iterable: f.iterable.duplicate(),
                        scope: f.scope.duplicate(),
                    },
                ),
            ),
            Operation::IfElse(i) => Operation::IfElse(
                Box::new(
                    IfElse {
                        kind: i.kind,
                        condition: i.condition.duplicate(),
                        then_branch: i.then_branch.duplicate(),
                        else_branch: i.else_branch.duplicate(),
                    },
                ),
            ),
            Operation::Until(u) => Operation::Until(
                Box::new(Until { condition: u.condition.duplicate(), scope: u.scope.duplicate() }),
            ),
            Operation::Call(c) => Operation::Call(
                Box::new(Call { inputs: c.inputs.duplicate(), function: c.function.duplicate() }),
            ),
            Operation::Function(f) => Operation::Function(Box::new(f.duplicate())),
            Operation::Scope(s) => Operation::Scope(Box::new(s.duplicate())),
            Operation::Returns(r) => Operation::Returns(
                Box::new(Returns { kind: r.kind, operation: r.operation.duplicate() }),
            ),
            Operation::Record(r) => {
                let fields = match &r.fields {
                    Some(f) => Some(Box::new(f.duplicate())),
                    None => None,
                };
                Operation::Record(Box::new(Record { name: r.name.clone(), fields }))
            },
            Operation::Noop(_) => Operation::Noop(Noop),
        }
    }
}

} // verus!
