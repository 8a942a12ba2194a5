//! Shader text from an operation tree.
//!
//! Each operation renders to the text of its construct. A call renders the
//! definition of the function it calls into a table of functions, once for
//! each name, and itself to an invocation. The text is made and never run.

use vstd::prelude::*;
use crate::operation::{
    BinaryOp, Constant, Container, Fields, Function, FunctionName, Index, Inputs,
    InstructionList, Location, Operation, Parameters, Range, Scope,
};
use crate::tables::Named;
use crate::types::ValueKind;
use crate::var::Variable;

verus! {

/// The functions that were rendered: the name and the definition of each,
/// in the order in which they were rendered.
pub type Table = Seq<(Seq<char>, Seq<char>)>;

/// The table as plain text.
pub open spec fn table_model(functions: Seq<Named<String>>) -> Table {
    functions.map_values(|f: Named<String>| (f.name@, f.value@))
}

/// Whether the table holds a function of this name.
pub open spec fn has_key(table: Table, name: Seq<char>) -> bool
    decreases table.len(),
{
    if table.len() == 0 {
        false
    } else {
        table.last().0 == name || has_key(table.drop_last(), name)
    }
}

/// The sign of an operator.
pub open spec fn symbol(op: BinaryOp) -> Seq<char> {
    match op {
        BinaryOp::Add => "+"@,
        BinaryOp::Subtract => "-"@,
        BinaryOp::Multiply => "*"@,
        BinaryOp::Divide => "/"@,
        BinaryOp::Equals => "=="@,
        BinaryOp::NotEqual => "!="@,
        BinaryOp::LessThan => "<"@,
        BinaryOp::LessThanOrEqual => "<="@,
        BinaryOp::GreaterThan => ">"@,
        BinaryOp::GreaterThanOrEqual => ">="@,
        BinaryOp::And => "&&"@,
        BinaryOp::Or => "||"@,
    }
}

/// The text of a literal.
pub open spec fn constant_text(value: Constant) -> Seq<char> {
    match value {
        Constant::Zero => "0"@,
        Constant::One => "1"@,
        Constant::Integer(digits) => digits@,
        Constant::Float(digits) => digits@,
    }
}

/// The name of a variable: `name`, or `name.member`.
pub open spec fn variable_text(v: Variable) -> Seq<char> {
    match v.member {
        Some(member) => v.reference@ + "."@ + member@,
        None => v.reference@,
    }
}

/// The name of a function; that of a derivative ends in `_chandra_diff`.
pub open spec fn name_text(name: FunctionName) -> Seq<char>
    decreases name,
{
    match name {
        FunctionName::Given(s) => s@,
        FunctionName::Derivative(of) => name_text(*of) + "_chandra_diff"@,
    }
}

/// The result type of a function as it is declared: nothing where it
/// yields no value.
pub open spec fn return_decl(kind: ValueKind) -> Seq<char> {
    match kind {
        ValueKind::Void => Seq::empty(),
        _ => "-> "@ + kind.name(),
    }
}

/// The parameters of a function as they are declared.
pub open spec fn parameters_text(parameters: Parameters) -> Seq<char>
    decreases parameters,
{
    let first = parameters.first.reference@ + ": "@ + parameters.first.kind.name();
    match parameters.rest {
        None => first,
        Some(rest) => first + ", "@ + parameters_text(*rest),
    }
}

/// The name under which the elements of an indexable input are reached.
pub open spec fn tensor_text(tensor: Variable, container: Container) -> Seq<char> {
    match container {
        Container::Vector => variable_text(tensor),
        Container::Tensor => variable_text(tensor) + ".data"@,
    }
}

/// `tensor[index]`.
pub open spec fn render_index(i: Index, table: Table) -> (Seq<char>, Table)
    decreases i, 0nat,
{
    let (index, t1) = render(i.index, table);
    (tensor_text(i.tensor, i.container) + "["@ + index + "]"@, t1)
}

/// `left..right`.
pub open spec fn render_range(r: Range, table: Table) -> (Seq<char>, Table)
    decreases r, 0nat,
{
    let (left, t1) = render(r.left, table);
    let (right, t2) = render(r.right, t1);
    (left + ".."@ + right, t2)
}

/// `left sign right`.
pub open spec fn render_binary(op: Operation, table: Table) -> (Seq<char>, Table)
    decreases op, 0nat,
{
    match op {
        Operation::Binary(b) => {
            let (left, t1) = render(b.left, table);
            let (right, t2) = render(b.right, t1);
            (left + " "@ + symbol(b.op) + " "@ + right, t2)
        },
        _ => (Seq::empty(), table),
    }
}

/// `target = value;`.
pub open spec fn render_store(op: Operation, table: Table) -> (Seq<char>, Table)
    decreases op, 0nat,
{
    match op {
        Operation::Store(s) => {
            let (target, t1) = match s.getable {
                Location::Variable(v) => (variable_text(v), table),
                Location::Index(i) => render_index(i, table),
            };
            let (value, t2) = render(s.assign, t1);
            (target + " = "@ + value + ";"@, t2)
        },
        _ => (Seq::empty(), table),
    }
}

/// `var name: kind = value;`.
pub open spec fn render_assign(op: Operation, table: Table) -> (Seq<char>, Table)
    decreases op, 0nat,
{
    match op {
        Operation::Assign(a) => {
            let (value, t1) = render(a.assign, table);
            (
                "var "@ + variable_text(a.variable) + ": "@ + a.variable.kind.name() + " = "@
                    + value + ";"@,
                t1,
            )
        },
        _ => (Seq::empty(), table),
    }
}

/// A counted loop over the range.
pub open spec fn render_for(op: Operation, table: Table) -> (Seq<char>, Table)
    decreases op, 0nat,
{
    match op {
        Operation::ForEach(f) => {
            let (start, t1) = render(f.iterable.left, table);
            let (end, t2) = render(f.iterable.right, t1);
            let (block, t3) = render_scope(f.scope, t2);
            let name = variable_text(f.variable);
            (
                "for (var "@ + name + ": u32 = "@ + start + "; "@ + name + " < "@ + end + "; "@
                    + name + "++) "@ + block,
                t3,
            )
        },
        _ => (Seq::empty(), table),
    }
}

/// `if (condition) {..} else {..}`.
pub open spec fn render_if(op: Operation, table: Table) -> (Seq<char>, Table)
    decreases op, 0nat,
{
    match op {
        Operation::IfElse(i) => {
            let (condition, t1) = render(i.condition, table);
            let (then_text, t2) = render_scope(i.then_branch, t1);
            let (else_text, t3) = render_scope(i.else_branch, t2);
            ("if ("@ + condition + ") "@ + then_text + " else "@ + else_text + " \n"@, t3)
        },
        _ => (Seq::empty(), table),
    }
}

/// `until (condition) {..}`.
pub open spec fn render_until(op: Operation, table: Table) -> (Seq<char>, Table)
    decreases op, 0nat,
{
    match op {
        Operation::Until(u) => {
            let (condition, t1) = render(u.condition, table);
            let (block, t2) = render_scope(u.scope, t1);
            ("until ("@ + condition + ") "@ + block, t2)
        },
        _ => (Seq::empty(), table),
    }
}

/// The fields of a record literal: `name: value, ..`.
pub open spec fn render_fields(fields: Fields, table: Table) -> (Seq<char>, Table)
    decreases fields, 0nat,
{
    let (value, t1) = render(fields.value, table);
    let first = fields.name@ + ": "@ + value;
    match fields.rest {
        None => (first, t1),
        Some(rest) => {
            let (others, t2) = render_fields(*rest, t1);
            (first + ", "@ + others, t2)
        },
    }
}

/// `Name { field: value, .. }`.
pub open spec fn render_record(op: Operation, table: Table) -> (Seq<char>, Table)
    decreases op, 0nat,
{
    match op {
        Operation::Record(r) => match r.fields {
            None => (r.name@ + " { }"@, table),
            Some(fields) => {
                let (text, t1) = render_fields(*fields, table);
                (r.name@ + " { "@ + text + " }"@, t1)
            },
        },
        _ => (Seq::empty(), table),
    }
}

/// The arguments of a call: `first, second, ..`.
pub open spec fn render_inputs(inputs: Inputs, table: Table) -> (Seq<char>, Table)
    decreases inputs, 0nat,
{
    let (first, t1) = render(inputs.first, table);
    match inputs.rest {
        None => (first, t1),
        Some(rest) => {
            let (others, t2) = render_inputs(*rest, t1);
            (first + ", "@ + others, t2)
        },
    }
}

/// The declaration of a function: `fn name(parameters) -> kind {..}`.
pub open spec fn render_function(f: Function, table: Table) -> (Seq<char>, Table)
    decreases f, 0nat,
{
    let (block, t1) = render_scope(f.scope, table);
    (
        "fn "@ + name_text(f.name) + "("@ + parameters_text(f.inputs) + ") "@ + return_decl(f.kind)
            + " "@ + block,
        t1,
    )
}

/// The table once the function is defined in it. A function whose name the
/// table holds is not rendered again.
pub open spec fn define(f: Function, table: Table) -> Table
    decreases f, 1nat,
{
    if has_key(table, name_text(f.name)) {
        table
    } else {
        let (definition, t1) = render_function(f, table);
        if has_key(t1, name_text(f.name)) {
            t1
        } else {
            t1.push((name_text(f.name), definition))
        }
    }
}

/// `name(arguments)`; the function is defined in the table first.
pub open spec fn render_call(op: Operation, table: Table) -> (Seq<char>, Table)
    decreases op, 0nat,
{
    match op {
        Operation::Call(c) => {
            let t1 = define(c.function, table);
            let (inputs, t2) = render_inputs(c.inputs, t1);
            (name_text(c.function.name) + "("@ + inputs + ")"@, t2)
        },
        _ => (Seq::empty(), table),
    }
}

/// The instructions of a chain, the earlier ones first, one to a line.
pub open spec fn render_list(list: InstructionList, table: Table) -> (Seq<char>, Table)
    decreases list, 0nat,
{
    match list.previous {
        None => render(list.this, table),
        Some(previous) => {
            let (p, t1) = render_list(*previous, table);
            let (t, t2) = render(list.this, t1);
            (p + " \n"@ + t, t2)
        },
    }
}

/// A block in braces.
pub open spec fn render_scope(scope: Scope, table: Table) -> (Seq<char>, Table)
    decreases scope, 0nat,
{
    let (body, t1) = render_list(scope.instruction, table);
    ("{\n    "@ + body + "\n}"@, t1)
}

/// The text of an operation, and the table of functions afterwards.
pub open spec fn render(op: Operation, table: Table) -> (Seq<char>, Table)
    decreases op, 1nat,
{
    match op {
        Operation::Literal(l) => (constant_text(l.value), table),
        Operation::Get(g) => (variable_text(g.getable), table),
        Operation::Index(i) => render_index(*i, table),
        Operation::Store(_) => render_store(op, table),
        Operation::Assign(_) => render_assign(op, table),
        Operation::Binary(_) => render_binary(op, table),
        Operation::Range(r) => render_range(*r, table),
        Operation::ForEach(_) => render_for(op, table),
        Operation::IfElse(_) => render_if(op, table),
        Operation::Until(_) => render_until(op, table),
        Operation::Call(_) => render_call(op, table),
        Operation::Function(f) => render_function(*f, table),
        Operation::Scope(s) => render_scope(*s, table),
        Operation::Returns(r) => {
            let (value, t1) = render(r.operation, table);
            ("return "@ + value + ";"@, t1)
        },
        Operation::Record(_) => render_record(op, table),
        Operation::Noop(_) => (Seq::empty(), table),
    }
}

/// The definitions of the first `n` functions of the table, each after a
/// break.
pub open spec fn definitions_text(table: Table, n: nat) -> Seq<char>
    decreases n,
{
    if n == 0 {
        Seq::empty()
    } else {
        definitions_text(table, (n - 1) as nat) + " \n "@ + table[n - 1].1
    }
}

/// The text of a program: the functions it calls, then its body as `main`.
pub open spec fn program_text(main: Scope) -> Seq<char> {
    let (body, table) = render_scope(main, Seq::empty());
    definitions_text(table, table.len()) + " \n fn main() "@ + body
}

/// Decides [`has_key`].
pub fn contains_key(functions: &Vec<Named<String>>, name: &String) -> (r: bool)
    ensures
        r == has_key(table_model(functions@), name@),
{
    let mut i: usize = functions.len();
    assert(table_model(functions@).take(i as int) =~= table_model(functions@));
    while i > 0
        invariant
            i <= functions.len(),
            has_key(table_model(functions@), name@) == has_key(
                table_model(functions@).take(i as int),
                name@,
            ),
        decreases i,
    {
        assert(table_model(functions@).take(i as int).drop_last() =~= table_model(
            functions@,
        ).take(i - 1));
        if functions[i - 1].name == *name {
            return true;
        }
        i -= 1;
    }
    false
}

pub fn symbol_exec(op: BinaryOp) -> (r: &'static str)
    ensures
        r@ == symbol(op),
{
    match op {
        BinaryOp::Add => "+",
        BinaryOp::Subtract => "-",
        BinaryOp::Multiply => "*",
        BinaryOp::Divide => "/",
        BinaryOp::Equals => "==",
        BinaryOp::NotEqual => "!=",
        BinaryOp::LessThan => "<",
        BinaryOp::LessThanOrEqual => "<=",
        BinaryOp::GreaterThan => ">",
        BinaryOp::GreaterThanOrEqual => ">=",
        BinaryOp::And => "&&",
        BinaryOp::Or => "||",
    }
}

pub fn constant_text_exec(value: &Constant) -> (r: String)
    ensures
        r@ == constant_text(*value),
{
    match value {
        Constant::Zero => "0".to_owned(),
        Constant::One => "1".to_owned(),
        Constant::Integer(digits) => digits.clone(),
        Constant::Float(digits) => digits.clone(),
    }
}

pub fn variable_text_exec(v: &Variable) -> (r: String)
    ensures
        r@ == variable_text(*v),
{
    match &v.member {
        Some(member) => {
            let mut out = v.reference.clone();
            out.append(".");
            out.append(member.as_str());
            out
        },
        None => v.reference.clone(),
    }
}

pub fn name_text_exec(name: &FunctionName) -> (r: String)
    ensures
        r@ == name_text(*name),
    decreases name,
{
    match name {
        FunctionName::Given(s) => s.clone(),
        FunctionName::Derivative(of) => {
            let mut out = name_text_exec(of);
            out.append("_chandra_diff");
            out
        },
    }
}

pub fn return_decl_exec(kind: ValueKind) -> (r: String)
    ensures
        r@ == return_decl(kind),
{
    match kind {
        ValueKind::Void => String::new(),
        _ => {
            let mut out = "-> ".to_owned();
            out.append(kind.get_type());
            out
        },
    }
}

pub fn parameters_text_exec(parameters: &Parameters) -> (r: String)
    ensures
        r@ == parameters_text(*parameters),
    decreases parameters,
{
    let mut out = parameters.first.reference.clone();
    out.append(": ");
    out.append(parameters.first.kind.get_type());
    match &parameters.rest {
        None => out,
        Some(rest) => {
            let others = parameters_text_exec(rest);
            out.append(", ");
            out.append(others.as_str());
            out
        },
    }
}

pub fn tensor_text_exec(tensor: &Variable, container: Container) -> (r: String)
    ensures
        r@ == tensor_text(*tensor, container),
{
    match container {
        Container::Vector => variable_text_exec(tensor),
        Container::Tensor => {
            let mut out = variable_text_exec(tensor);
            out.append(".data");
            out
        },
    }
}

/// Renders an index expression.
pub fn build_index(i: &Index, functions: &mut Vec<Named<String>>) -> (r: String)
    ensures
        (r@, table_model(final(functions)@)) == render_index(*i, table_model(old(functions)@)),
    decreases i, 0nat,
{
    let index = build(&i.index, functions);
    let mut out = tensor_text_exec(&i.tensor, i.container);
    out.append("[");
    out.append(index.as_str());
    out.append("]");
    out
}

/// Renders a range.
pub fn build_range(r: &Range, functions: &mut Vec<Named<String>>) -> (out: String)
    ensures
        (out@, table_model(final(functions)@)) == render_range(*r, table_model(old(functions)@)),
    decreases r, 0nat,
{
    let mut out = build(&r.left, functions);
    let right = build(&r.right, functions);
    out.append("..");
    out.append(right.as_str());
    out
}

/// Renders an operator between its operands.
pub fn build_binary(op: &Operation, functions: &mut Vec<Named<String>>) -> (r: String)
    ensures
        (r@, table_model(final(functions)@)) == render_binary(*op, table_model(old(functions)@)),
    decreases op, 0nat,
{
    match op {
        Operation::Binary(b) => {
            let mut out = build(&b.left, functions);
            let right = build(&b.right, functions);
            out.append(" ");
            out.append(symbol_exec(b.op));
            out.append(" ");
            out.append(right.as_str());
            out
        },
        _ => String::new(),
    }
}

/// Renders a write.
pub fn build_store(op: &Operation, functions: &mut Vec<Named<String>>) -> (r: String)
    ensures
        (r@, table_model(final(functions)@)) == render_store(*op, table_model(old(functions)@)),
    decreases op, 0nat,
{
    match op {
        Operation::Store(s) => {
            let mut out = match &s.getable {
                Location::Variable(v) => variable_text_exec(v),
                Location::Index(i) => build_index(i, functions),
            };
            let value = build(&s.assign, functions);
            out.append(" = ");
            out.append(value.as_str());
            out.append(";");
            out
        },
        _ => String::new(),
    }
}

/// Renders a new binding.
pub fn build_assign(op: &Operation, functions: &mut Vec<Named<String>>) -> (r: String)
    ensures
        (r@, table_model(final(functions)@)) == render_assign(*op, table_model(old(functions)@)),
    decreases op, 0nat,
{
    match op {
        Operation::Assign(a) => {
            let value = build(&a.assign, functions);
            let mut out = "var ".to_owned();
            out.append(variable_text_exec(&a.variable).as_str());
            out.append(": ");
            out.append(a.variable.kind.get_type());
            out.append(" = ");
            out.append(value.as_str());
            out.append(";");
            out
        },
        _ => String::new(),
    }
}

/// Renders a loop over a range.
pub fn build_for(op: &Operation, functions: &mut Vec<Named<String>>) -> (r: String)
    ensures
        (r@, table_model(final(functions)@)) == render_for(*op, table_model(old(functions)@)),
    decreases op, 0nat,
{
    match op {
        Operation::ForEach(f) => {
            let start = build(&f.iterable.left, functions);
            let end = build(&f.iterable.right, functions);
            let block = build_scope(&f.scope, functions);
            let name = variable_text_exec(&f.variable);
            let mut out = "for (var ".to_owned();
            out.append(name.as_str());
            out.append(": u32 = ");
            out.append(start.as_str());
            out.append("; ");
            out.append(name.as_str());
            out.append(" < ");
            out.append(end.as_str());
            out.append("; ");
            out.append(name.as_str());
            out.append("++) ");
            out.append(block.as_str());
            out
        },
        _ => String::new(),
    }
}

/// Renders a conditional.
pub fn build_if(op: &Operation, functions: &mut Vec<Named<String>>) -> (r: String)
    ensures
        (r@, table_model(final(functions)@)) == render_if(*op, table_model(old(functions)@)),
    decreases op, 0nat,
{
    match op {
        Operation::IfElse(i) => {
            let condition = build(&i.condition, functions);
            let then_text = build_scope(&i.then_branch, functions);
            let else_text = build_scope(&i.else_branch, functions);
            let mut out = "if (".to_owned();
            out.append(condition.as_str());
            out.append(") ");
            out.append(then_text.as_str());
            out.append(" else ");
            out.append(else_text.as_str());
            out.append(" \n");
            out
        },
        _ => String::new(),
    }
}

/// Renders a loop that runs until a condition holds.
pub fn build_until(op: &Operation, functions: &mut Vec<Named<String>>) -> (r: String)
    ensures
        (r@, table_model(final(functions)@)) == render_until(*op, table_model(old(functions)@)),
    decreases op, 0nat,
{
    match op {
        Operation::Until(u) => {
            let condition = build(&u.condition, functions);
            let block = build_scope(&u.scope, functions);
            let mut out = "until (".to_owned();
            out.append(condition.as_str());
            out.append(") ");
            out.append(block.as_str());
            out
        },
        _ => String::new(),
    }
}

/// Renders the fields of a record literal.
pub fn build_fields(fields: &Fields, functions: &mut Vec<Named<String>>) -> (r: String)
    ensures
        (r@, table_model(final(functions)@)) == render_fields(
            *fields,
            table_model(old(functions)@),
        ),
    decreases fields, 0nat,
{
    let value = build(&fields.value, functions);
    let mut out = fields.name.clone();
    out.append(": ");
    out.append(value.as_str());
    match &fields.rest {
        None => out,
        Some(rest) => {
            let others = build_fields(rest, functions);
            out.append(", ");
            out.append(others.as_str());
            out
        },
    }
}

/// Renders a record literal.
pub fn build_record(op: &Operation, functions: &mut Vec<Named<String>>) -> (r: String)
    ensures
        (r@, table_model(final(functions)@)) == render_record(*op, table_model(old(functions)@)),
    decreases op, 0nat,
{
    match op {
        Operation::Record(r) => match &r.fields {
            None => {
                let mut out = r.name.clone();
                out.append(" { }");
                out
            },
            Some(fields) => {
                let text = build_fields(fields, functions);
                let mut out = r.name.clone();
                out.append(" { ");
                out.append(text.as_str());
                out.append(" }");
                out
            },
        },
        _ => String::new(),
    }
}

/// Renders the arguments of a call.
pub fn build_inputs(inputs: &Inputs, functions: &mut Vec<Named<String>>) -> (r: String)
    ensures
        (r@, table_model(final(functions)@)) == render_inputs(
            *inputs,
            table_model(old(functions)@),
        ),
    decreases inputs, 0nat,
{
    let mut out = build(&inputs.first, functions);
    match &inputs.rest {
        None => out,
        Some(rest) => {
            let others = build_inputs(rest, functions);
            out.append(", ");
            out.append(others.as_str());
            out
        },
    }
}

/// Renders the declaration of a function.
pub fn build_function(f: &Function, functions: &mut Vec<Named<String>>) -> (r: String)
    ensures
        (r@, table_model(final(functions)@)) == render_function(
            *f,
            table_model(old(functions)@),
        ),
    decreases f, 0nat,
{
    let block = build_scope(&f.scope, functions);
    let mut out = "fn ".to_owned();
    out.append(name_text_exec(&f.name).as_str());
    out.append("(");
    out.append(parameters_text_exec(&f.inputs).as_str());
    out.append(") ");
    out.append(return_decl_exec(f.kind).as_str());
    out.append(" ");
    out.append(block.as_str());
    out
}

/// Defines the function in the table, unless the table holds its name.
pub fn define_exec(f: &Function, functions: &mut Vec<Named<String>>)
    ensures
        table_model(final(functions)@) == define(*f, table_model(old(functions)@)),
    decreases f, 1nat,
{
    let name = name_text_exec(&f.name);
    if !contains_key(functions, &name) {
        let definition = build_function(f, functions);
        if !contains_key(functions, &name) {
            let ghost before = functions@;
            functions.push(Named { name, value: definition });
            assert(table_model(functions@) =~= table_model(before).push((name@, definition@)));
        }
    }
}

/// Renders a call and defines the function it calls.
pub fn build_call(op: &Operation, functions: &mut Vec<Named<String>>) -> (r: String)
    ensures
        (r@, table_model(final(functions)@)) == render_call(*op, table_model(old(functions)@)),
    decreases op, 0nat,
{
    match op {
        Operation::Call(c) => {
            define_exec(&c.function, functions);
            let inputs = build_inputs(&c.inputs, functions);
            let mut out = name_text_exec(&c.function.name);
            out.append("(");
            out.append(inputs.as_str());
            out.append(")");
            out
        },
        _ => String::new(),
    }
}

/// Renders a chain of instructions.
pub fn build_list(list: &InstructionList, functions: &mut Vec<Named<String>>) -> (r: String)
    ensures
        (r@, table_model(final(functions)@)) == render_list(*list, table_model(old(functions)@)),
    decreases list, 0nat,
{
    match &list.previous {
        None => build(&list.this, functions),
        Some(previous) => {
            let mut out = build_list(previous, functions);
            let this = build(&list.this, functions);
            out.append(" \n");
            out.append(this.as_str());
            out
        },
    }
}

/// Renders a scope as a block in braces.
pub fn build_scope(scope: &Scope, functions: &mut Vec<Named<String>>) -> (r: String)
    ensures
        (r@, table_model(final(functions)@)) == render_scope(
            *scope,
            table_model(old(functions)@),
        ),
    decreases scope, 0nat,
{
    let body = build_list(&scope.instruction, functions);
    let mut out = "{\n    ".to_owned();
    out.append(body.as_str());
    out.append("\n}");
    out
}

/// Renders an operation. The functions that it calls are defined in
/// `functions`, each once.
pub fn build(op: &Operation, functions: &mut Vec<Named<String>>) -> (r: String)
    ensures
        (r@, table_model(final(functions)@)) == render(*op, table_model(old(functions)@)),
    decreases op, 1nat,
{
    match op {
        Operation::Literal(l) => constant_text_exec(&l.value),
        Operation::Get(g) => variable_text_exec(&g.getable),
        Operation::Index(i) => build_index(i, functions),
        Operation::Store(_) => build_store(op, functions),
        Operation::Assign(_) => build_assign(op, functions),
        Operation::Binary(_) => build_binary(op, functions),
        Operation::Range(r) => build_range(r, functions),
        Operation::ForEach(_) => build_for(op, functions),
        Operation::IfElse(_) => build_if(op, functions),
        Operation::Until(_) => build_until(op, functions),
        Operation::Call(_) => build_call(op, functions),
        Operation::Function(f) => build_function(f, functions),
        Operation::Scope(s) => build_scope(s, functions),
        Operation::Returns(r) => {
            let value = build(&r.operation, functions);
            let mut out = "return ".to_owned();
            out.append(value.as_str());
            out.append(";");
            out
        },
        Operation::Record(_) => build_record(op, functions),
        Operation::Noop(_) => String::new(),
    }
}

/// The text that a program was compiled to.
#[derive(Debug, PartialEq, Eq)]
pub struct GPUCompiler(pub String);

/// A program as shader text.
#[derive(Debug, PartialEq, Eq)]
pub struct GPUExecutable {
    pub prog: String,
}

/// Storage on the device. Nothing is allocated by this library.
#[derive(Clone, Copy, Debug, PartialEq, Eq, Structural)]
pub struct GPUStorage {}

/// The backend that generates shader text.
#[derive(Clone, Copy, Debug, PartialEq, Eq, Structural)]
pub struct GPUProcessor {}

impl GPUCompiler {
    /// Compiles the body of a program: the functions it calls, then the
    /// body as `main`.
    pub fn compile(main: &Scope) -> (r: GPUCompiler)
        ensures
            r.0@ == program_text(*main),
    {
        let mut functions: Vec<Named<String>> = Vec::new();
        assert(table_model(functions@) =~= Seq::<(Seq<char>, Seq<char>)>::empty());
        let body = build_scope(main, &mut functions);
        let mut out = String::new();
        let mut i: usize = 0;
        while i < functions.len()
            invariant
                i <= functions.len(),
                out@ == definitions_text(table_model(functions@), i as nat),
            decreases functions.len() - i,
        {
            out.append(" \n ");
            out.append(functions[i].value.as_str());
            i += 1;
        }
        out.append(" \n fn main() ");
        out.append(body.as_str());
        GPUCompiler(out)
    }
}

impl GPUProcessor {
    pub fn new() -> (r: GPUProcessor) {
        GPUProcessor {  }
    }

    /// The program as shader text.
    pub fn build(&mut self, main: &Scope) -> (r: GPUExecutable)
        ensures
            r.prog@ == program_text(*main),
    {
        let compiler = GPUCompiler::compile(main);
        GPUExecutable { prog: compiler.0 }
    }
}

/// Whether `longer` starts with the entries of `table`.
pub open spec fn extends(table: Table, longer: Table) -> bool {
    table.len() <= longer.len() && forall|i: int| 0 <= i < table.len() ==> longer[i] == table[i]
}

/// Whether no two entries of the table bear the same name.
pub open spec fn distinct(table: Table) -> bool {
    forall|i: int, j: int| 0 <= i < j < table.len() ==> table[i].0 != table[j].0
}

/// The table holds a name exactly where one of its entries bears it.
pub proof fn lemma_has_key(table: Table, name: Seq<char>)
    ensures
        has_key(table, name) <==> exists|i: int| 0 <= i < table.len() && table[i].0 == name,
    decreases table.len(),
{
    if table.len() > 0 {
        let shorter = table.drop_last();
        lemma_has_key(shorter, name);
        if has_key(table, name) {
            if table.last().0 == name {
                assert(table[table.len() - 1].0 == name);
            } else {
                let i = choose|i: int| 0 <= i < shorter.len() && shorter[i].0 == name;
                assert(table[i].0 == name);
            }
        } else {
            assert forall|i: int| 0 <= i < table.len() implies table[i].0 != name by {
                if i < shorter.len() {
                    assert(shorter[i] == table[i]);
                }
            }
        }
    }
}

/// What [`render_index`] does to the table.
pub proof fn lemma_render_index(i: Index, table: Table)
    ensures
        extends(table, render_index(i, table).1),
        distinct(table) ==> distinct(render_index(i, table).1),
    decreases i, 0nat,
{
    lemma_render(i.index, table);
}

/// What [`render_range`] does to the table.
pub proof fn lemma_render_range(r: Range, table: Table)
    ensures
        extends(table, render_range(r, table).1),
        distinct(table) ==> distinct(render_range(r, table).1),
    decreases r, 0nat,
{
    lemma_render(r.left, table);
    lemma_render(r.right, render(r.left, table).1);
}

/// What [`render_binary`] does to the table.
pub proof fn lemma_render_binary(op: Operation, table: Table)
    ensures
        extends(table, render_binary(op, table).1),
        distinct(table) ==> distinct(render_binary(op, table).1),
    decreases op, 0nat,
{
    match op {
        Operation::Binary(b) => {
            lemma_render(b.left, table);
            lemma_render(b.right, render(b.left, table).1);
        },
        _ => {},
    }
}

/// What [`render_store`] does to the table.
pub proof fn lemma_render_store(op: Operation, table: Table)
    ensures
        extends(table, render_store(op, table).1),
        distinct(table) ==> distinct(render_store(op, table).1),
    decreases op, 0nat,
{
    match op {
        Operation::Store(s) => {
            let t1 = match s.getable {
                Location::Variable(v) => table,
                Location::Index(i) => {
                    lemma_render_index(i, table);
                    render_index(i, table).1
                },
            };
            lemma_render(s.assign, t1);
        },
        _ => {},
    }
}

/// What [`render_assign`] does to the table.
pub proof fn lemma_render_assign(op: Operation, table: Table)
    ensures
        extends(table, render_assign(op, table).1),
        distinct(table) ==> distinct(render_assign(op, table).1),
    decreases op, 0nat,
{
    match op {
        Operation::Assign(a) => {
            lemma_render(a.assign, table);
        },
        _ => {},
    }
}

/// What [`render_for`] does to the table.
pub proof fn lemma_render_for(op: Operation, table: Table)
    ensures
        extends(table, render_for(op, table).1),
        distinct(table) ==> distinct(render_for(op, table).1),
    decreases op, 0nat,
{
    match op {
        Operation::ForEach(f) => {
            lemma_render(f.iterable.left, table);
            let t1 = render(f.iterable.left, table).1;
            lemma_render(f.iterable.right, t1);
            let t2 = render(f.iterable.right, t1).1;
            lemma_render_scope(f.scope, t2);
        },
        _ => {},
    }
}

/// What [`render_if`] does to the table.
pub proof fn lemma_render_if(op: Operation, table: Table)
    ensures
        extends(table, render_if(op, table).1),
        distinct(table) ==> distinct(render_if(op, table).1),
    decreases op, 0nat,
{
    match op {
        Operation::IfElse(i) => {
            lemma_render(i.condition, table);
            let t1 = render(i.condition, table).1;
            lemma_render_scope(i.then_branch, t1);
            let t2 = render_scope(i.then_branch, t1).1;
            lemma_render_scope(i.else_branch, t2);
        },
        _ => {},
    }
}

/// What [`render_until`] does to the table.
pub proof fn lemma_render_until(op: Operation, table: Table)
    ensures
        extends(table, render_until(op, table).1),
        distinct(table) ==> distinct(render_until(op, table).1),
    decreases op, 0nat,
{
    match op {
        Operation::Until(u) => {
            lemma_render(u.condition, table);
            lemma_render_scope(u.scope, render(u.condition, table).1);
        },
        _ => {},
    }
}

/// What [`render_fields`] does to the table.
pub proof fn lemma_render_fields(fields: Fields, table: Table)
    ensures
        extends(table, render_fields(fields, table).1),
        distinct(table) ==> distinct(render_fields(fields, table).1),
    decreases fields, 0nat,
{
    lemma_render(fields.value, table);
    match fields.rest {
        None => {},
        Some(rest) => {
            lemma_render_fields(*rest, render(fields.value, table).1);
        },
    }
}

/// What [`render_record`] does to the table.
pub proof fn lemma_render_record(op: Operation, table: Table)
    ensures
        extends(table, render_record(op, table).1),
        distinct(table) ==> distinct(render_record(op, table).1),
    decreases op, 0nat,
{
    match op {
        Operation::Record(r) => match r.fields {
            None => {},
            Some(fields) => {
                lemma_render_fields(*fields, table);
            },
        },
        _ => {},
    }
}

/// What [`render_inputs`] does to the table.
pub proof fn lemma_render_inputs(inputs: Inputs, table: Table)
    ensures
        extends(table, render_inputs(inputs, table).1),
        distinct(table) ==> distinct(render_inputs(inputs, table).1),
    decreases inputs, 0nat,
{
    lemma_render(inputs.first, table);
    match inputs.rest {
        None => {},
        Some(rest) => {
            lemma_render_inputs(*rest, render(inputs.first, table).1);
        },
    }
}

/// What [`render_function`] does to the table.
pub proof fn lemma_render_function(f: Function, table: Table)
    ensures
        extends(table, render_function(f, table).1),
        distinct(table) ==> distinct(render_function(f, table).1),
    decreases f, 0nat,
{
    lemma_render_scope(f.scope, table);
}

/// What [`define`] does to the table: afterwards the table holds the name
/// of the function.
pub proof fn lemma_define(f: Function, table: Table)
    ensures
        extends(table, define(f, table)),
        distinct(table) ==> distinct(define(f, table)),
        has_key(define(f, table), name_text(f.name)),
    decreases f, 1nat,
{
    let name = name_text(f.name);
    if !has_key(table, name) {
        lemma_render_function(f, table);
        let (definition, t1) = render_function(f, table);
        if !has_key(t1, name) {
            lemma_has_key(t1, name);
            let t2 = t1.push((name, definition));
            assert(t2.drop_last() =~= t1);
            if distinct(table) {
                assert forall|i: int, j: int| 0 <= i < j < t2.len() implies t2[i].0 != t2[j].0 by {
                    if j < t1.len() {
                        assert(t2[i] == t1[i] && t2[j] == t1[j]);
                    } else {
                        assert(t2[i] == t1[i]);
                    }
                }
            }
        }
    }
}

/// What [`render_call`] does to the table.
pub proof fn lemma_render_call(op: Operation, table: Table)
    ensures
        extends(table, render_call(op, table).1),
        distinct(table) ==> distinct(render_call(op, table).1),
    decreases op, 0nat,
{
    match op {
        Operation::Call(c) => {
            lemma_define(c.function, table);
            lemma_render_inputs(c.inputs, define(c.function, table));
        },
        _ => {},
    }
}

/// What [`render_list`] does to the table.
pub proof fn lemma_render_list(list: InstructionList, table: Table)
    ensures
        extends(table, render_list(list, table).1),
        distinct(table) ==> distinct(render_list(list, table).1),
    decreases list, 0nat,
{
    match list.previous {
        None => {
            lemma_render(list.this, table);
        },
        Some(previous) => {
            lemma_render_list(*previous, table);
            lemma_render(list.this, render_list(*previous, table).1);
        },
    }
}

/// What [`render_scope`] does to the table.
pub proof fn lemma_render_scope(scope: Scope, table: Table)
    ensures
        extends(table, render_scope(scope, table).1),
        distinct(table) ==> distinct(render_scope(scope, table).1),
    decreases scope, 0nat,
{
    lemma_render_list(scope.instruction, table);
}

/// What [`render`] does to the table.
pub proof fn lemma_render(op: Operation, table: Table)
    ensures
        extends(table, render(op, table).1),
        distinct(table) ==> distinct(render(op, table).1),
    decreases op, 1nat,
{
    match op {
        Operation::Index(i) => {
            lemma_render_index(*i, table);
        },
        Operation::Store(_) => {
            lemma_render_store(op, table);
        },
        Operation::Assign(_) => {
            lemma_render_assign(op, table);
        },
        Operation::Binary(_) => {
            lemma_render_binary(op, table);
        },
        Operation::Range(r) => {
            lemma_render_range(*r, table);
        },
        Operation::ForEach(_) => {
            lemma_render_for(op, table);
        },
        Operation::IfElse(_) => {
            lemma_render_if(op, table);
        },
        Operation::Until(_) => {
            lemma_render_until(op, table);
        },
        Operation::Call(_) => {
            lemma_render_call(op, table);
        },
        Operation::Function(f) => {
            lemma_render_function(*f, table);
        },
        Operation::Scope(s) => {
            lemma_render_scope(*s, table);
        },
        Operation::Returns(r) => {
            lemma_render(r.operation, table);
        },
        Operation::Record(_) => {
            lemma_render_record(op, table);
        },
        _ => {},
    }
}

/// Whatever a program calls, and however often, the text of the program
/// holds the definition of each function once: no two entries of the table
/// bear the same name, and every function that is called has an entry.
pub proof fn law_each_function_is_defined_once(main: Scope, call: Operation, table: Table)
    requires
        distinct(table),
        call is Call,
    ensures
        distinct(render_scope(main, Seq::empty()).1),
        distinct(render(call, table).1),
        has_key(render(call, table).1, name_text(call->Call_0.function.name)),
{
    lemma_render_scope(main, Seq::empty());
    lemma_render(call, table);
    match call {
        Operation::Call(c) => {
            let name = name_text(c.function.name);
            lemma_define(c.function, table);
            let t1 = define(c.function, table);
            lemma_render_inputs(c.inputs, t1);
            let t2 = render_inputs(c.inputs, t1).1;
            lemma_has_key(t1, name);
            lemma_has_key(t2, name);
            let i = choose|i: int| 0 <= i < t1.len() && t1[i].0 == name;
            assert(t2[i].0 == name);
            assert(render(call, table) == render_call(call, table));
        },
        _ => {},
    }
}

/// A part of an operation tree that renders to shader text.
pub trait GPUOperation {
    /// The text, and the table of functions afterwards.
    spec fn text(&self, table: Table) -> (Seq<char>, Table);

    fn build(&self, functions: &mut Vec<Named<String>>) -> (r: String)
        ensures
            (r@, table_model(final(functions)@)) == self.text(table_model(old(functions)@)),
    ;
}

impl GPUOperation for Operation {
    open spec fn text(&self, table: Table) -> (Seq<char>, Table) {
        render(*self, table)
    }

    fn build(&self, functions: &mut Vec<Named<String>>) -> (r: String) {
        build(self, functions)
    }
}

impl GPUOperation for Scope {
    open spec fn text(&self, table: Table) -> (Seq<char>, Table) {
        render_scope(*self, table)
    }

    fn build(&self, functions: &mut Vec<Named<String>>) -> (r: String) {
        build_scope(self, functions)
    }
}

impl GPUOperation for Function {
    open spec fn text(&self, table: Table) -> (Seq<char>, Table) {
        render_function(*self, table)
    }

    fn build(&self, functions: &mut Vec<Named<String>>) -> (r: String) {
        build_function(self, functions)
    }
}

/// What compiles to the text of a whole program.
pub trait Compilable {
    /// The text of the program.
    spec fn compiled(&self) -> Seq<char>;

    fn build(&self, compiler: &mut GPUCompiler)
        ensures
            final(compiler).0@ == self.compiled(),
    ;
}

impl Compilable for Scope {
    open spec fn compiled(&self) -> Seq<char> {
        program_text(*self)
    }

    fn build(&self, compiler: &mut GPUCompiler) {
        let done = GPUCompiler::compile(self);
        compiler.0 = done.0;
    }
}

} // verus!
