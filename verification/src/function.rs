//! Compiling a function or an extension: what a kernel can call.
//!
//! A function is called as `name(..)` only; an extension also as
//! `value.name(..)`, and only an extension may yield a record.

use vstd::prelude::*;
use crate::kernel::{
    classify, classify_exec, generic_names, get_memmappable_bounds, inner_generics_idents,
    get_default_structures, is_builtin, memmappable_bounds, named_after, ArgumentKind,
    KernelNames,
};
use crate::lowering::{resolve_kind, resolve_kind_exec, DataType, Env, LowerError, State, Structure};
use crate::operation::{Function, FunctionName, Parameters};
use crate::parse_cpu_function::{cpu_block, ParseCPUfn};
use crate::parse_function::{lower_block, Parsefn};
use crate::parseatt::ParseAttributes;
use crate::syntax::{Block, FnArg, Item, Pat, Path, Type};
use crate::tables::{Keyed, Named};
use crate::types::ValueKind;
use crate::var::Variable;

verus! {

/// What the parameters of a function come to.
pub struct Signature {
    /// The bindings that the body starts with.
    pub vars: Seq<Named<DataType>>,
    /// The record-shaped parameters: the name of the type of each.
    pub records: Seq<Named<String>>,
    /// The parameters as variables, in order.
    pub parameters: Seq<Variable>,
}

/// The kind of the values that a binding holds.
pub open spec fn kind_of_data(data: DataType) -> ValueKind {
    match data {
        DataType::Scalar(kind) => kind,
        DataType::Indexable { element, .. } => element,
    }
}

/// What one parameter of a function adds: a variable of its name, and a
/// binding or the fields of its record type.
pub open spec fn parameter_step(
    generics: Seq<String>,
    structures: Seq<Named<Structure>>,
    s: Signature,
    arg: FnArg,
) -> Result<Signature, LowerError> {
    match arg {
        FnArg::Receiver => Err(LowerError::SelfParameter),
        FnArg::Typed { pat: Pat::Other, .. } => Err(LowerError::UnsupportedPattern),
        FnArg::Typed { pat: Pat::Ident(name), ty } => {
            let inner = match ty {
                Type::Reference { elem, .. } => *elem,
                _ => ty,
            };
            match classify(generics, structures, inner) {
                None => Err(LowerError::UnknownType),
                Some(ArgumentKind::Record(record)) => Ok(
                    Signature {
                        records: s.records.push(Named { name, value: record }),
                        parameters: s.parameters.push(
                            Variable { reference: name, member: None, kind: ValueKind::Void },
                        ),
                        ..s
                    },
                ),
                Some(ArgumentKind::Data(data)) => Ok(
                    Signature {
                        vars: s.vars.push(Named { name, value: data }),
                        parameters: s.parameters.push(
                            Variable { reference: name, member: None, kind: kind_of_data(data) },
                        ),
                        ..s
                    },
                ),
            }
        },
    }
}

/// What the first `n` parameters of a function come to.
pub open spec fn parameters(
    generics: Seq<String>,
    structures: Seq<Named<Structure>>,
    inputs: Seq<FnArg>,
    n: nat,
) -> Result<Signature, LowerError>
    decreases n,
{
    if n == 0 {
        Ok(Signature { vars: Seq::empty(), records: Seq::empty(), parameters: Seq::empty() })
    } else {
        match parameters(generics, structures, inputs, (n - 1) as nat) {
            Err(e) => Err(e),
            Ok(s) => parameter_step(generics, structures, s, inputs[n - 1]),
        }
    }
}

/// Once a run of parameters is rejected, every longer run is rejected the
/// same way.
pub proof fn lemma_parameters_error(
    generics: Seq<String>,
    structures: Seq<Named<Structure>>,
    inputs: Seq<FnArg>,
    n: nat,
    m: nat,
)
    requires
        n <= m,
        parameters(generics, structures, inputs, n) is Err,
    ensures
        parameters(generics, structures, inputs, m) == parameters(generics, structures, inputs, n),
    decreases m,
{
    if n < m {
        lemma_parameters_error(generics, structures, inputs, n, (m - 1) as nat);
    }
}

/// The variables from `from` on as a parameter list.
pub open spec fn parameters_of(variables: Seq<Variable>, from: nat) -> Option<Box<Parameters>>
    decreases variables.len() - from,
{
    if from >= variables.len() {
        None
    } else {
        Some(
            Box::new(
                Parameters {
                    first: variables[from as int],
                    rest: parameters_of(variables, from + 1),
                },
            ),
        )
    }
}

/// The kind that a function yields: none where it declares none, the kind
/// its result type names, and for an extension that yields a record, none.
pub open spec fn result_kind(generics: Seq<String>, output: Option<Type>, is_extension: bool) -> Result<
    ValueKind,
    LowerError,
> {
    match output {
        None => Ok(ValueKind::Void),
        Some(ty) => match resolve_kind(generics, ty) {
            Some(kind) => Ok(kind),
            None => if is_extension {
                Ok(ValueKind::Void)
            } else {
                Err(LowerError::UnknownType)
            },
        },
    }
}

/// The parameters of a function as the walk over its body needs them.
#[derive(Debug, PartialEq, Eq)]
pub struct FunctionInputs {
    pub vars: Vec<Named<DataType>>,
    pub records: Vec<Named<String>>,
    pub parameters: Vec<Variable>,
}

/// Goes through the parameters of a function.
pub fn parameters_exec(
    generics: &Vec<String>,
    structures: &Vec<Named<Structure>>,
    inputs: &Vec<FnArg>,
) -> (r: Result<FunctionInputs, LowerError>)
    ensures
        match parameters(generics@, structures@, inputs@, inputs@.len()) {
            Ok(s) => r matches Ok(k) && k.vars@ == s.vars && k.records@ == s.records
                && k.parameters@ == s.parameters,
            Err(e) => r == Err::<FunctionInputs, LowerError>(e),
        },
{
    let mut vars: Vec<Named<DataType>> = Vec::new();
    let mut records: Vec<Named<String>> = Vec::new();
    let mut found: Vec<Variable> = Vec::new();
    let mut i: usize = 0;
    while i < inputs.len()
        invariant
            i <= inputs.len(),
            parameters(generics@, structures@, inputs@, i as nat) == Ok::<Signature, LowerError>(
                Signature { vars: vars@, records: records@, parameters: found@ },
            ),
        decreases inputs.len() - i,
    {
        proof {
            if parameter_step(
                generics@,
                structures@,
                Signature { vars: vars@, records: records@, parameters: found@ },
                inputs@[i as int],
            ) is Err {
                lemma_parameters_error(
                    generics@,
                    structures@,
                    inputs@,
                    (i + 1) as nat,
                    inputs@.len(),
                );
            }
        }
        match &inputs[i] {
            FnArg::Receiver => {
                return Err(LowerError::SelfParameter);
            },
            FnArg::Typed { pat: Pat::Other, .. } => {
                return Err(LowerError::UnsupportedPattern);
            },
            FnArg::Typed { pat: Pat::Ident(name), ty } => {
                let inner = match ty {
                    Type::Reference { elem, .. } => &**elem,
                    _ => ty,
                };
                match classify_exec(generics, structures, inner) {
                    None => {
                        return Err(LowerError::UnknownType);
                    },
                    Some(ArgumentKind::Record(record)) => {
                        records.push(Named { name: name.clone(), value: record });
                        found.push(
                            Variable {
                                reference: name.clone(),
                                member: None,
                                kind: ValueKind::Void,
                            },
                        );
                    },
                    Some(ArgumentKind::Data(data)) => {
                        vars.push(Named { name: name.clone(), value: data });
                        let kind = match data {
                            DataType::Scalar(kind) => kind,
                            DataType::Indexable { element, .. } => element,
                        };
                        found.push(Variable { reference: name.clone(), member: None, kind });
                    },
                }
            },
        }
        i += 1;
    }
    Ok(FunctionInputs { vars, records, parameters: found })
}

/// The variables as a parameter list.
pub fn parameters_of_exec(variables: &Vec<Variable>) -> (r: Option<Box<Parameters>>)
    ensures
        r == parameters_of(variables@, 0),
{
    let mut rest: Option<Box<Parameters>> = None;
    let mut i: usize = variables.len();
    while i > 0
        invariant
            i <= variables.len(),
            rest == parameters_of(variables@, i as nat),
        decreases i,
    {
        i -= 1;
        rest = Some(Box::new(Parameters { first: variables[i].duplicate(), rest }));
    }
    rest
}

/// A compiled function or extension.
#[derive(Debug, PartialEq, Eq)]
pub struct FunctionDefinition {
    /// The names of the items that belong to the function.
    pub names: KernelNames,
    /// The operation tree, with name and parameters.
    pub function: Function,
    /// Whether it can be called as a method.
    pub extension: bool,
    /// The plain form of the body; an extension has none.
    pub cpu_fn: Option<Block>,
}

/// The function that an annotated item compiles to. The item must be a
/// function without `self` whose generic parameters are types, with at least
/// one and at most eight parameters, of which at most one is a mutable
/// reference. Only an extension may yield a record.
pub open spec fn function_model(
    structures: Seq<Named<Structure>>,
    functions: Seq<Keyed<Path>>,
    extensions: Seq<Keyed<Path>>,
    item: Item,
    definitions: Seq<Keyed<Function>>,
    is_extension: bool,
) -> Result<Function, LowerError> {
    match item {
        Item::Other => Err(LowerError::NotAFunction),
        Item::Fn(f) => match generic_names(f.sig.generics@, f.sig.generics@.len()) {
            None => Err(LowerError::NonTypeGeneric),
            Some(generics) => match memmappable_bounds(f.sig.inputs@, f.sig.inputs@.len()) {
                Err(e) => Err(e),
                Ok(_) => match parameters(
                    generics,
                    structures,
                    f.sig.inputs@,
                    f.sig.inputs@.len(),
                ) {
                    Err(e) => Err(e),
                    Ok(s) => match parameters_of(s.parameters, 0) {
                        None => Err(LowerError::NoInputs),
                        Some(inputs) => if s.parameters.len() > 8 {
                            Err(LowerError::TooManyInputs)
                        } else {
                            match result_kind(generics, f.sig.output, is_extension) {
                                Err(e) => Err(e),
                                Ok(kind) => match lower_block(
                                    Env {
                                        structures,
                                        records: s.records,
                                        generics,
                                        functions,
                                        extensions,
                                        definitions,
                                    },
                                    f.block,
                                    State {
                                        expr_type: Some(ValueKind::Void),
                                        vars: s.vars,
                                        returns_struct: false,
                                    },
                                ) {
                                    Err(e) => Err(e),
                                    Ok((scope, after)) => if after.returns_struct && !is_extension {
                                        Err(LowerError::RecordResult)
                                    } else {
                                        Ok(
                                            Function {
                                                name: FunctionName::Given(f.sig.ident),
                                                kind,
                                                inputs: *inputs,
                                                scope,
                                            },
                                        )
                                    },
                                },
                            }
                        },
                    },
                },
            },
        },
    }
}

/// Whether `r` is what compiling gives where the model is `m`: the same
/// error, or the function of the model with its names and, unless it is an
/// extension, the plain form of its body.
pub open spec fn function_is(
    m: Result<Function, LowerError>,
    functions: Seq<Keyed<Path>>,
    item: Item,
    is_extension: bool,
    r: Result<FunctionDefinition, LowerError>,
) -> bool {
    match m {
        Err(e) => r == Err::<FunctionDefinition, LowerError>(e),
        Ok(m) => {
            &&& r matches Ok(d)
            &&& d.function == m
            &&& d.extension == is_extension
            &&& item matches Item::Fn(f) && named_after(d.names, f.sig.ident@)
            &&& if is_extension {
                d.cpu_fn is None
            } else {
                item matches Item::Fn(f) && (d.cpu_fn matches Some(b) && cpu_block(
                    functions,
                    f.block,
                    b,
                ))
            }
        },
    }
}

/// Compiles a function, or an extension where `is_extension` is set, from
/// the tables of its attribute, the item it is attached to, and the functions
/// that its calls can resolve to. The records it knows are the built-in
/// position record and, after it, those of the attribute.
pub fn function(
    attributes: ParseAttributes,
    item: &Item,
    definitions: Vec<Keyed<Function>>,
    is_extension: bool,
) -> (r: Result<FunctionDefinition, LowerError>)
    ensures
        exists|builtin: Seq<Named<Structure>>| #[trigger]
            is_builtin(builtin) && function_is(
                function_model(
                    builtin + attributes.structures@,
                    attributes.normal_functions@,
                    attributes.replace_functions@,
                    *item,
                    definitions@,
                    is_extension,
                ),
                attributes.normal_functions@,
                *item,
                is_extension,
                r,
            ),
{
    let mut structures = get_default_structures();
    let ghost builtin = structures@;
    let mut declared = attributes.structures;
    structures.append(&mut declared);
    assert(is_builtin(builtin));
    compile_function(
        structures,
        attributes.normal_functions,
        attributes.replace_functions,
        item,
        definitions,
        is_extension,
    )
}

/// Compiles a function that knows the records `structures`.
fn compile_function(
    structures: Vec<Named<Structure>>,
    functions: Vec<Keyed<Path>>,
    extensions: Vec<Keyed<Path>>,
    item: &Item,
    definitions: Vec<Keyed<Function>>,
    is_extension: bool,
) -> (r: Result<FunctionDefinition, LowerError>)
    ensures
        function_is(
            function_model(
                structures@,
                functions@,
                extensions@,
                *item,
                definitions@,
                is_extension,
            ),
            functions@,
            *item,
            is_extension,
            r,
        ),
{
    match item {
        Item::Other => Err(LowerError::NotAFunction),
        Item::Fn(f) => {
            let generics = inner_generics_idents(&f.sig.generics)?;
            get_memmappable_bounds(&f.sig.inputs)?;
            let collected = parameters_exec(&generics, &structures, &f.sig.inputs)?;
            let inputs = match parameters_of_exec(&collected.parameters) {
                None => {
                    return Err(LowerError::NoInputs);
                },
                Some(inputs) => inputs,
            };
            if collected.parameters.len() > 8 {
                return Err(LowerError::TooManyInputs);
            }
            let kind = match &f.sig.output {
                None => ValueKind::Void,
                Some(ty) => match resolve_kind_exec(&generics, ty) {
                    Some(kind) => kind,
                    None => {
                        if is_extension {
                            ValueKind::Void
                        } else {
                            return Err(LowerError::UnknownType);
                        }
                    },
                },
            };
            let mut p = Parsefn {
                expr_type: Some(ValueKind::Void),
                vars: collected.vars,
                known_structures: structures,
                known_records: collected.records,
                known_generics: generics,
                returns_struct: false,
                known_functions: functions,
                known_extensions: extensions,
                definitions,
            };
            let scope = p.fold_block(&f.block)?;
            if p.returns_struct && !is_extension {
                return Err(LowerError::RecordResult);
            }
            let cpu_fn = if is_extension {
                None
            } else {
                let cpu = ParseCPUfn { known_functions: p.known_functions };
                Some(cpu.fold_block(&f.block))
            };
            Ok(
                FunctionDefinition {
                    names: KernelNames::new(f.sig.ident.as_str()),
                    function: Function {
                        name: FunctionName::Given(f.sig.ident.clone()),
                        kind,
                        inputs: *inputs,
                        scope,
                    },
                    extension: is_extension,
                    cpu_fn,
                },
            )
        },
    }
}

} // verus!
