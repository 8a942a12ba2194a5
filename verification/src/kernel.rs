//! Compiling a kernel: an annotated function becomes a program that holds
//! the operation tree of its body, the plain form of the body, and a
//! description of its inputs and of its output.

use vstd::prelude::*;
use crate::lowering::{resolve_kind, resolve_kind_exec, DataType, Env, LowerError, State, Structure};
use crate::operation::{Container, Function, Scope};
use crate::parse_cpu_function::{cpu_block, same_type, types_match, ParseCPUfn};
use crate::parse_function::{lower_block, Parsefn};
use crate::parseatt::{structures_model, ParseAttributes};
use crate::syntax::{Block, FnArg, GenericParam, Item, Pat, Path, Type};
use crate::tables::{find_named, position_named, Keyed, Named};
use crate::text::is_word;
use crate::types::ValueKind;

verus! {

/// What a parameter stands for.
pub enum ArgumentKind {
    /// A record-shaped value of the type of this name.
    Record(String),
    Data(DataType),
}

/// The container that a type name stands for.
pub open spec fn container_named(name: Seq<char>) -> Option<Container> {
    if name == "Vec"@ {
        Some(Container::Vector)
    } else if name == "Tensor"@ {
        Some(Container::Tensor)
    } else {
        None
    }
}

/// What a type of a parameter stands for: a known record type, a scalar or a
/// type parameter, or a container of one of these.
pub open spec fn classify(
    generics: Seq<String>,
    structures: Seq<Named<Structure>>,
    ty: Type,
) -> Option<ArgumentKind> {
    match ty {
        Type::Path(path, arguments) => match path.ident() {
            None => None,
            Some(name) => if arguments@.len() == 0 {
                if find_named(structures, name@) is Some {
                    Some(ArgumentKind::Record(name))
                } else {
                    match resolve_kind(generics, ty) {
                        Some(kind) => Some(ArgumentKind::Data(DataType::Scalar(kind))),
                        None => None,
                    }
                }
            } else if arguments@.len() == 1 {
                match (container_named(name@), resolve_kind(generics, arguments@[0])) {
                    (Some(container), Some(element)) => Some(
                        ArgumentKind::Data(DataType::Indexable { element, container }),
                    ),
                    _ => None,
                }
            } else {
                None
            },
        },
        _ => None,
    }
}

pub fn classify_exec(generics: &Vec<String>, structures: &Vec<Named<Structure>>, ty: &Type) -> (r:
    Option<ArgumentKind>)
    ensures
        r == classify(generics@, structures@, *ty),
{
    match ty {
        Type::Path(path, arguments) => match path.get_ident() {
            None => None,
            Some(name) => {
                if arguments.len() == 0 {
                    if position_named(structures, name).is_some() {
                        Some(ArgumentKind::Record(name.clone()))
                    } else {
                        match resolve_kind_exec(generics, ty) {
                            Some(kind) => Some(ArgumentKind::Data(DataType::Scalar(kind))),
                            None => None,
                        }
                    }
                } else if arguments.len() == 1 {
                    let container = if is_word(name, "Vec") {
                        Some(Container::Vector)
                    } else if is_word(name, "Tensor") {
                        Some(Container::Tensor)
                    } else {
                        None
                    };
                    match (container, resolve_kind_exec(generics, &arguments[0])) {
                        (Some(container), Some(element)) => Some(
                            ArgumentKind::Data(DataType::Indexable { element, container }),
                        ),
                        _ => None,
                    }
                } else {
                    None
                }
            },
        },
        _ => None,
    }
}

/// The names of the first `n` generic parameters, where each is a type
/// parameter.
pub open spec fn generic_names(generics: Seq<GenericParam>, n: nat) -> Option<Seq<String>>
    decreases n,
{
    if n == 0 {
        Some(Seq::empty())
    } else {
        match (generic_names(generics, (n - 1) as nat), generics[n - 1]) {
            (Some(names), GenericParam::Type(name)) => Some(names.push(name)),
            _ => None,
        }
    }
}

/// Once a generic parameter is no type parameter, no longer run of them has
/// names.
pub proof fn lemma_generic_names_none(generics: Seq<GenericParam>, n: nat, m: nat)
    requires
        n <= m,
        generic_names(generics, n) is None,
    ensures
        generic_names(generics, m) is None,
    decreases m,
{
    if n < m {
        lemma_generic_names_none(generics, n, (m - 1) as nat);
    }
}

/// The names of the type parameters. Lifetime and const parameters are not
/// supported.
pub fn inner_generics_idents(generics: &Vec<GenericParam>) -> (r: Result<Vec<String>, LowerError>)
    ensures
        match generic_names(generics@, generics@.len()) {
            Some(names) => r matches Ok(v) && v@ == names,
            None => r == Err::<Vec<String>, LowerError>(LowerError::NonTypeGeneric),
        },
{
    let mut names: Vec<String> = Vec::new();
    let mut i: usize = 0;
    while i < generics.len()
        invariant
            i <= generics.len(),
            generic_names(generics@, i as nat) == Some(names@),
        decreases generics.len() - i,
    {
        match &generics[i] {
            GenericParam::Type(name) => {
                names.push(name.clone());
            },
            _ => {
                proof {
                    lemma_generic_names_none(generics@, (i + 1) as nat, generics@.len());
                }
                return Err(LowerError::NonTypeGeneric);
            },
        }
        i += 1;
    }
    Ok(names)
}

/// Whether the records are the one that every kernel and function knows
/// without declaring it: `Pos`, the position in the grid, with the fields
/// `x`, `y` and `z`, each a `u32`.
pub open spec fn is_builtin(structures: Seq<Named<Structure>>) -> bool {
    structures_model(structures) == seq![
        ("Pos"@, seq![("x"@, "u32"@), ("y"@, "u32"@), ("z"@, "u32"@)]),
    ]
}

/// The record type that every kernel knows: the position in the grid.
pub fn get_default_structures() -> (r: Vec<Named<Structure>>)
    ensures
        is_builtin(r@),
{
    let mut fields: Structure = Vec::new();
    fields.push(Named { name: "x".to_owned(), value: "u32".to_owned() });
    fields.push(Named { name: "y".to_owned(), value: "u32".to_owned() });
    fields.push(Named { name: "z".to_owned(), value: "u32".to_owned() });
    let mut structures: Vec<Named<Structure>> = Vec::new();
    structures.push(Named { name: "Pos".to_owned(), value: fields });
    assert(crate::parseatt::fields_model(structures@[0].value@) =~= seq![
        ("x"@, "u32"@),
        ("y"@, "u32"@),
        ("z"@, "u32"@),
    ]);
    assert(structures_model(structures@) =~= seq![
        ("Pos"@, seq![("x"@, "u32"@), ("y"@, "u32"@), ("z"@, "u32"@)]),
    ]);
    structures
}

/// The type that a parameter refers to, where it is a reference.
pub open spec fn reference_elem(arg: FnArg) -> Option<Type> {
    match arg {
        FnArg::Typed { ty: Type::Reference { elem, .. }, .. } => Some(*elem),
        _ => None,
    }
}

/// Whether the parameter refers to a type that reads like `ty`.
pub open spec fn refers_to(arg: FnArg, ty: Type) -> bool {
    match reference_elem(arg) {
        Some(t) => same_type(t, ty),
        None => false,
    }
}

/// Whether a parameter before the one at `i` refers to a type that reads
/// like `ty`.
pub open spec fn seen_before(inputs: Seq<FnArg>, i: int, ty: Type) -> bool {
    exists|j: int| 0 <= j < i && #[trigger] refers_to(inputs[j], ty)
}

/// The storage bounds of the first `n` parameters: the places of the
/// parameters that refer to a type which no earlier parameter refers to, and
/// whether one of them is mutable.
pub open spec fn memmappable_bounds(inputs: Seq<FnArg>, n: nat) -> Result<
    (Seq<usize>, bool),
    LowerError,
>
    decreases n,
{
    if n == 0 {
        Ok((Seq::empty(), false))
    } else {
        match memmappable_bounds(inputs, (n - 1) as nat) {
            Err(e) => Err(e),
            Ok((unique, has_mut)) => match inputs[n - 1] {
                FnArg::Typed { ty: Type::Reference { mutable, elem }, .. } => if mutable && has_mut {
                    Err(LowerError::MultipleMutable)
                } else {
                    match *elem {
                        Type::Path(_, _) => Ok(
                            (
                                if seen_before(inputs, n - 1, *elem) {
                                    unique
                                } else {
                                    unique.push((n - 1) as usize)
                                },
                                has_mut || mutable,
                            ),
                        ),
                        _ => Err(LowerError::UnsupportedArgument),
                    }
                },
                _ => Ok((unique, has_mut)),
            },
        }
    }
}

/// Once the bounds of a run of parameters fail, those of every longer run
/// fail the same way.
pub proof fn lemma_bounds_error(inputs: Seq<FnArg>, n: nat, m: nat)
    requires
        n <= m,
        memmappable_bounds(inputs, n) is Err,
    ensures
        memmappable_bounds(inputs, m) == memmappable_bounds(inputs, n),
    decreases m,
{
    if n < m {
        lemma_bounds_error(inputs, n, (m - 1) as nat);
    }
}

/// Whether a parameter before the one at `i` refers to a type that reads
/// like `ty`.
pub fn seen_before_exec(inputs: &Vec<FnArg>, i: usize, ty: &Type) -> (r: bool)
    requires
        i <= inputs.len(),
    ensures
        r == seen_before(inputs@, i as int, *ty),
{
    let mut j: usize = 0;
    while j < i
        invariant
            j <= i,
            i <= inputs.len(),
            !seen_before(inputs@, j as int, *ty),
        decreases i - j,
    {
        match &inputs[j] {
            FnArg::Typed { ty: Type::Reference { elem, .. }, .. } => {
                if types_match(elem, ty) {
                    assert(refers_to(inputs@[j as int], *ty));
                    return true;
                }
            },
            _ => {},
        }
        assert(!seen_before(inputs@, j + 1, *ty)) by {
            if seen_before(inputs@, j + 1, *ty) {
                let k = choose|k: int| 0 <= k < j + 1 && #[trigger] refers_to(inputs@[k], *ty);
                if k < j {
                    assert(seen_before(inputs@, j as int, *ty));
                }
            }
        }
        j += 1;
    }
    false
}

/// The parameters whose types need a mapping into storage: each type that
/// is referred to, once. At most one parameter may be a mutable reference.
pub fn get_memmappable_bounds(inputs: &Vec<FnArg>) -> (r: Result<Vec<usize>, LowerError>)
    ensures
        match memmappable_bounds(inputs@, inputs@.len()) {
            Ok((unique, _)) => r matches Ok(v) && v@ == unique,
            Err(e) => r == Err::<Vec<usize>, LowerError>(e),
        },
{
    let mut unique: Vec<usize> = Vec::new();
    let mut has_mut = false;
    let mut i: usize = 0;
    while i < inputs.len()
        invariant
            i <= inputs.len(),
            memmappable_bounds(inputs@, i as nat) == Ok::<(Seq<usize>, bool), LowerError>(
                (unique@, has_mut),
            ),
        decreases inputs.len() - i,
    {
        match &inputs[i] {
            FnArg::Typed { ty: Type::Reference { mutable, elem }, .. } => {
                if *mutable && has_mut {
                    proof {
                        lemma_bounds_error(inputs@, (i + 1) as nat, inputs@.len());
                    }
                    return Err(LowerError::MultipleMutable);
                }
                match &**elem {
                    Type::Path(_, _) => {
                        if !seen_before_exec(inputs, i, elem) {
                            unique.push(i);
                        }
                        has_mut = has_mut || *mutable;
                    },
                    _ => {
                        proof {
                            lemma_bounds_error(inputs@, (i + 1) as nat, inputs@.len());
                        }
                        return Err(LowerError::UnsupportedArgument);
                    },
                }
            },
            _ => {},
        }
        i += 1;
    }
    Ok(unique)
}

/// One parameter that is passed by reference: which of the distinct types
/// it refers to, and whether it is written to.
#[derive(Clone, Copy, Debug, PartialEq, Eq, Structural)]
pub struct MemInput {
    pub generic: usize,
    pub mutable: bool,
}

/// The parameters of a kernel as storage sees them.
#[derive(Debug, PartialEq, Eq)]
pub struct MemGenerics {
    /// The place of the parameter that takes the position in the grid.
    pub position: Option<usize>,
    /// The places of the parameters that refer to a type for the first time.
    pub unique: Vec<usize>,
    /// The parameters that are passed by reference, in order.
    pub inputs: Vec<MemInput>,
}

/// [`MemGenerics`] as plain values, with whether a parameter is written to.
pub struct MemModel {
    pub position: Option<usize>,
    pub has_mut: bool,
    pub unique: Seq<usize>,
    pub inputs: Seq<MemInput>,
}

/// The place in `unique`, from `k` on, of the parameter that refers to a
/// type which reads like `ty`.
pub open spec fn find_type(inputs: Seq<FnArg>, unique: Seq<usize>, ty: Type, k: nat) -> Option<
    usize,
>
    decreases unique.len() - k,
{
    if k >= unique.len() {
        None
    } else if unique[k as int] < inputs.len() && refers_to(inputs[unique[k as int] as int], ty) {
        Some(k as usize)
    } else {
        find_type(inputs, unique, ty, k + 1)
    }
}

/// What the parameter at `i` adds. A parameter that is no reference must be
/// the position in the grid; at most one reference may be mutable.
pub open spec fn mem_step(inputs: Seq<FnArg>, m: MemModel, i: int) -> Result<MemModel, LowerError> {
    match inputs[i] {
        FnArg::Receiver => Err(LowerError::SelfParameter),
        FnArg::Typed { ty, .. } => match ty {
            Type::Path(path, _) => if path.segments@.len() > 0 && path.segments@.last()@ == "Pos"@ {
                Ok(MemModel { position: Some(i as usize), ..m })
            } else {
                Err(LowerError::UnsupportedArgument)
            },
            Type::Reference { mutable, elem } => if mutable && m.has_mut {
                Err(LowerError::MultipleMutable)
            } else {
                match *elem {
                    Type::Path(_, _) => match find_type(inputs, m.unique, *elem, 0) {
                        Some(generic) => Ok(
                            MemModel {
                                has_mut: m.has_mut || mutable,
                                inputs: m.inputs.push(MemInput { generic, mutable }),
                                ..m
                            },
                        ),
                        None => Ok(
                            MemModel {
                                has_mut: m.has_mut || mutable,
                                unique: m.unique.push(i as usize),
                                inputs: m.inputs.push(
                                    MemInput { generic: m.unique.len() as usize, mutable },
                                ),
                                ..m
                            },
                        ),
                    },
                    _ => Err(LowerError::UnsupportedArgument),
                }
            },
            Type::Other => Err(LowerError::UnsupportedArgument),
        },
    }
}

/// The first `n` parameters as storage sees them.
pub open spec fn mem_generics(inputs: Seq<FnArg>, n: nat) -> Result<MemModel, LowerError>
    decreases n,
{
    if n == 0 {
        Ok(
            MemModel {
                position: None,
                has_mut: false,
                unique: Seq::empty(),
                inputs: Seq::empty(),
            },
        )
    } else {
        match mem_generics(inputs, (n - 1) as nat) {
            Err(e) => Err(e),
            Ok(m) => mem_step(inputs, m, n - 1),
        }
    }
}

/// Once a run of parameters is rejected, every longer run is rejected the
/// same way.
pub proof fn lemma_mem_generics_error(inputs: Seq<FnArg>, n: nat, m: nat)
    requires
        n <= m,
        mem_generics(inputs, n) is Err,
    ensures
        mem_generics(inputs, m) == mem_generics(inputs, n),
    decreases m,
{
    if n < m {
        lemma_mem_generics_error(inputs, n, (m - 1) as nat);
    }
}

/// Finds, from `k` on, the distinct type that reads like `ty`.
pub fn find_type_exec(inputs: &Vec<FnArg>, unique: &Vec<usize>, ty: &Type, k: usize) -> (r: Option<
    usize,
>)
    ensures
        r == find_type(inputs@, unique@, *ty, k as nat),
    decreases unique.len() - k,
{
    if k >= unique.len() {
        return None;
    }
    let at = unique[k];
    if at < inputs.len() {
        match &inputs[at] {
            FnArg::Typed { ty: Type::Reference { elem, .. }, .. } => {
                if types_match(elem, ty) {
                    return Some(k);
                }
            },
            _ => {},
        }
    }
    find_type_exec(inputs, unique, ty, k + 1)
}

/// The parameters of a kernel as storage sees them: the parameter that takes
/// the position, and for each reference the distinct type it refers to.
pub fn get_mem_generics_and_types(inputs: &Vec<FnArg>) -> (r: Result<MemGenerics, LowerError>)
    ensures
        match mem_generics(inputs@, inputs@.len()) {
            Ok(m) => r matches Ok(g) && g.position == m.position && g.unique@ == m.unique
                && g.inputs@ == m.inputs,
            Err(e) => r == Err::<MemGenerics, LowerError>(e),
        },
{
    let mut position: Option<usize> = None;
    let mut has_mut = false;
    let mut unique: Vec<usize> = Vec::new();
    let mut found: Vec<MemInput> = Vec::new();
    let mut i: usize = 0;
    while i < inputs.len()
        invariant
            i <= inputs.len(),
            mem_generics(inputs@, i as nat) == Ok::<MemModel, LowerError>(
                MemModel { position, has_mut, unique: unique@, inputs: found@ },
            ),
        decreases inputs.len() - i,
    {
        proof {
            if mem_step(
                inputs@,
                MemModel { position, has_mut, unique: unique@, inputs: found@ },
                i as int,
            ) is Err {
                lemma_mem_generics_error(inputs@, (i + 1) as nat, inputs@.len());
            }
        }
        match &inputs[i] {
            FnArg::Receiver => {
                return Err(LowerError::SelfParameter);
            },
            FnArg::Typed { ty, .. } => match ty {
                Type::Path(path, _) => {
                    let n = path.segments.len();
                    if n > 0 && is_word(&path.segments[n - 1], "Pos") {
                        position = Some(i);
                    } else {
                        return Err(LowerError::UnsupportedArgument);
                    }
                },
                Type::Reference { mutable, elem } => {
                    if *mutable && has_mut {
                        return Err(LowerError::MultipleMutable);
                    }
                    match &**elem {
                        Type::Path(_, _) => {
                            match find_type_exec(inputs, &unique, elem, 0) {
                                Some(generic) => {
                                    found.push(MemInput { generic, mutable: *mutable });
                                },
                                None => {
                                    found.push(
                                        MemInput { generic: unique.len(), mutable: *mutable },
                                    );
                                    unique.push(i);
                                },
                            }
                            has_mut = has_mut || *mutable;
                        },
                        _ => {
                            return Err(LowerError::UnsupportedArgument);
                        },
                    }
                },
                Type::Other => {
                    return Err(LowerError::UnsupportedArgument);
                },
            },
        }
        i += 1;
    }
    Ok(MemGenerics { position, unique, inputs: found })
}

/// What `convert_case` makes of a name in upper camel case.
pub uninterp spec fn upper_camel(name: Seq<char>) -> Seq<char>;

/// Calls `convert_case::Casing::to_case` with `Case::UpperCamel`: the name in
/// upper camel case.
#[verifier::external_body]
fn to_upper_camel(name: &str) -> (r: String)
    ensures
        r@ == upper_camel(name@),
{
    convert_case::Casing::to_case(&name, convert_case::Case::UpperCamel)
}

/// The names of the items that belong to a kernel.
#[derive(Debug, PartialEq, Eq)]
pub struct KernelNames {
    /// The program itself.
    pub function_struct: String,
    /// The plain function that runs for each cell.
    pub cpu_fn: String,
    /// The bindings of its inputs and output.
    pub inputs: String,
    /// The operation tree.
    pub program: String,
}

/// Whether the names are those that belong to `ident`: its name in upper
/// camel case, alone and followed by `CPUFn`, `Inputs` and `Programm`.
pub open spec fn named_after(names: KernelNames, ident: Seq<char>) -> bool {
    &&& names.function_struct@ == upper_camel(ident)
    &&& names.cpu_fn@ == upper_camel(ident) + "CPUFn"@
    &&& names.inputs@ == upper_camel(ident) + "Inputs"@
    &&& names.program@ == upper_camel(ident) + "Programm"@
}

impl KernelNames {
    /// The names that belong to the kernel or function `ident`.
    pub fn new(ident: &str) -> (r: KernelNames)
        ensures
            named_after(r, ident@),
    {
        let base = to_upper_camel(ident);
        KernelNames {
            cpu_fn: base.clone().concat("CPUFn"),
            inputs: base.clone().concat("Inputs"),
            program: base.clone().concat("Programm"),
            function_struct: base,
        }
    }
}

/// What is bound to a parameter.
#[derive(Clone, Copy, Debug, PartialEq, Eq, Structural)]
pub enum Bound {
    Data(DataType),
    /// A record-shaped value; its fields are known by its type.
    Record,
}

/// An input or the output of a kernel, as a binder sees it.
#[derive(Debug, PartialEq, Eq)]
pub struct InputDescriptor {
    pub name: String,
    /// The place among the inputs; zero for the output.
    pub position: u8,
    pub data: Bound,
    pub output: bool,
}

/// Whether the layout is that of what is bound.
pub open spec fn describes_bound(
    layout: crate::allocated::MemoryLayoutDescriptor,
    bound: Bound,
) -> bool {
    match bound {
        Bound::Data(data) => crate::allocated::describes(layout, data),
        Bound::Record => layout is Empty,
    }
}

/// What the parameters of a kernel come to.
pub struct Collected {
    /// The bindings that the body starts with.
    pub vars: Seq<Named<DataType>>,
    /// The record-shaped parameters: the name of the type of each.
    pub records: Seq<Named<String>>,
    pub descriptors: Seq<InputDescriptor>,
    /// How many inputs there are.
    pub positions: nat,
    /// How many parameters are written to.
    pub outputs: nat,
}

/// The parameters with one more that is bound by the caller: the next
/// input, or the output where it is mutable.
pub open spec fn with_bound(c: Collected, name: String, data: Bound, mutable: bool) -> Collected {
    Collected {
        descriptors: c.descriptors.push(
            InputDescriptor {
                name,
                position: if mutable {
                    0u8
                } else {
                    c.positions as u8
                },
                data,
                output: mutable,
            },
        ),
        positions: if mutable {
            c.positions
        } else {
            c.positions + 1
        },
        outputs: if mutable {
            c.outputs + 1
        } else {
            c.outputs
        },
        ..c
    }
}

/// What one parameter of a kernel adds. A record-shaped parameter is known
/// by its fields; a shared reference is the next input; a mutable reference
/// is the output.
pub open spec fn collect_step(
    generics: Seq<String>,
    structures: Seq<Named<Structure>>,
    c: Collected,
    arg: FnArg,
) -> Result<Collected, LowerError> {
    match arg {
        FnArg::Receiver => Err(LowerError::SelfParameter),
        FnArg::Typed { pat: Pat::Other, .. } => Err(LowerError::UnsupportedPattern),
        FnArg::Typed { pat: Pat::Ident(name), ty } => {
            let (inner, by_reference, mutable) = match ty {
                Type::Reference { mutable, elem } => (*elem, true, mutable),
                _ => (ty, false, false),
            };
            match classify(generics, structures, inner) {
                None => Err(LowerError::UnknownType),
                Some(kind) => if by_reference && !mutable && c.positions > u8::MAX {
                    Err(LowerError::TooManyInputs)
                } else {
                    match kind {
                        ArgumentKind::Record(record) => {
                            let known = Collected {
                                records: c.records.push(Named { name, value: record }),
                                ..c
                            };
                            if by_reference {
                                Ok(with_bound(known, name, Bound::Record, mutable))
                            } else {
                                Ok(known)
                            }
                        },
                        ArgumentKind::Data(data) => if !by_reference {
                            Err(LowerError::UnsupportedArgument)
                        } else {
                            Ok(
                                with_bound(
                                    Collected {
                                        vars: c.vars.push(Named { name, value: data }),
                                        ..c
                                    },
                                    name,
                                    Bound::Data(data),
                                    mutable,
                                ),
                            )
                        },
                    }
                },
            }
        },
    }
}

/// What the first `n` parameters of a kernel come to.
pub open spec fn collect_inputs(
    generics: Seq<String>,
    structures: Seq<Named<Structure>>,
    inputs: Seq<FnArg>,
    n: nat,
) -> Result<Collected, LowerError>
    decreases n,
{
    if n == 0 {
        Ok(
            Collected {
                vars: Seq::empty(),
                records: Seq::empty(),
                descriptors: Seq::empty(),
                positions: 0,
                outputs: 0,
            },
        )
    } else {
        match collect_inputs(generics, structures, inputs, (n - 1) as nat) {
            Err(e) => Err(e),
            Ok(c) => collect_step(generics, structures, c, inputs[n - 1]),
        }
    }
}

/// Once a run of parameters is rejected, every longer run is rejected the
/// same way.
pub proof fn lemma_collect_error(
    generics: Seq<String>,
    structures: Seq<Named<Structure>>,
    inputs: Seq<FnArg>,
    n: nat,
    m: nat,
)
    requires
        n <= m,
        collect_inputs(generics, structures, inputs, n) is Err,
    ensures
        collect_inputs(generics, structures, inputs, m) == collect_inputs(
            generics,
            structures,
            inputs,
            n,
        ),
    decreases m,
{
    if n < m {
        lemma_collect_error(generics, structures, inputs, n, (m - 1) as nat);
    }
}

/// The parameters of a kernel as the walk over its body and a binder need
/// them.
#[derive(Debug, PartialEq, Eq)]
pub struct KernelInputs {
    pub vars: Vec<Named<DataType>>,
    pub records: Vec<Named<String>>,
    pub descriptors: Vec<InputDescriptor>,
    pub outputs: usize,
}

/// Goes through the parameters of a kernel.
pub fn collect_inputs_exec(
    generics: &Vec<String>,
    structures: &Vec<Named<Structure>>,
    inputs: &Vec<FnArg>,
) -> (r: Result<KernelInputs, LowerError>)
    ensures
        match collect_inputs(generics@, structures@, inputs@, inputs@.len()) {
            Ok(c) => r matches Ok(k) && k.vars@ == c.vars && k.records@ == c.records
                && k.descriptors@ == c.descriptors && k.outputs == c.outputs,
            Err(e) => r == Err::<KernelInputs, LowerError>(e),
        },
{
    let mut vars: Vec<Named<DataType>> = Vec::new();
    let mut records: Vec<Named<String>> = Vec::new();
    let mut descriptors: Vec<InputDescriptor> = Vec::new();
    let mut positions: usize = 0;
    let mut outputs: usize = 0;
    let mut i: usize = 0;
    while i < inputs.len()
        invariant
            i <= inputs.len(),
            positions <= i,
            outputs <= i,
            collect_inputs(generics@, structures@, inputs@, i as nat) == Ok::<
                Collected,
                LowerError,
            >(
                Collected {
                    vars: vars@,
                    records: records@,
                    descriptors: descriptors@,
                    positions: positions as nat,
                    outputs: outputs as nat,
                },
            ),
        decreases inputs.len() - i,
    {
        proof {
            if collect_step(
                generics@,
                structures@,
                Collected {
                    vars: vars@,
                    records: records@,
                    descriptors: descriptors@,
                    positions: positions as nat,
                    outputs: outputs as nat,
                },
                inputs@[i as int],
            ) is Err {
                lemma_collect_error(
                    generics@,
                    structures@,
                    inputs@,
                    (i + 1) as nat,
                    inputs@.len(),
                );
            }
        }
        match &inputs[i] {
            FnArg::Receiver => {
                return Err(LowerError::SelfParameter);
            },
            FnArg::Typed { pat: Pat::Other, .. } => {
                return Err(LowerError::UnsupportedPattern);
            },
            FnArg::Typed { pat: Pat::Ident(name), ty } => {
                let (inner, by_reference, mutable) = match ty {
                    Type::Reference { mutable, elem } => (&**elem, true, *mutable),
                    _ => (ty, false, false),
                };
                let kind = match classify_exec(generics, structures, inner) {
                    None => {
                        return Err(LowerError::UnknownType);
                    },
                    Some(kind) => kind,
                };
                if by_reference && !mutable && positions > 255 {
                    return Err(LowerError::TooManyInputs);
                }
                let bound = match kind {
                    ArgumentKind::Record(record) => {
                        records.push(Named { name: name.clone(), value: record });
                        Bound::Record
                    },
                    ArgumentKind::Data(data) => {
                        if !by_reference {
                            return Err(LowerError::UnsupportedArgument);
                        }
                        vars.push(Named { name: name.clone(), value: data });
                        Bound::Data(data)
                    },
                };
                if by_reference {
                    descriptors.push(
                        InputDescriptor {
                            name: name.clone(),
                            position: if mutable {
                                0u8
                            } else {
                                positions as u8
                            },
                            data: bound,
                            output: mutable,
                        },
                    );
                    if mutable {
                        outputs += 1;
                    } else {
                        positions += 1;
                    }
                }
            },
        }
        i += 1;
    }
    Ok(KernelInputs { vars, records, descriptors, outputs })
}

/// A compiled kernel.
#[derive(Debug, PartialEq, Eq)]
pub struct Kernel {
    pub name: String,
    pub names: KernelNames,
    /// The type parameters.
    pub generics: Vec<String>,
    /// The inputs and the output, as they are bound.
    pub inputs: Vec<InputDescriptor>,
    /// The parameters that refer to a type for the first time: what storage
    /// has to map.
    pub bounds: Vec<usize>,
    /// The parameter that takes the position in the grid, if there is one.
    pub position: Option<usize>,
    /// The operation tree of the body.
    pub main: Scope,
    /// The plain form of the body.
    pub cpu_fn: Block,
}

/// An input or the output of a kernel with the layout of what it holds.
#[derive(Debug, PartialEq, Eq)]
pub struct BoundLayout {
    pub name: String,
    /// The place among the inputs; zero for the output.
    pub position: u8,
    pub layout: crate::allocated::MemoryLayoutDescriptor,
    pub output: bool,
}

impl Kernel {
    /// The inputs and the output by name, each with its place and the layout
    /// of what it holds.
    pub fn get_layouts(&self) -> (r: Vec<BoundLayout>)
        ensures
            r.len() == self.inputs.len(),
            forall|i: int|
                0 <= i < r.len() ==> (#[trigger] r[i]).name == self.inputs[i].name && r[i].position
                    == self.inputs[i].position && r[i].output == self.inputs[i].output
                    && describes_bound(r[i].layout, self.inputs[i].data),
    {
        let mut layouts: Vec<BoundLayout> = Vec::new();
        let mut i: usize = 0;
        while i < self.inputs.len()
            invariant
                i <= self.inputs.len(),
                layouts.len() == i,
                forall|k: int|
                    0 <= k < i ==> (#[trigger] layouts[k]).name == self.inputs[k].name
                        && layouts[k].position == self.inputs[k].position && layouts[k].output
                        == self.inputs[k].output && describes_bound(
                        layouts[k].layout,
                        self.inputs[k].data,
                    ),
            decreases self.inputs.len() - i,
        {
            layouts.push(
                BoundLayout {
                    name: self.inputs[i].name.clone(),
                    position: self.inputs[i].position,
                    layout: match self.inputs[i].data {
                        Bound::Data(data) => crate::allocated::MemoryLayoutDescriptor::of_data(
                            data,
                        ),
                        Bound::Record => crate::allocated::MemoryLayoutDescriptor::Empty,
                    },
                    output: self.inputs[i].output,
                },
            );
            i += 1;
        }
        layouts
    }
}

/// What a kernel is made of, as far as the text of the function decides it.
pub struct KernelModel {
    pub name: String,
    pub generics: Seq<String>,
    pub inputs: Seq<InputDescriptor>,
    pub bounds: Seq<usize>,
    pub position: Option<usize>,
    pub main: Scope,
}

/// The kernel that an annotated item compiles to. The item must be a
/// function without `self` whose generic parameters are types. A parameter
/// that is no reference must be the position in the grid; shared references
/// are the inputs, in order; exactly one mutable reference is the output. The
/// body must lower to a scope that yields nothing and holds no record.
pub open spec fn kernel_model(
    structures: Seq<Named<Structure>>,
    functions: Seq<Keyed<Path>>,
    extensions: Seq<Keyed<Path>>,
    item: Item,
    definitions: Seq<Keyed<Function>>,
) -> Result<KernelModel, LowerError> {
    match item {
        Item::Other => Err(LowerError::NotAFunction),
        Item::Fn(f) => match generic_names(f.sig.generics@, f.sig.generics@.len()) {
            None => Err(LowerError::NonTypeGeneric),
            Some(generics) => match mem_generics(f.sig.inputs@, f.sig.inputs@.len()) {
                Err(e) => Err(e),
                Ok(storage) => match memmappable_bounds(f.sig.inputs@, f.sig.inputs@.len()) {
                    Err(e) => Err(e),
                    Ok((bounds, _)) => match collect_inputs(
                        generics,
                        structures,
                        f.sig.inputs@,
                        f.sig.inputs@.len(),
                    ) {
                        Err(e) => Err(e),
                        Ok(c) => if c.outputs != 1 {
                            Err(LowerError::MissingOutput)
                        } else if f.sig.output is Some {
                            Err(LowerError::ReturnsValue)
                        } else {
                            match lower_block(
                                Env {
                                    structures,
                                    records: c.records,
                                    generics,
                                    functions,
                                    extensions,
                                    definitions,
                                },
                                f.block,
                                State {
                                    expr_type: Some(ValueKind::Void),
                                    vars: c.vars,
                                    returns_struct: false,
                                },
                            ) {
                                Err(e) => Err(e),
                                Ok((scope, after)) => if after.returns_struct {
                                    Err(LowerError::RecordResult)
                                } else if scope.kind != ValueKind::Void {
                                    Err(LowerError::ReturnsValue)
                                } else {
                                    Ok(
                                        KernelModel {
                                            name: f.sig.ident,
                                            generics,
                                            inputs: c.descriptors,
                                            bounds,
                                            position: storage.position,
                                            main: scope,
                                        },
                                    )
                                },
                            }
                        },
                    },
                },
            },
        },
    }
}

/// Whether `r` is what compiling gives where the model is `m`: the same
/// error, or the kernel of the model with its names and the plain form of
/// its body.
pub open spec fn kernel_is(
    m: Result<KernelModel, LowerError>,
    functions: Seq<Keyed<Path>>,
    item: Item,
    r: Result<Kernel, LowerError>,
) -> bool {
    match m {
        Err(e) => r == Err::<Kernel, LowerError>(e),
        Ok(m) => {
            &&& r matches Ok(k)
            &&& k.name == m.name
            &&& k.generics@ == m.generics
            &&& k.inputs@ == m.inputs
            &&& k.bounds@ == m.bounds
            &&& k.position == m.position
            &&& k.main == m.main
            &&& named_after(k.names, m.name@)
            &&& item matches Item::Fn(f) && cpu_block(functions, f.block, k.cpu_fn)
        },
    }
}

/// Compiles a kernel from the tables of its attribute, the function it is
/// attached to, and the functions that its calls can resolve to. The records
/// it knows are the built-in position record and, after it, those of the
/// attribute.
pub fn kernel(attributes: ParseAttributes, item: &Item, definitions: Vec<Keyed<Function>>) -> (r:
    Result<Kernel, LowerError>)
    ensures
        exists|builtin: Seq<Named<Structure>>| #[trigger]
            is_builtin(builtin) && kernel_is(
                kernel_model(
                    builtin + attributes.structures@,
                    attributes.normal_functions@,
                    attributes.replace_functions@,
                    *item,
                    definitions@,
                ),
                attributes.normal_functions@,
                *item,
                r,
            ),
{
    let mut structures = get_default_structures();
    let ghost builtin = structures@;
    let mut declared = attributes.structures;
    structures.append(&mut declared);
    assert(is_builtin(builtin));
    compile_kernel(
        structures,
        attributes.normal_functions,
        attributes.replace_functions,
        item,
        definitions,
    )
}

/// Compiles a kernel that knows the records `structures`.
fn compile_kernel(
    structures: Vec<Named<Structure>>,
    functions: Vec<Keyed<Path>>,
    extensions: Vec<Keyed<Path>>,
    item: &Item,
    definitions: Vec<Keyed<Function>>,
) -> (r: Result<Kernel, LowerError>)
    ensures
        kernel_is(
            kernel_model(structures@, functions@, extensions@, *item, definitions@),
            functions@,
            *item,
            r,
        ),
{
    match item {
        Item::Other => Err(LowerError::NotAFunction),
        Item::Fn(f) => {
            let generics = inner_generics_idents(&f.sig.generics)?;
            let storage = get_mem_generics_and_types(&f.sig.inputs)?;
            let bounds = get_memmappable_bounds(&f.sig.inputs)?;
            let collected = collect_inputs_exec(&generics, &structures, &f.sig.inputs)?;
            if collected.outputs != 1 {
                return Err(LowerError::MissingOutput);
            }
            if f.sig.output.is_some() {
                return Err(LowerError::ReturnsValue);
            }
            let mut names: Vec<String> = Vec::new();
            let mut i: usize = 0;
            while i < generics.len()
                invariant
                    i <= generics.len(),
                    names@ == generics@.take(i as int),
                decreases generics.len() - i,
            {
                names.push(generics[i].clone());
                assert(names@ =~= generics@.take(i + 1));
                i += 1;
            }
            assert(generics@.take(i as int) =~= generics@);
            let mut p = Parsefn {
                expr_type: Some(ValueKind::Void),
                vars: collected.vars,
                known_structures: structures,
                known_records: collected.records,
                known_generics: generics,
                returns_struct: false,
                known_functions: functions,
                known_extensions: extensions,
                definitions,
            };
            let scope = p.fold_block(&f.block)?;
            if p.returns_struct {
                return Err(LowerError::RecordResult);
            }
            if !scope.kind.same(&ValueKind::Void) {
                return Err(LowerError::ReturnsValue);
            }
            let cpu = ParseCPUfn { known_functions: p.known_functions };
            let cpu_fn = cpu.fold_block(&f.block);
            Ok(
                Kernel {
                    name: f.sig.ident.clone(),
                    names: KernelNames::new(f.sig.ident.as_str()),
                    generics: names,
                    inputs: collected.descriptors,
                    bounds,
                    position: storage.position,
                    main: scope,
                    cpu_fn,
                },
            )
        },
    }
}

} // verus!
