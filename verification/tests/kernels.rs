use chandra::cpu::{CPUFunction, CPUProcessor};
use chandra::differential::{Buildable, Program};
use chandra::function::function;
use chandra::gpu::GPUProcessor;
use chandra::kernel::{
    get_default_structures, get_mem_generics_and_types, get_memmappable_bounds,
    inner_generics_idents, kernel, Bound, InputDescriptor, Kernel, KernelNames, MemInput,
};
use chandra::lowering::{DataType, LowerError};
use chandra::operation::{Container, Function, FunctionName, Inputs, Location, Operation, Scope};
use chandra::operations;
use chandra::parseatt::ParseAttributes;
use chandra::region_guard::RegionGuard;
use chandra::syntax::{
    BinOp, Block, Expr, FieldValue, FnArg, GenericParam, Item, ItemFn, Member, Pat, Path,
    Signature, Stmt, Type,
};
use chandra::tables::Keyed;
use chandra::types::{Pos, ValueKind};
use chandra::var::Variable;

fn path(names: &[&str]) -> Path {
    Path { global: false, segments: names.iter().map(|n| n.to_string()).collect() }
}

fn name(n: &str) -> Expr {
    Expr::Path(path(&[n]))
}

fn field(base: &str, member: &str) -> Expr {
    Expr::Field { base: Box::new(name(base)), member: Member::Named(member.to_string()) }
}

fn index(base: &str, at: Expr) -> Expr {
    Expr::Index { expr: Box::new(name(base)), index: Box::new(at) }
}

fn binary(op: BinOp, left: Expr, right: Expr) -> Expr {
    Expr::Binary { op, left: Box::new(left), right: Box::new(right) }
}

fn assign(left: Expr, right: Expr) -> Expr {
    Expr::Assign { left: Box::new(left), right: Box::new(right) }
}

fn plain(ty: &str) -> Type {
    Type::Path(path(&[ty]), vec![])
}

fn vector(of: &str) -> Type {
    Type::Path(path(&["Vec"]), vec![plain(of)])
}

fn shared(ty: Type) -> Type {
    Type::Reference { mutable: false, elem: Box::new(ty) }
}

fn mutable(ty: Type) -> Type {
    Type::Reference { mutable: true, elem: Box::new(ty) }
}

fn arg(n: &str, ty: Type) -> FnArg {
    FnArg::Typed { pat: Pat::Ident(n.to_string()), ty }
}

fn item(ident: &str, generics: Vec<GenericParam>, inputs: Vec<FnArg>, output: Option<Type>, stmts: Vec<Stmt>) -> Item {
    Item::Fn(ItemFn {
        sig: Signature { ident: ident.to_string(), generics, inputs, output },
        block: Block { stmts },
    })
}

fn tables(code: &str) -> ParseAttributes {
    let mut t = ParseAttributes::new();
    t.parse(code).unwrap();
    t
}

fn add_inputs() -> Vec<FnArg> {
    vec![
        arg("pos", plain("Pos")),
        arg("a", shared(vector("f32"))),
        arg("b", shared(vector("f32"))),
        arg("out", mutable(vector("f32"))),
    ]
}

fn add_body() -> Vec<Stmt> {
    vec![Stmt::Expr(
        assign(
            index("out", field("pos", "x")),
            binary(BinOp::Add, index("a", field("pos", "x")), index("b", field("pos", "x"))),
        ),
        true,
    )]
}

fn add_kernel() -> Kernel {
    let item = item("add", vec![], add_inputs(), None, add_body());
    kernel(tables("struct Pos { x: u32, y: u32, z: u32 };"), &item, vec![]).unwrap()
}

fn element(of: &str) -> Operation {
    operations::index(
        &Variable::new(of, ValueKind::F32),
        Container::Vector,
        operations::get(&Variable::field("pos", "x", ValueKind::U32)),
    )
}

fn compiled(inputs: Vec<FnArg>, output: Option<Type>, stmts: Vec<Stmt>) -> Result<Kernel, LowerError> {
    kernel(tables(""), &item("k", vec![], inputs, output, stmts), vec![])
}

#[test]
fn the_position_record_is_always_known() {
    let structures = get_default_structures();
    assert_eq!(structures.len(), 1);
    assert_eq!(structures[0].name, "Pos");
    let fields: Vec<(&str, &str)> = structures[0]
        .value
        .iter()
        .map(|f| (f.name.as_str(), f.value.as_str()))
        .collect();
    assert_eq!(fields, vec![("x", "u32"), ("y", "u32"), ("z", "u32")]);
}

#[test]
fn adding_two_vectors_lowers_to_one_store() {
    let k = add_kernel();
    let target = match element("out") {
        Operation::Index(i) => Location::Index(*i),
        other => panic!("{:?}", other),
    };
    let wanted = Scope::new(ValueKind::Void)
        .include_instruction(operations::set(&target, operations::add(element("a"), element("b"))));
    assert_eq!(k.main, wanted);
    assert_eq!(*k.get_main_tree(), wanted);
    assert_eq!(k.name, "add");
    assert!(k.generics.is_empty());
}

#[test]
fn inputs_are_numbered_and_the_output_is_marked() {
    let k = add_kernel();
    let data =
        Bound::Data(DataType::Indexable { element: ValueKind::F32, container: Container::Vector });
    assert_eq!(
        k.inputs,
        vec![
            InputDescriptor { name: "a".to_string(), position: 0, data, output: false },
            InputDescriptor { name: "b".to_string(), position: 1, data, output: false },
            InputDescriptor { name: "out".to_string(), position: 0, data, output: true },
        ]
    );
    assert_eq!(k.get_bindings().len(), 3);
    assert_eq!(k.bounds, vec![1]);
    assert_eq!(k.position, Some(0));
}

#[test]
fn bindings_are_tagged_with_layouts() {
    let layouts = add_kernel().get_layouts();
    assert_eq!(layouts.len(), 3);
    let vector = || chandra::allocated::MemoryLayoutDescriptor::Vector {
        item_typ: Box::new(chandra::allocated::MemoryLayoutDescriptor::Float(4)),
    };
    assert_eq!(
        layouts[1],
        chandra::kernel::BoundLayout {
            name: "b".to_string(),
            position: 1,
            layout: vector(),
            output: false
        }
    );
    assert_eq!(
        layouts[2],
        chandra::kernel::BoundLayout {
            name: "out".to_string(),
            position: 0,
            layout: vector(),
            output: true
        }
    );
}

#[test]
fn the_plain_form_keeps_the_body() {
    let k = add_kernel();
    assert_eq!(k.cpu_fn, Block { stmts: add_body() });
    assert_eq!(*k.get_cpu(), Block { stmts: add_body() });
}

#[test]
fn the_position_record_is_built_in() {
    let item = || item("add", vec![], add_inputs(), None, add_body());
    let bare = kernel(ParseAttributes::new(), &item(), vec![]).unwrap();
    assert_eq!(bare, add_kernel());
    let mut given = ParseAttributes::new();
    given.structures = get_default_structures();
    assert_eq!(kernel(given, &item(), vec![]).unwrap(), bare);
    let shadowed = kernel(tables("struct Pos { w: u32 };"), &item(), vec![]);
    assert!(shadowed.is_err());
    let reads_position = item_fn_with_position();
    assert!(function(ParseAttributes::new(), &reads_position, vec![], false).is_ok());
}

fn item_fn_with_position() -> Item {
    item(
        "column",
        vec![],
        vec![arg("pos", plain("Pos"))],
        Some(plain("u32")),
        vec![Stmt::Expr(field("pos", "x"), false)],
    )
}

#[test]
fn names_are_in_upper_camel_case() {
    let names = KernelNames::new("add_two_vectors");
    assert_eq!(names.function_struct, "AddTwoVectors");
    assert_eq!(names.cpu_fn, "AddTwoVectorsCPUFn");
    assert_eq!(names.inputs, "AddTwoVectorsInputs");
    assert_eq!(names.program, "AddTwoVectorsProgramm");
    assert_eq!(add_kernel().names.cpu_fn, "AddCPUFn");
}

#[test]
fn the_kernel_adds_the_vectors_over_four_cells() {
    let k = add_kernel();
    let a = vec![1.0f32, 2.0, 3.0, 4.0];
    let b = vec![10.0f32, 20.0, 30.0, 40.0];
    let out = RegionGuard::new(vec![0.0f32; 4], vec![(0, 2), (2, 4)]).unwrap();
    let processor: CPUProcessor<Vec<f32>> = CPUProcessor::new();
    let mut executable = CPUProcessor::<Vec<f32>>::new().build(k);
    assert!(executable.bind(vec![0, 1, 2]));
    assert_eq!(executable.get_input_references(), vec![0, 1]);
    assert_eq!(executable.get_out_reference(), Some(2));
    for mut worker in processor.dispatch(4, 1, 1, 3) {
        let mut mine = out.share();
        while let Some(Pos { x, .. }) = worker.next_cell() {
            let at = x as usize;
            assert!(mine.set(at, a[at] + b[at]));
        }
        mine.free();
    }
    let mut reader = out.share();
    for i in 0..4 {
        assert_eq!(reader.index(i), Some(a[i] + b[i]));
    }
    assert_eq!(reader.try_index_range(0, 2), Some(vec![11.0, 22.0]));
}

struct AddCells;

impl CPUFunction<(Vec<f32>, Vec<f32>), f32> for AddCells {
    fn call_cpu(&self, pos: &Pos, inputs: &(Vec<f32>, Vec<f32>), output: &mut RegionGuard<f32>) {
        let at = pos.x as usize;
        output.set(at, inputs.0[at] + inputs.1[at]);
    }
}

#[test]
fn a_plain_function_runs_once_for_each_cell() {
    let inputs = (vec![1.0f32, 2.0, 3.0, 4.0], vec![10.0f32, 20.0, 30.0, 40.0]);
    let out = RegionGuard::new(vec![0.0f32; 4], vec![(0, 1), (1, 2), (2, 3), (3, 4)]).unwrap();
    let processor: CPUProcessor<Vec<f32>> = CPUProcessor::new();
    for mut worker in processor.dispatch(4, 1, 1, 2) {
        let mut mine = out.share();
        while let Some(pos) = worker.next_cell() {
            AddCells.call_cpu(&pos, &inputs, &mut mine);
        }
        mine.free();
    }
    let mut reader = out.share();
    assert_eq!(reader.try_index_range(0, 4), None);
    for i in 0..4 {
        assert_eq!(reader.index(i), Some(inputs.0[i] + inputs.1[i]));
    }
}

#[test]
fn the_kernel_renders_to_shader_text() {
    let k = add_kernel();
    let text = GPUProcessor::new().build(&k.main).prog;
    assert_eq!(
        text,
        " \n fn main() {\n     \nout[pos.x] = a[pos.x] + b[pos.x];\n}"
    );
}

#[test]
fn a_kernel_is_a_function() {
    assert_eq!(kernel(tables(""), &Item::Other, vec![]).err(), Some(LowerError::NotAFunction));
}

#[test]
fn self_is_not_supported() {
    let inputs = vec![FnArg::Receiver, arg("out", mutable(vector("f32")))];
    assert_eq!(compiled(inputs, None, vec![]).err(), Some(LowerError::SelfParameter));
}

#[test]
fn only_type_parameters_are_supported() {
    for generic in [GenericParam::Lifetime, GenericParam::Const] {
        let item = item(
            "k",
            vec![GenericParam::Type("T".to_string()), generic],
            vec![arg("out", mutable(vector("f32")))],
            None,
            vec![],
        );
        assert_eq!(kernel(tables(""), &item, vec![]).err(), Some(LowerError::NonTypeGeneric));
    }
    assert_eq!(
        inner_generics_idents(&vec![
            GenericParam::Type("T".to_string()),
            GenericParam::Type("U".to_string())
        ]),
        Ok(vec!["T".to_string(), "U".to_string()])
    );
    assert_eq!(inner_generics_idents(&vec![]), Ok(vec![]));
    assert_eq!(
        inner_generics_idents(&vec![GenericParam::Const]),
        Err(LowerError::NonTypeGeneric)
    );
}

#[test]
fn a_kernel_has_exactly_one_output() {
    let two = vec![arg("a", mutable(vector("f32"))), arg("b", mutable(vector("f32")))];
    assert_eq!(compiled(two, None, vec![]).err(), Some(LowerError::MultipleMutable));
    let none = vec![arg("a", shared(vector("f32")))];
    assert_eq!(compiled(none, None, vec![]).err(), Some(LowerError::MissingOutput));
}

#[test]
fn a_parameter_that_is_no_reference_must_be_the_position() {
    let inputs = vec![arg("n", plain("u32")), arg("out", mutable(vector("f32")))];
    assert_eq!(compiled(inputs, None, vec![]).err(), Some(LowerError::UnsupportedArgument));
    let inputs = vec![arg("p", plain("Pos")), arg("out", mutable(vector("f32")))];
    assert!(compiled(inputs, None, vec![]).is_ok());
    let inputs = vec![arg("p", Type::Other), arg("out", mutable(vector("f32")))];
    assert_eq!(compiled(inputs, None, vec![]).err(), Some(LowerError::UnsupportedArgument));
    let inputs = vec![arg("p", shared(Type::Other)), arg("out", mutable(vector("f32")))];
    assert_eq!(compiled(inputs, None, vec![]).err(), Some(LowerError::UnsupportedArgument));
}

#[test]
fn the_types_of_the_parameters_must_be_known() {
    let inputs = vec![arg("a", shared(plain("Mystery"))), arg("out", mutable(vector("f32")))];
    assert_eq!(compiled(inputs, None, vec![]).err(), Some(LowerError::UnknownType));
    let inputs = vec![
        arg("a", shared(Type::Path(path(&["List"]), vec![plain("f32")]))),
        arg("out", mutable(vector("f32"))),
    ];
    assert_eq!(compiled(inputs, None, vec![]).err(), Some(LowerError::UnknownType));
    let inputs = vec![
        FnArg::Typed { pat: Pat::Other, ty: shared(vector("f32")) },
        arg("out", mutable(vector("f32"))),
    ];
    assert_eq!(compiled(inputs, None, vec![]).err(), Some(LowerError::UnsupportedPattern));
}

#[test]
fn a_record_by_reference_is_an_input() {
    let inputs = vec![
        arg("pos", plain("Pos")),
        arg("limits", shared(plain("Limits"))),
        arg("out", mutable(vector("u32"))),
    ];
    let body = vec![Stmt::Expr(assign(index("out", field("pos", "x")), field("limits", "top")), true)];
    let k = kernel(
        tables("struct Limits { top: u32, low: u32 };"),
        &item("clamp", vec![], inputs, None, body),
        vec![],
    )
    .unwrap();
    assert_eq!(k.inputs.len(), 2);
    assert_eq!(
        k.inputs[0],
        InputDescriptor {
            name: "limits".to_string(),
            position: 0,
            data: Bound::Record,
            output: false
        }
    );
    assert!(k.inputs[1].output);
    assert_eq!(k.get_layouts()[0].layout, chandra::allocated::MemoryLayoutDescriptor::Empty);
    match &k.main.instruction.this {
        Operation::Store(s) => {
            assert_eq!(
                s.assign,
                operations::get(&Variable::field("limits", "top", ValueKind::U32))
            )
        }
        other => panic!("{:?}", other),
    }
}

#[test]
fn a_kernel_yields_nothing() {
    let out = || vec![arg("x", shared(plain("f32"))), arg("out", mutable(vector("f32")))];
    assert_eq!(
        compiled(out(), Some(plain("f32")), vec![]).err(),
        Some(LowerError::ReturnsValue)
    );
    assert_eq!(
        compiled(out(), None, vec![Stmt::Expr(name("x"), false)]).err(),
        Some(LowerError::ReturnsValue)
    );
    let record = Expr::Struct {
        path: path(&["P"]),
        fields: vec![FieldValue { member: Member::Named("a".to_string()), expr: name("x") }],
    };
    assert_eq!(
        compiled(out(), None, vec![Stmt::Expr(record, false)]).err(),
        Some(LowerError::RecordResult)
    );
    assert!(compiled(out(), None, vec![Stmt::Expr(Expr::Return(None), true)]).is_ok());
}

#[test]
fn errors_of_the_body_reject_the_kernel() {
    let inputs = vec![arg("out", mutable(vector("f32")))];
    let body = vec![Stmt::Expr(assign(name("nobody"), name("out")), true)];
    assert_eq!(compiled(inputs, None, body).err(), Some(LowerError::NotAScalar));
}

#[test]
fn tensors_are_indexed_through_their_data() {
    let inputs = vec![
        arg("pos", plain("Pos")),
        arg("t", mutable(Type::Path(path(&["Tensor"]), vec![plain("i32")]))),
    ];
    let body = vec![Stmt::Expr(
        assign(
            index("t", field("pos", "y")),
            Expr::Lit(chandra::syntax::Lit {
                digits: "1".to_string(),
                suffix: String::new(),
                float: false,
            }),
        ),
        true,
    )];
    let k = compiled(inputs, None, body).unwrap();
    assert_eq!(
        k.inputs[0].data,
        Bound::Data(DataType::Indexable { element: ValueKind::I32, container: Container::Tensor })
    );
    let text = GPUProcessor::new().build(&k.main).prog;
    assert_eq!(text, " \n fn main() {\n     \nt.data[pos.y] = 1;\n}");
}

#[test]
fn type_parameters_are_kinds_of_their_own() {
    let item = item(
        "scale",
        vec![GenericParam::Type("T".to_string())],
        vec![
            arg("pos", plain("Pos")),
            arg("a", shared(vector("T"))),
            arg("out", mutable(vector("T"))),
        ],
        None,
        vec![Stmt::Expr(
            assign(
                index("out", field("pos", "x")),
                binary(
                    BinOp::Mul,
                    index("a", field("pos", "x")),
                    Expr::Call {
                        func: Box::new(Expr::Path(path(&["T", "from_int"]))),
                        generics: vec![],
                        args: vec![Expr::Lit(chandra::syntax::Lit {
                            digits: "2".to_string(),
                            suffix: String::new(),
                            float: false,
                        })],
                    },
                ),
            ),
            true,
        )],
    );
    let k = kernel(tables(""), &item, vec![]).unwrap();
    assert_eq!(k.generics, vec!["T".to_string()]);
    assert_eq!(
        k.inputs[0].data,
        Bound::Data(DataType::Indexable {
            element: ValueKind::Generic(0),
            container: Container::Vector
        })
    );
    match &k.main.instruction.this {
        Operation::Store(s) => assert_eq!(s.assign.kind(), ValueKind::Generic(0)),
        other => panic!("{:?}", other),
    }
}

#[test]
fn storage_sees_each_type_once() {
    let inputs = vec![
        arg("pos", plain("Pos")),
        arg("a", shared(vector("f32"))),
        arg("b", shared(vector("f32"))),
        arg("c", shared(vector("i32"))),
        arg("out", mutable(vector("f32"))),
    ];
    assert_eq!(get_memmappable_bounds(&inputs), Ok(vec![1, 3]));
    let found = get_mem_generics_and_types(&inputs).unwrap();
    assert_eq!(found.position, Some(0));
    assert_eq!(found.unique, vec![1, 3]);
    assert_eq!(
        found.inputs,
        vec![
            MemInput { generic: 0, mutable: false },
            MemInput { generic: 0, mutable: false },
            MemInput { generic: 1, mutable: false },
            MemInput { generic: 0, mutable: true },
        ]
    );
}

#[test]
fn storage_bounds_pass_over_what_is_no_reference() {
    let inputs = vec![arg("n", plain("u32")), arg("a", shared(vector("f32")))];
    assert_eq!(get_memmappable_bounds(&inputs), Ok(vec![1]));
    assert_eq!(
        get_mem_generics_and_types(&inputs).err(),
        Some(LowerError::UnsupportedArgument)
    );
    assert_eq!(get_memmappable_bounds(&vec![]), Ok(vec![]));
    assert_eq!(get_memmappable_bounds(&vec![FnArg::Receiver]), Ok(vec![]));
    assert_eq!(
        get_mem_generics_and_types(&vec![FnArg::Receiver]).err(),
        Some(LowerError::SelfParameter)
    );
    let two = vec![arg("a", mutable(vector("f32"))), arg("b", mutable(vector("i32")))];
    assert_eq!(get_memmappable_bounds(&two), Err(LowerError::MultipleMutable));
    assert_eq!(get_mem_generics_and_types(&two).err(), Some(LowerError::MultipleMutable));
    let odd = vec![arg("a", shared(shared(vector("f32"))))];
    assert_eq!(get_memmappable_bounds(&odd), Err(LowerError::UnsupportedArgument));
    assert_eq!(get_mem_generics_and_types(&odd).err(), Some(LowerError::UnsupportedArgument));
}

fn square_item() -> Item {
    item(
        "square",
        vec![],
        vec![arg("v", plain("f32"))],
        Some(plain("f32")),
        vec![Stmt::Expr(
            Expr::Return(Some(Box::new(binary(BinOp::Mul, name("v"), name("v"))))),
            true,
        )],
    )
}

fn square() -> Function {
    function(tables(""), &square_item(), vec![], false).unwrap().function
}

#[test]
fn a_function_has_a_name_parameters_and_a_body() {
    let d = function(tables(""), &square_item(), vec![], false).unwrap();
    assert!(!d.extension);
    assert!(d.cpu_fn.is_some());
    assert_eq!(d.function.name, FunctionName::Given("square".to_string()));
    assert_eq!(d.names, KernelNames::new("square"));
    assert_eq!(d.names.function_struct, "Square");
    assert_eq!(d.names.cpu_fn, "SquareCPUFn");
    assert_eq!(d.names.inputs, "SquareInputs");
    assert_eq!(d.names.program, "SquareProgramm");
    assert_eq!(d.function.kind, ValueKind::F32);
    assert_eq!(d.function.inputs.first, Variable::new("v", ValueKind::F32));
    assert!(d.function.inputs.rest.is_none());
    let v = operations::get(&Variable::new("v", ValueKind::F32));
    let twice = operations::multiply(v, operations::get(&Variable::new("v", ValueKind::F32)));
    assert_eq!(
        d.function.scope,
        Scope::new(ValueKind::F32).returning(operations::returning(twice))
    );
}

#[test]
fn an_extension_has_no_plain_form() {
    let d = function(tables(""), &square_item(), vec![], true).unwrap();
    assert!(d.extension);
    assert!(d.cpu_fn.is_none());
}

#[test]
fn only_an_extension_yields_a_record() {
    let record = Expr::Struct {
        path: path(&["P"]),
        fields: vec![FieldValue { member: Member::Named("a".to_string()), expr: name("v") }],
    };
    let make = || {
        item(
            "pack",
            vec![],
            vec![arg("v", plain("f32"))],
            Some(plain("P")),
            vec![Stmt::Expr(
                chandra::parse_cpu_function::ParseCPUfn { known_functions: vec![] }
                    .fold_expr(&record),
                false,
            )],
        )
    };
    let d = function(tables(""), &make(), vec![], true).unwrap();
    assert_eq!(d.function.kind, ValueKind::Void);
    assert_eq!(
        function(tables(""), &make(), vec![], false).err(),
        Some(LowerError::UnknownType)
    );
    let no_type = item(
        "pack",
        vec![],
        vec![arg("v", plain("f32"))],
        None,
        vec![Stmt::Expr(record, false)],
    );
    assert_eq!(
        function(tables(""), &no_type, vec![], false).err(),
        Some(LowerError::RecordResult)
    );
}

#[test]
fn a_function_has_one_to_eight_parameters() {
    let with = |n: usize| {
        let inputs = (0..n).map(|i| arg(&format!("p{}", i), plain("f32"))).collect();
        item("f", vec![], inputs, None, vec![])
    };
    assert_eq!(function(tables(""), &with(0), vec![], false).err(), Some(LowerError::NoInputs));
    assert!(function(tables(""), &with(1), vec![], false).is_ok());
    assert!(function(tables(""), &with(8), vec![], false).is_ok());
    assert_eq!(
        function(tables(""), &with(9), vec![], false).err(),
        Some(LowerError::TooManyInputs)
    );
    assert_eq!(
        function(tables(""), &Item::Other, vec![], false).err(),
        Some(LowerError::NotAFunction)
    );
}

fn calling_kernel() -> Kernel {
    let item = item(
        "squares",
        vec![],
        vec![
            arg("pos", plain("Pos")),
            arg("a", shared(vector("f32"))),
            arg("out", mutable(vector("f32"))),
        ],
        None,
        vec![Stmt::Expr(
            assign(
                index("out", field("pos", "x")),
                binary(
                    BinOp::Add,
                    Expr::Call {
                        func: Box::new(Expr::Path(path(&["square"]))),
                        generics: vec![plain("f32")],
                        args: vec![index("a", field("pos", "x"))],
                    },
                    Expr::MethodCall {
                        receiver: Box::new(index("a", field("pos", "x"))),
                        method: "sq".to_string(),
                        args: vec![],
                    },
                ),
            ),
            true,
        )],
    );
    kernel(
        tables("use square; use square as sq;"),
        &item,
        vec![Keyed { path: path(&["square"]), value: square() }],
    )
    .unwrap()
}

#[test]
fn calls_lower_to_call_nodes() {
    let k = calling_kernel();
    match &k.main.instruction.this {
        Operation::Store(s) => match &s.assign {
            Operation::Binary(b) => {
                let wanted =
                    operations::call(Inputs { first: element("a"), rest: None }, square());
                assert_eq!(b.left, wanted);
                assert_eq!(b.right, wanted);
            }
            other => panic!("{:?}", other),
        },
        other => panic!("{:?}", other),
    }
}

#[test]
fn the_plain_form_calls_the_plain_form_of_an_import() {
    let k = calling_kernel();
    match &k.cpu_fn.stmts[0] {
        Stmt::Expr(Expr::Assign { right, .. }, true) => match &**right {
            Expr::Binary { left, right, .. } => {
                match &**left {
                    Expr::Call { func, generics, args } => {
                        assert_eq!(**func, Expr::Path(path(&["square", "cpu"])));
                        assert_eq!(*generics, vec![plain("f32")]);
                        assert_eq!(*args, vec![index("a", field("pos", "x"))]);
                    }
                    other => panic!("{:?}", other),
                }
                assert!(matches!(&**right, Expr::MethodCall { method, .. } if method == "sq"));
            }
            other => panic!("{:?}", other),
        },
        other => panic!("{:?}", other),
    }
}

#[test]
fn a_function_that_is_called_twice_is_defined_once() {
    let k = calling_kernel();
    let text = GPUProcessor::new().build(&k.main).prog;
    assert_eq!(text.matches("fn square(").count(), 1);
    assert_eq!(text.matches("square(a[pos.x])").count(), 2);
    assert_eq!(
        text,
        " \n fn square(v: f32) -> f32 {\n     \nreturn v * v;\n} \n fn main() {\n     \nout[pos.x] = square(a[pos.x]) + square(a[pos.x]);\n}"
    );
}

#[test]
fn the_same_tree_renders_to_the_same_text() {
    let first = GPUProcessor::new().build(&calling_kernel().main).prog;
    let second = GPUProcessor::new().build(&calling_kernel().main).prog;
    assert_eq!(first, second);
}
