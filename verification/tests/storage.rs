use chandra::allocated::{
    FieldLayout, MemoryLayoutDescriptor, Parallelizable, ParallelizationDescriptor,
};
use chandra::cpu::{Binding, CPUProcessor, CPUStorage, DifferentiatedCPUContext};
use chandra::lowering::DataType;
use chandra::operation::Container;
use chandra::tables::Named;
use chandra::tensor::{checked_product, row_regions, Tensor};
use chandra::types::{Scalar, ValueKind};

fn field(name: &str, position: u8, layout: MemoryLayoutDescriptor) -> Named<FieldLayout> {
    Named { name: name.to_string(), value: FieldLayout { position, layout } }
}

#[test]
fn kinds_have_names_and_sizes() {
    let all = [
        (ValueKind::Void, "void", 0),
        (ValueKind::Bool, "bool", 1),
        (ValueKind::I32, "i32", 4),
        (ValueKind::I64, "i64", 8),
        (ValueKind::U32, "u32", 4),
        (ValueKind::U64, "u64", 8),
        (ValueKind::F32, "f32", 4),
    ];
    for (kind, name, size) in all {
        assert_eq!(kind.get_type(), name);
        assert_eq!(kind.byte_size(), size);
        if size > 0 {
            assert_eq!(ValueKind::from_name(name), Some(kind));
        }
    }
    assert_eq!(ValueKind::from_name("void"), None);
    assert_eq!(ValueKind::from_name("f64"), None);
    assert_eq!(ValueKind::from_name(""), None);
    assert!(ValueKind::U32.same(&ValueKind::U32));
    assert!(!ValueKind::U32.same(&ValueKind::I32));
}

#[test]
fn every_kind_has_a_zero() {
    assert_eq!(Scalar::get_zero(ValueKind::Bool), Some(Scalar::Bool(false)));
    assert_eq!(Scalar::get_zero(ValueKind::I64), Some(Scalar::I64(0)));
    assert_eq!(Scalar::get_zero(ValueKind::F32), Some(Scalar::F32 { bits: 0f32.to_bits() }));
    assert_eq!(Scalar::get_zero(ValueKind::Void), None);
    assert_eq!(Scalar::get_zero(ValueKind::Generic(0)), None);
}

#[test]
fn integers_convert_by_their_low_bits() {
    assert_eq!(Scalar::from_int(ValueKind::Bool, 0), Some(Scalar::Bool(false)));
    assert_eq!(Scalar::from_int(ValueKind::Bool, -3), Some(Scalar::Bool(true)));
    assert_eq!(Scalar::from_int(ValueKind::I32, -1), Some(Scalar::I32(-1)));
    assert_eq!(Scalar::from_int(ValueKind::U32, -1), Some(Scalar::U32(u32::MAX)));
    assert_eq!(Scalar::from_int(ValueKind::U64, -1), Some(Scalar::U64(u64::MAX)));
    assert_eq!(Scalar::from_int(ValueKind::I64, 5), Some(Scalar::I64(5)));
    assert_eq!(Scalar::from_int(ValueKind::U32, 1 << 32), Some(Scalar::U32(0)));
    assert_eq!(Scalar::from_int(ValueKind::I32, (1 << 31) + 1), Some(Scalar::I32(i32::MIN + 1)));
    assert_eq!(Scalar::from_int(ValueKind::F32, 1), None);
    assert_eq!(Scalar::from_int(ValueKind::Void, 1), None);
}

#[test]
fn bytes_are_little_endian() {
    assert_eq!(Scalar::U32(0x0102_0304).to_bytes(), vec![4, 3, 2, 1]);
    assert_eq!(Scalar::I32(-2).to_bytes(), vec![0xfe, 0xff, 0xff, 0xff]);
    assert_eq!(Scalar::U64(1).to_bytes(), vec![1, 0, 0, 0, 0, 0, 0, 0]);
    assert_eq!(Scalar::I64(-1).to_bytes(), vec![0xff; 8]);
    assert_eq!(Scalar::Bool(true).to_bytes(), vec![1]);
    assert_eq!(Scalar::Bool(false).to_bytes(), vec![0]);
    assert_eq!(Scalar::F32 { bits: 1.5f32.to_bits() }.to_bytes(), 1.5f32.to_le_bytes().to_vec());
}

#[test]
fn bytes_read_back_as_the_same_value() {
    let values = [
        Scalar::Bool(true),
        Scalar::Bool(false),
        Scalar::I32(i32::MIN),
        Scalar::I32(12345),
        Scalar::I64(-7),
        Scalar::U32(u32::MAX),
        Scalar::U64(0xdead_beef_0000_0001),
        Scalar::F32 { bits: (-0.25f32).to_bits() },
    ];
    for value in values {
        assert_eq!(value.to_bytes().len(), value.get_type().byte_size());
        assert_eq!(Scalar::from_bytes(value.get_type(), &value.to_bytes()), Some(value));
    }
    assert_eq!(Scalar::from_bytes(ValueKind::Bool, &vec![2]), Some(Scalar::Bool(false)));
}

#[test]
fn bytes_must_be_as_many_as_the_kind_takes() {
    assert_eq!(Scalar::from_bytes(ValueKind::U32, &vec![1, 2, 3]), None);
    assert_eq!(Scalar::from_bytes(ValueKind::U32, &vec![1, 2, 3, 4, 5]), None);
    assert_eq!(Scalar::from_bytes(ValueKind::Bool, &vec![]), None);
    assert_eq!(Scalar::from_bytes(ValueKind::Void, &vec![]), None);
    assert_eq!(Scalar::from_bytes(ValueKind::Generic(1), &vec![]), None);
}

#[test]
fn a_name_has_one_field() {
    let layout = MemoryLayoutDescriptor::Struct(vec![
        field("x", 0, MemoryLayoutDescriptor::Float(4)),
        field("y", 1, MemoryLayoutDescriptor::UInteger(2)),
        field("x", 0, MemoryLayoutDescriptor::Integer(8)),
    ]);
    assert_eq!(layout.get_byte_size(), 10);
    assert_eq!(layout.get_bytes_before("y"), 8);
    assert_eq!(layout.get_bytes_before("x"), 0);
    assert!(chandra::tables::stands_at(&vec![field("x", 0, MemoryLayoutDescriptor::Empty)], 0));
    let twice = vec![
        field("x", 0, MemoryLayoutDescriptor::Empty),
        field("x", 1, MemoryLayoutDescriptor::Empty),
    ];
    assert!(!chandra::tables::stands_at(&twice, 0));
    assert!(chandra::tables::stands_at(&twice, 1));
}

#[test]
fn a_record_is_as_large_as_its_fields() {
    let inner = MemoryLayoutDescriptor::Struct(vec![
        field("a", 0, MemoryLayoutDescriptor::UInteger(1)),
        field("b", 1, MemoryLayoutDescriptor::Integer(8)),
    ]);
    let layout = MemoryLayoutDescriptor::Struct(vec![
        field("x", 2, MemoryLayoutDescriptor::Float(4)),
        field("y", 0, MemoryLayoutDescriptor::UInteger(2)),
        field("z", 1, inner),
    ]);
    assert_eq!(layout.get_byte_size(), 15);
    assert_eq!(layout.get_bytes_before("y"), 0);
    assert_eq!(layout.get_bytes_before("z"), 2);
    assert_eq!(layout.get_bytes_before("x"), 11);
    assert_eq!(MemoryLayoutDescriptor::Struct(vec![]).get_byte_size(), 0);
    assert_eq!(MemoryLayoutDescriptor::Float(4).get_byte_size(), 4);
    assert_eq!(MemoryLayoutDescriptor::Integer(2).get_byte_size(), 2);
}

#[test]
fn kinds_have_layouts() {
    assert_eq!(
        MemoryLayoutDescriptor::get_memory_layout(ValueKind::Bool),
        MemoryLayoutDescriptor::UInteger(1)
    );
    assert_eq!(
        MemoryLayoutDescriptor::get_memory_layout(ValueKind::F32),
        MemoryLayoutDescriptor::Float(4)
    );
    assert_eq!(
        MemoryLayoutDescriptor::get_memory_layout(ValueKind::I64),
        MemoryLayoutDescriptor::Integer(8)
    );
    assert_eq!(
        MemoryLayoutDescriptor::get_memory_layout(ValueKind::Void),
        MemoryLayoutDescriptor::Empty
    );
    assert_eq!(
        MemoryLayoutDescriptor::of_data(DataType::Indexable {
            element: ValueKind::U32,
            container: Container::Vector
        }),
        MemoryLayoutDescriptor::Vector { item_typ: Box::new(MemoryLayoutDescriptor::UInteger(4)) }
    );
    match Tensor::<u8>::get_memory_layout(ValueKind::F32) {
        MemoryLayoutDescriptor::Struct(fields) => {
            assert_eq!(fields[0].name, "shape");
            assert_eq!(fields[0].value.position, 0);
            assert_eq!(fields[1].name, "data");
            assert_eq!(
                fields[1].value.layout,
                MemoryLayoutDescriptor::Vector {
                    item_typ: Box::new(MemoryLayoutDescriptor::Float(4))
                }
            );
        }
        other => panic!("{:?}", other),
    }
}

#[test]
fn storage_hands_out_keys_in_order() {
    let mut storage: CPUStorage<&str> = CPUStorage::new();
    assert_eq!(storage.insert("a"), 0);
    assert_eq!(storage.insert("b"), 1);
    assert_eq!(storage.get(0), Some(&"a"));
    assert_eq!(storage.get(1), Some(&"b"));
    assert_eq!(storage.get(2), None);
    assert_eq!(storage.replace(1, "c"), Some("b"));
    assert_eq!(storage.replace(5, "c"), None);
    assert_eq!(storage.get(1), Some(&"c"));
    assert_eq!(storage.remove(0), Some("a"));
    assert_eq!(storage.remove(0), None);
    assert_eq!(storage.get(0), None);
    assert_eq!(storage.insert("d"), 2);
}

#[test]
fn data_is_released_with_its_last_handle() {
    let mut processor: CPUProcessor<Vec<u8>> = CPUProcessor::new();
    let first = processor.allocate(vec![1, 2, 3]);
    assert_eq!(first.get_reference(), 0);
    assert_eq!(processor.counter, 1);
    let second = processor.share(&first).unwrap();
    let third = processor.share(&second).unwrap();
    assert_eq!(processor.heap.slots[0].as_ref().unwrap().references, 3);
    assert_eq!(processor.release(second), None);
    assert_eq!(processor.copy_to_cpu(&first), Some(&vec![1, 2, 3]));
    assert_eq!(processor.release(first), None);
    assert_eq!(third.deref(&processor.heap), Some(&vec![1, 2, 3]));
    assert_eq!(processor.release(third), Some(vec![1, 2, 3]));
    assert_eq!(processor.copy_to_cpu(&Binding::new(0)), None);
    assert_eq!(processor.share(&Binding::new(0)), None);
    assert_eq!(processor.release(Binding::new(0)), None);
}

#[test]
fn handles_reach_what_they_stand_for() {
    let mut processor: CPUProcessor<i32> = CPUProcessor::new();
    let a = processor.allocate(1);
    let b = processor.allocate(2);
    assert_eq!(b.get_reference(), 1);
    assert_eq!(a.deref_mut(&mut processor.heap, 10), Some(1));
    assert_eq!(a.deref(&processor.heap), Some(&10));
    assert_eq!(processor.dealloc(a), Some(10));
    assert_eq!(processor.dealloc(Binding::new(0)), None);
    assert_eq!(b.deref(&processor.heap), Some(&2));
    assert_eq!(Binding::new(7).deref_mut(&mut processor.heap, 1), None);
}

#[test]
fn a_context_holds_values_by_name() {
    let mut context: DifferentiatedCPUContext<i64> = DifferentiatedCPUContext::new();
    assert!(!context.value_is_set("a"));
    assert_eq!(context.set("a", 1), None);
    assert_eq!(context.set("b", 2), None);
    assert_eq!(context.set("a", 3), Some(1));
    assert_eq!(*context.get("a"), 3);
    assert_eq!(*context.get("b"), 2);
    assert_eq!(context.get_mut("b", 20), Some(2));
    assert_eq!(context.get_mut("c", 30), None);
    assert!(!context.value_is_set("c"));
    assert_eq!(*context.get("b"), 20);
    context.remove("a");
    assert!(!context.value_is_set("a"));
    assert!(context.value_is_set("b"));
    context.remove("nobody");
    assert_eq!(context.set("a", 4), None);
    assert_eq!(*context.get("a"), 4);
}

#[test]
fn a_context_knows_whether_a_return_was_reached() {
    let mut context: DifferentiatedCPUContext<u8> = DifferentiatedCPUContext::new();
    assert!(!context.is_in_return_state());
    context.set_return_state(true);
    assert!(context.is_in_return_state());
    context.set_return_state(false);
    assert!(!context.is_in_return_state());
}

#[test]
fn a_tensor_has_as_many_items_as_its_shape_says() {
    let t = Tensor::new(1.5f32, vec![2, 3, 4]).unwrap();
    assert_eq!(t.data, vec![1.5f32; 24]);
    assert_eq!(t.shape, vec![2, 3, 4]);
    assert_eq!(*t.index(23), 1.5);
    match t.get_parallelization_info(ValueKind::F32) {
        ParallelizationDescriptor::Struct(s) => {
            assert_eq!(s.this, Parallelizable::X(2));
            assert_eq!(s.fields[0].name, "shape");
            assert_eq!(
                s.fields[0].value.parallel,
                ParallelizationDescriptor::Data(Parallelizable::Sync)
            );
            assert_eq!(s.fields[1].name, "data");
            assert_eq!(s.fields[1].value.position, 1);
            assert_eq!(
                s.fields[1].value.parallel,
                ParallelizationDescriptor::Data(Parallelizable::X(2))
            );
            assert_eq!(
                s.fields[1].value.layout,
                MemoryLayoutDescriptor::Vector {
                    item_typ: Box::new(MemoryLayoutDescriptor::Float(4))
                }
            );
        }
        other => panic!("{:?}", other),
    }
    assert_eq!(Tensor::new(0u8, vec![]).unwrap().data.len(), 1);
    assert_eq!(Tensor::new(0u8, vec![5, 0, 7]).unwrap().data.len(), 0);
    assert!(Tensor::new(0u8, vec![usize::MAX, 2]).is_none());
    assert!(Tensor::new(0u8, vec![usize::MAX, 2, 0]).is_none());
}

#[test]
fn products_that_do_not_fit_are_told() {
    assert_eq!(checked_product(&vec![]), Some(1));
    assert_eq!(checked_product(&vec![3, 5, 7]), Some(105));
    assert_eq!(checked_product(&vec![0, usize::MAX]), Some(0));
    assert_eq!(checked_product(&vec![usize::MAX, 2]), None);
}

#[test]
fn a_tensor_is_cut_into_one_region_for_each_row() {
    assert_eq!(row_regions(3, 4), vec![(0, 4), (4, 8), (8, 12)]);
    assert_eq!(row_regions(0, 4), vec![]);
    assert_eq!(row_regions(2, 0), vec![(0, 0), (0, 0)]);
    let t = Tensor { data: (0..12).collect::<Vec<i32>>(), shape: vec![3, 2, 2] };
    let mut regions = t.into_regions().unwrap();
    assert_eq!(regions.shape, vec![3, 2, 2]);
    assert_eq!(regions.data.locks().regions.regions, vec![(0, 4), (4, 8), (8, usize::MAX)]);
    assert_eq!(regions.data.index(5), Some(5));
    assert_eq!(regions.data.index_2((2, 1)), Some(9));
    assert_eq!(regions.data.try_index_range(3, 5), None);
    regions.data.free();
    let mut other = regions.share();
    assert!(other.data.set(11, -1));
    other.data.free();
    assert_eq!(regions.data.index(11), Some(-1));
    assert!(Tensor { data: vec![0u8; 4], shape: vec![] }.into_regions().is_none());
    assert!(Tensor { data: vec![0u8; 4], shape: vec![0, 4] }.into_regions().is_none());
    assert!(Tensor { data: vec![0u8; 3], shape: vec![2, 2] }.into_regions().is_none());
}
