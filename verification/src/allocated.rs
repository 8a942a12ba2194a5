//! Descriptions of how values lie in memory and of how they can be worked
//! on in parallel. Backends read them; nothing here allocates.

use vstd::prelude::*;
use crate::lowering::DataType;
use crate::operation::Container;
use crate::tables::{find_named, position_named, stands, stands_at, Named};
use crate::types::ValueKind;

verus! {

/// One field of a record: its place among the fields and its layout.
#[derive(Debug, PartialEq, Eq)]
pub struct FieldLayout {
    pub position: u8,
    pub layout: MemoryLayoutDescriptor,
}

#[derive(Debug, PartialEq, Eq)]
pub enum MemoryLayoutDescriptor {
    Array { item_typ: Box<MemoryLayoutDescriptor>, item_length: usize },
    /// A floating-point number of so many bytes.
    Float(u8),
    /// A signed integer of so many bytes.
    Integer(u8),
    /// An unsigned integer of so many bytes.
    UInteger(u8),
    /// A record, by the names of its fields.
    Struct(Vec<Named<FieldLayout>>),
    Vector { item_typ: Box<MemoryLayoutDescriptor> },
    Empty,
    Custom { custom_typ: String, byte_size: usize, extra: Vec<u8> },
}

/// How far a value can be split among workers.
#[derive(Clone, Copy, Debug, PartialEq, Eq, Structural)]
pub enum Parallelizable {
    X(u64),
    XY(u64, u64),
    FULL,
    Sync,
}

#[derive(Debug, PartialEq, Eq)]
pub enum ParallelizationDescriptor {
    Struct(StructParallelizationDescriptor),
    Data(Parallelizable),
}

/// One field of a record as parallel work sees it.
#[derive(Debug, PartialEq, Eq)]
pub struct ParallelField {
    pub position: u8,
    pub layout: MemoryLayoutDescriptor,
    pub parallel: ParallelizationDescriptor,
}

#[derive(Debug, PartialEq, Eq)]
pub struct StructParallelizationDescriptor {
    pub this: Parallelizable,
    pub fields: Vec<Named<ParallelField>>,
}

/// The sizes of the fields from `from` on, added up. A name has one field:
/// where it stands more than once, the last entry is the field.
pub open spec fn sum_sizes(fields: Vec<Named<FieldLayout>>, from: nat) -> nat
    decreases fields, fields.len() - from,
{
    if from >= fields.len() {
        0
    } else if stands(fields@, from as int) {
        fields[from as int].value.layout.size() + sum_sizes(fields, from + 1)
    } else {
        sum_sizes(fields, from + 1)
    }
}

/// The sizes of the fields from `from` on that stand before `position`,
/// added up. A name has one field: where it stands more than once, the last
/// entry is the field.
pub open spec fn sum_before(fields: Vec<Named<FieldLayout>>, position: u8, from: nat) -> nat
    decreases fields, fields.len() - from,
{
    if from >= fields.len() {
        0
    } else if stands(fields@, from as int) && fields[from as int].value.position < position {
        fields[from as int].value.layout.size() + sum_before(fields, position, from + 1)
    } else {
        sum_before(fields, position, from + 1)
    }
}

/// Whether the size of each field from `from` on is known.
pub open spec fn all_sized(fields: Vec<Named<FieldLayout>>, from: nat) -> bool
    decreases fields, fields.len() - from,
{
    from >= fields.len() || ((stands(fields@, from as int)
        ==> fields[from as int].value.layout.sized()) && all_sized(fields, from + 1))
}

/// The fields before a position take no more room than all fields.
pub proof fn lemma_before_is_part(fields: Vec<Named<FieldLayout>>, position: u8, from: nat)
    ensures
        sum_before(fields, position, from) <= sum_sizes(fields, from),
    decreases fields.len() - from,
{
    if from < fields.len() {
        lemma_before_is_part(fields, position, from + 1);
    }
}

/// Whether the layout is that of a tensor of items of a kind: a record of
/// the shape, a vector of unsigned integers of eight bytes, and the data, a
/// vector of items.
pub open spec fn is_tensor_layout(layout: MemoryLayoutDescriptor, element: ValueKind) -> bool {
    layout matches MemoryLayoutDescriptor::Struct(fields) && fields.len() == 2 && fields[0].name@
        == "shape"@ && fields[0].value == (FieldLayout {
        position: 0,
        layout: MemoryLayoutDescriptor::Vector {
            item_typ: Box::new(MemoryLayoutDescriptor::UInteger(8)),
        },
    }) && fields[1].name@ == "data"@ && fields[1].value == (FieldLayout {
        position: 1,
        layout: MemoryLayoutDescriptor::Vector {
            item_typ: Box::new(MemoryLayoutDescriptor::of_kind(element)),
        },
    })
}

/// Whether the layout is that of what a binding holds.
pub open spec fn describes(layout: MemoryLayoutDescriptor, data: DataType) -> bool {
    match data {
        DataType::Scalar(kind) => layout == MemoryLayoutDescriptor::of_kind(kind),
        DataType::Indexable { element, container: Container::Vector } => layout == (
        MemoryLayoutDescriptor::Vector {
            item_typ: Box::new(MemoryLayoutDescriptor::of_kind(element)),
        }),
        DataType::Indexable { element, container: Container::Tensor } => is_tensor_layout(
            layout,
            element,
        ),
    }
}

impl MemoryLayoutDescriptor {
    /// Whether the number of bytes is known: numbers have a size, and so
    /// does a record of fields that have one.
    pub open spec fn sized(self) -> bool
        decreases self, 1nat,
    {
        match self {
            MemoryLayoutDescriptor::Float(_) | MemoryLayoutDescriptor::Integer(_)
            | MemoryLayoutDescriptor::UInteger(_) => true,
            MemoryLayoutDescriptor::Struct(fields) => all_sized(fields, 0),
            _ => false,
        }
    }

    /// The number of bytes a value takes; zero where it is not known.
    pub open spec fn size(self) -> nat
        decreases self, 1nat,
    {
        match self {
            MemoryLayoutDescriptor::Float(x) | MemoryLayoutDescriptor::Integer(x)
            | MemoryLayoutDescriptor::UInteger(x) => x as nat,
            MemoryLayoutDescriptor::Struct(fields) => sum_sizes(fields, 0),
            _ => 0,
        }
    }

    /// The number of bytes a value takes.
    pub fn get_byte_size(&self) -> (r: u64)
        requires
            self.sized(),
            self.size() <= u64::MAX,
        ensures
            r == self.size(),
        decreases self, 1nat,
    {
        match self {
            MemoryLayoutDescriptor::Float(x) => *x as u64,
            MemoryLayoutDescriptor::Integer(x) => *x as u64,
            MemoryLayoutDescriptor::UInteger(x) => *x as u64,
            MemoryLayoutDescriptor::Struct(fields) => Self::sizes_from(fields, 0),
            _ => 0,
        }
    }

    /// The sizes of the fields from `from` on, added up.
    pub fn sizes_from(fields: &Vec<Named<FieldLayout>>, from: usize) -> (r: u64)
        requires
            all_sized(*fields, from as nat),
            sum_sizes(*fields, from as nat) <= u64::MAX,
        ensures
            r == sum_sizes(*fields, from as nat),
        decreases fields, fields.len() - from,
    {
        if from >= fields.len() {
            0
        } else {
            let others = Self::sizes_from(fields, from + 1);
            if stands_at(fields, from) {
                let first = fields[from].value.layout.get_byte_size();
                first + others
            } else {
                others
            }
        }
    }

    /// The sizes of the fields from `from` on that stand before `position`,
    /// added up.
    pub fn before_from(fields: &Vec<Named<FieldLayout>>, position: u8, from: usize) -> (r: u64)
        requires
            all_sized(*fields, from as nat),
            sum_sizes(*fields, from as nat) <= u64::MAX,
        ensures
            r == sum_before(*fields, position, from as nat),
        decreases fields, fields.len() - from,
    {
        if from >= fields.len() {
            0
        } else {
            proof {
                lemma_before_is_part(*fields, position, (from + 1) as nat);
            }
            let others = Self::before_from(fields, position, from + 1);
            if stands_at(fields, from) && fields[from].value.position < position {
                let first = fields[from].value.layout.get_byte_size();
                first + others
            } else {
                others
            }
        }
    }

    /// The number of bytes that the fields of a record take which stand
    /// before the field `entry`.
    pub fn get_bytes_before(&self, entry: &str) -> (r: u64)
        requires
            self matches MemoryLayoutDescriptor::Struct(fields) && find_named(fields@, entry@)
                is Some,
            self.sized(),
            self.size() <= u64::MAX,
        ensures
            self matches MemoryLayoutDescriptor::Struct(fields) && r == sum_before(
                *fields,
                fields[find_named(fields@, entry@)->0].value.position,
                0,
            ),
    {
        match self {
            MemoryLayoutDescriptor::Struct(fields) => {
                let name = entry.to_owned();
                match position_named(fields, &name) {
                    Some(i) => Self::before_from(fields, fields[i].value.position, 0),
                    None => 0,
                }
            },
            _ => 0,
        }
    }

    /// The layout of one value of a kind.
    pub open spec fn of_kind(kind: ValueKind) -> MemoryLayoutDescriptor {
        match kind {
            ValueKind::Bool => MemoryLayoutDescriptor::UInteger(1),
            ValueKind::I32 => MemoryLayoutDescriptor::Integer(4),
            ValueKind::I64 => MemoryLayoutDescriptor::Integer(8),
            ValueKind::U32 => MemoryLayoutDescriptor::UInteger(4),
            ValueKind::U64 => MemoryLayoutDescriptor::UInteger(8),
            ValueKind::F32 => MemoryLayoutDescriptor::Float(4),
            ValueKind::Void | ValueKind::Generic(_) => MemoryLayoutDescriptor::Empty,
        }
    }

    /// The layout of one value of a kind.
    pub fn get_memory_layout(kind: ValueKind) -> (r: MemoryLayoutDescriptor)
        ensures
            r == Self::of_kind(kind),
            kind.is_scalar() ==> r.sized() && r.size() == kind.size(),
    {
        match kind {
            ValueKind::Bool => MemoryLayoutDescriptor::UInteger(1),
            ValueKind::I32 => MemoryLayoutDescriptor::Integer(4),
            ValueKind::I64 => MemoryLayoutDescriptor::Integer(8),
            ValueKind::U32 => MemoryLayoutDescriptor::UInteger(4),
            ValueKind::U64 => MemoryLayoutDescriptor::UInteger(8),
            ValueKind::F32 => MemoryLayoutDescriptor::Float(4),
            ValueKind::Void | ValueKind::Generic(_) => MemoryLayoutDescriptor::Empty,
        }
    }

    /// The layout of a tensor: its shape, then its data.
    pub fn of_tensor(element: ValueKind) -> (r: MemoryLayoutDescriptor)
        ensures
            is_tensor_layout(r, element),
    {
        let mut fields: Vec<Named<FieldLayout>> = Vec::new();
        fields.push(
            Named {
                name: "shape".to_owned(),
                value: FieldLayout {
                    position: 0,
                    layout: MemoryLayoutDescriptor::Vector {
                        item_typ: Box::new(MemoryLayoutDescriptor::UInteger(8)),
                    },
                },
            },
        );
        fields.push(
            Named {
                name: "data".to_owned(),
                value: FieldLayout {
                    position: 1,
                    layout: MemoryLayoutDescriptor::Vector {
                        item_typ: Box::new(Self::get_memory_layout(element)),
                    },
                },
            },
        );
        MemoryLayoutDescriptor::Struct(fields)
    }

    /// The layout of what a binding holds.
    pub fn of_data(data: DataType) -> (r: MemoryLayoutDescriptor)
        ensures
            describes(r, data),
    {
        match data {
            DataType::Scalar(kind) => Self::get_memory_layout(kind),
            DataType::Indexable { element, container: Container::Vector } => {
                MemoryLayoutDescriptor::Vector {
                    item_typ: Box::new(Self::get_memory_layout(element)),
                }
            },
            DataType::Indexable { element, container: Container::Tensor } => Self::of_tensor(
                element,
            ),
        }
    }
}

} // verus!
