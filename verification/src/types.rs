//! Value kinds: the primitive scalar types a kernel can compute with.

use vstd::prelude::*;

verus! {

/// The kind of value an operation yields.
///
/// `Generic(i)` stands for the `i`-th type parameter of the function that is
/// being lowered; it is replaced by a concrete kind when the function is
/// instantiated.
#[derive(Clone, Copy, Debug, PartialEq, Eq, Structural)]
pub enum ValueKind {
    Void,
    Bool,
    I32,
    I64,
    U32,
    U64,
    F32,
    Generic(u8),
}

/// Marker for "no value".
#[derive(Clone, Copy, Debug, PartialEq, Eq, Structural)]
pub struct Void;

/// A cell of the three-dimensional dispatch grid.
#[derive(Clone, Copy, Debug, PartialEq, Eq, Structural)]
pub struct Pos {
    pub x: u32,
    pub y: u32,
    pub z: u32,
}

impl ValueKind {
    /// A concrete scalar: neither `Void` nor a type parameter.
    pub open spec fn is_scalar(self) -> bool {
        !(self is Void) && !(self is Generic)
    }

    /// The canonical name of the kind.
    pub open spec fn name(self) -> Seq<char> {
        match self {
            ValueKind::Void => "void"@,
            ValueKind::Bool => "bool"@,
            ValueKind::I32 => "i32"@,
            ValueKind::I64 => "i64"@,
            ValueKind::U32 => "u32"@,
            ValueKind::U64 => "u64"@,
            ValueKind::F32 => "f32"@,
            ValueKind::Generic(_) => "generic"@,
        }
    }

    /// Number of bytes one value of the kind occupies; zero where the kind
    /// has no fixed layout.
    pub open spec fn size(self) -> nat {
        match self {
            ValueKind::Bool => 1,
            ValueKind::I32 | ValueKind::U32 | ValueKind::F32 => 4,
            ValueKind::I64 | ValueKind::U64 => 8,
            ValueKind::Void | ValueKind::Generic(_) => 0,
        }
    }

    /// The scalar kind named `name`, if there is one.
    pub open spec fn named(name: Seq<char>) -> Option<ValueKind> {
        if name == "bool"@ {
            Some(ValueKind::Bool)
        } else if name == "i32"@ {
            Some(ValueKind::I32)
        } else if name == "i64"@ {
            Some(ValueKind::I64)
        } else if name == "u32"@ {
            Some(ValueKind::U32)
        } else if name == "u64"@ {
            Some(ValueKind::U64)
        } else if name == "f32"@ {
            Some(ValueKind::F32)
        } else {
            None
        }
    }

    pub fn get_type(&self) -> (r: &'static str)
        ensures
            r@ == self.name(),
    {
        match self {
            ValueKind::Void => "void",
            ValueKind::Bool => "bool",
            ValueKind::I32 => "i32",
            ValueKind::I64 => "i64",
            ValueKind::U32 => "u32",
            ValueKind::U64 => "u64",
            ValueKind::F32 => "f32",
            ValueKind::Generic(_) => "generic",
        }
    }

    pub fn byte_size(&self) -> (r: usize)
        ensures
            r == self.size(),
    {
        match self {
            ValueKind::Bool => 1,
            ValueKind::I32 | ValueKind::U32 | ValueKind::F32 => 4,
            ValueKind::I64 | ValueKind::U64 => 8,
            ValueKind::Void | ValueKind::Generic(_) => 0,
        }
    }

    /// Looks a scalar kind up by its canonical name.
    pub fn from_name(name: &str) -> (r: Option<ValueKind>)
        ensures
            r == Self::named(name@),
    {
        let owned = name.to_owned();
        if crate::text::is_word(&owned, "bool") {
            Some(ValueKind::Bool)
        } else if crate::text::is_word(&owned, "i32") {
            Some(ValueKind::I32)
        } else if crate::text::is_word(&owned, "i64") {
            Some(ValueKind::I64)
        } else if crate::text::is_word(&owned, "u32") {
            Some(ValueKind::U32)
        } else if crate::text::is_word(&owned, "u64") {
            Some(ValueKind::U64)
        } else if crate::text::is_word(&owned, "f32") {
            Some(ValueKind::F32)
        } else {
            None
        }
    }

    pub fn same(&self, other: &ValueKind) -> (r: bool)
        ensures
            r == (*self == *other),
    {
        *self == *other
    }
}

/// Looking a scalar kind up by its own name finds it again.
pub proof fn law_kind_is_found_by_its_name(kind: ValueKind)
    requires
        kind.is_scalar(),
    ensures
        ValueKind::named(kind.name()) == Some(kind),
{
    reveal_strlit("bool");
    reveal_strlit("i32");
    reveal_strlit("i64");
    reveal_strlit("u32");
    reveal_strlit("u64");
    reveal_strlit("f32");
    let n = kind.name();
    match kind {
        ValueKind::Bool => {},
        ValueKind::I32 => {
            assert("i32"@[0] != "bool"@[0]);
        },
        ValueKind::I64 => {
            assert("i64"@[0] != "bool"@[0]);
            assert("i64"@[1] != "i32"@[1]);
        },
        ValueKind::U32 => {
            assert("u32"@[0] != "bool"@[0]);
            assert("u32"@[0] != "i32"@[0]);
            assert("u32"@[0] != "i64"@[0]);
        },
        ValueKind::U64 => {
            assert("u64"@[0] != "bool"@[0]);
            assert("u64"@[0] != "i32"@[0]);
            assert("u64"@[0] != "i64"@[0]);
            assert("u64"@[1] != "u32"@[1]);
        },
        ValueKind::F32 => {
            assert("f32"@[0] != "bool"@[0]);
            assert("f32"@[0] != "i32"@[0]);
            assert("f32"@[0] != "i64"@[0]);
            assert("f32"@[0] != "u32"@[0]);
            assert("f32"@[0] != "u64"@[0]);
        },
        _ => {},
    }
}

/// One value of a scalar kind. A float is held by its bits.
#[derive(Clone, Copy, Debug, PartialEq, Eq, Structural)]
pub enum Scalar {
    Bool(bool),
    I32(i32),
    I64(i64),
    U32(u32),
    U64(u64),
    F32 { bits: u32 },
}

/// The bytes of a value, the lowest first.
pub open spec fn bytes_of(value: Scalar) -> Seq<u8> {
    match value {
        Scalar::Bool(b) => if b {
            seq![1u8]
        } else {
            seq![0u8]
        },
        Scalar::I32(x) => vstd::bytes::spec_u32_to_le_bytes(x as u32),
        Scalar::I64(x) => vstd::bytes::spec_u64_to_le_bytes(x as u64),
        Scalar::U32(x) => vstd::bytes::spec_u32_to_le_bytes(x),
        Scalar::U64(x) => vstd::bytes::spec_u64_to_le_bytes(x),
        Scalar::F32 { bits } => vstd::bytes::spec_u32_to_le_bytes(bits),
    }
}

/// The value of a kind that the bytes stand for, the lowest first; `None`
/// where the kind has no values or the bytes are not as many as it takes.
pub open spec fn value_of_bytes(kind: ValueKind, bytes: Seq<u8>) -> Option<Scalar> {
    if !kind.is_scalar() || bytes.len() != kind.size() {
        None
    } else {
        match kind {
            ValueKind::Bool => Some(Scalar::Bool(bytes[0] == 1)),
            ValueKind::I32 => Some(Scalar::I32(vstd::bytes::spec_u32_from_le_bytes(bytes) as i32)),
            ValueKind::I64 => Some(Scalar::I64(vstd::bytes::spec_u64_from_le_bytes(bytes) as i64)),
            ValueKind::U32 => Some(Scalar::U32(vstd::bytes::spec_u32_from_le_bytes(bytes))),
            ValueKind::U64 => Some(Scalar::U64(vstd::bytes::spec_u64_from_le_bytes(bytes))),
            ValueKind::F32 => Some(
                Scalar::F32 { bits: vstd::bytes::spec_u32_from_le_bytes(bytes) },
            ),
            _ => None,
        }
    }
}

impl Scalar {
    /// The kind of the value.
    pub open spec fn kind_of(self) -> ValueKind {
        match self {
            Scalar::Bool(_) => ValueKind::Bool,
            Scalar::I32(_) => ValueKind::I32,
            Scalar::I64(_) => ValueKind::I64,
            Scalar::U32(_) => ValueKind::U32,
            Scalar::U64(_) => ValueKind::U64,
            Scalar::F32 { .. } => ValueKind::F32,
        }
    }

    /// The zero of a kind.
    pub open spec fn zero_of(kind: ValueKind) -> Option<Scalar> {
        match kind {
            ValueKind::Bool => Some(Scalar::Bool(false)),
            ValueKind::I32 => Some(Scalar::I32(0)),
            ValueKind::I64 => Some(Scalar::I64(0)),
            ValueKind::U32 => Some(Scalar::U32(0)),
            ValueKind::U64 => Some(Scalar::U64(0)),
            ValueKind::F32 => Some(Scalar::F32 { bits: 0 }),
            _ => None,
        }
    }

    /// An integer as a value of a kind: a boolean holds where the integer
    /// is not zero, and an integer kind keeps the low bits. A float is not
    /// made here.
    pub open spec fn of_int(kind: ValueKind, from: isize) -> Option<Scalar> {
        match kind {
            ValueKind::Bool => Some(Scalar::Bool(from != 0)),
            ValueKind::I32 => Some(Scalar::I32(from as i32)),
            ValueKind::I64 => Some(Scalar::I64(from as i64)),
            ValueKind::U32 => Some(Scalar::U32(from as u32)),
            ValueKind::U64 => Some(Scalar::U64(from as u64)),
            _ => None,
        }
    }

    pub fn get_type(&self) -> (r: ValueKind)
        ensures
            r == self.kind_of(),
    {
        match self {
            Scalar::Bool(_) => ValueKind::Bool,
            Scalar::I32(_) => ValueKind::I32,
            Scalar::I64(_) => ValueKind::I64,
            Scalar::U32(_) => ValueKind::U32,
            Scalar::U64(_) => ValueKind::U64,
            Scalar::F32 { .. } => ValueKind::F32,
        }
    }

    pub fn get_zero(kind: ValueKind) -> (r: Option<Scalar>)
        ensures
            r == Self::zero_of(kind),
            r is Some == kind.is_scalar(),
    {
        match kind {
            ValueKind::Bool => Some(Scalar::Bool(false)),
            ValueKind::I32 => Some(Scalar::I32(0)),
            ValueKind::I64 => Some(Scalar::I64(0)),
            ValueKind::U32 => Some(Scalar::U32(0)),
            ValueKind::U64 => Some(Scalar::U64(0)),
            ValueKind::F32 => Some(Scalar::F32 { bits: 0 }),
            _ => None,
        }
    }

    pub fn from_int(kind: ValueKind, from: isize) -> (r: Option<Scalar>)
        ensures
            r == Self::of_int(kind, from),
    {
        match kind {
            ValueKind::Bool => Some(Scalar::Bool(from != 0)),
            ValueKind::I32 => Some(Scalar::I32(#[verifier::truncate] (from as i32))),
            ValueKind::I64 => Some(Scalar::I64(#[verifier::truncate] (from as i64))),
            ValueKind::U32 => Some(Scalar::U32(#[verifier::truncate] (from as u32))),
            ValueKind::U64 => Some(Scalar::U64(#[verifier::truncate] (from as u64))),
            _ => None,
        }
    }

    /// The bytes of the value, the lowest first.
    pub fn to_bytes(&self) -> (r: Vec<u8>)
        ensures
            r@ == bytes_of(*self),
            r.len() == self.kind_of().size(),
    {
        proof {
            vstd::bytes::lemma_auto_spec_u32_to_from_le_bytes();
            vstd::bytes::lemma_auto_spec_u64_to_from_le_bytes();
        }
        match self {
            Scalar::Bool(b) => {
                let mut bytes: Vec<u8> = Vec::new();
                if *b {
                    bytes.push(1u8);
                } else {
                    bytes.push(0u8);
                }
                assert(bytes@ =~= bytes_of(*self));
                bytes
            },
            Scalar::I32(x) => vstd::bytes::u32_to_le_bytes(#[verifier::truncate] (*x as u32)),
            Scalar::I64(x) => vstd::bytes::u64_to_le_bytes(#[verifier::truncate] (*x as u64)),
            Scalar::U32(x) => vstd::bytes::u32_to_le_bytes(*x),
            Scalar::U64(x) => vstd::bytes::u64_to_le_bytes(*x),
            Scalar::F32 { bits } => vstd::bytes::u32_to_le_bytes(*bits),
        }
    }

    /// The value of a kind that the bytes stand for.
    pub fn from_bytes(kind: ValueKind, bytes: &Vec<u8>) -> (r: Option<Scalar>)
        ensures
            r == value_of_bytes(kind, bytes@),
    {
        if bytes.len() != kind.byte_size() {
            return None;
        }
        match kind {
            ValueKind::Bool => Some(Scalar::Bool(bytes[0] == 1)),
            ValueKind::I32 => Some(
                Scalar::I32(
                    #[verifier::truncate]
                    (vstd::bytes::u32_from_le_bytes(bytes.as_slice()) as i32),
                ),
            ),
            ValueKind::I64 => Some(
                Scalar::I64(
                    #[verifier::truncate]
                    (vstd::bytes::u64_from_le_bytes(bytes.as_slice()) as i64),
                ),
            ),
            ValueKind::U32 => Some(Scalar::U32(vstd::bytes::u32_from_le_bytes(bytes.as_slice()))),
            ValueKind::U64 => Some(Scalar::U64(vstd::bytes::u64_from_le_bytes(bytes.as_slice()))),
            ValueKind::F32 => Some(
                Scalar::F32 { bits: vstd::bytes::u32_from_le_bytes(bytes.as_slice()) },
            ),
            _ => None,
        }
    }
}

/// What is written as bytes reads back as the same value.
pub proof fn law_bytes_round_trip(value: Scalar)
    ensures
        value_of_bytes(value.kind_of(), bytes_of(value)) == Some(value),
{
    vstd::bytes::lemma_auto_spec_u32_to_from_le_bytes();
    vstd::bytes::lemma_auto_spec_u64_to_from_le_bytes();
    match value {
        Scalar::I32(x) => {
            assert((x as u32) as i32 == x) by (bit_vector);
        },
        Scalar::I64(x) => {
            assert((x as u64) as i64 == x) by (bit_vector);
        },
        _ => {},
    }
}

} // verus!
