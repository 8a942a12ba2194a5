//! Variables: named, typed references to a slot that a backend resolves.

use vstd::prelude::*;
use crate::types::ValueKind;
use crate::text::{clone_text, same_text, same_text_exec};

verus! {

/// A named reference. `member` is set for a field of a record-shaped input,
/// such as `pos.x`, and for the data field of an indexable input.
#[derive(Debug, PartialEq, Eq)]
pub struct Variable {
    pub reference: String,
    pub member: Option<String>,
    pub kind: ValueKind,
}

impl Variable {
    /// Variables are equal when their names are: the kind plays no part.
    pub open spec fn same_name(self, other: Variable) -> bool {
        self.reference@ == other.reference@ && same_text(self.member, other.member)
    }

    /// A variable of the given kind, known by `name` alone.
    pub fn new(name: &str, kind: ValueKind) -> (r: Variable)
        ensures
            r.reference@ == name@,
            r.member is None,
            r.kind == kind,
    {
        Variable { reference: name.to_owned(), member: None, kind }
    }

    /// The member `member` of the record-shaped value `name`.
    pub fn field(name: &str, member: &str, kind: ValueKind) -> (r: Variable)
        ensures
            r.reference@ == name@,
            r.member matches Some(m) && m@ == member@,
            r.kind == kind,
    {
        Variable { reference: name.to_owned(), member: Some(member.to_owned()), kind }
    }

    pub fn duplicate(&self) -> (r: Variable)
        ensures
            r == *self,
    {
        Variable {
            reference: self.reference.clone(),
            member: clone_text(&self.member),
            kind: self.kind,
        }
    }

    pub fn is(&self, other: &Variable) -> (r: bool)
        ensures
            r == self.same_name(*other),
    {
        self.reference == other.reference && same_text_exec(&self.member, &other.member)
    }
}

} // verus!
