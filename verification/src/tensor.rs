//! Tensors: a flat buffer with a shape, and the same buffer cut into one
//! region for each index of its first axis.

use vstd::prelude::*;
use crate::allocated::{
    MemoryLayoutDescriptor, ParallelField, Parallelizable, ParallelizationDescriptor,
    StructParallelizationDescriptor,
};
use crate::tables::Named;
use crate::region_guard::{valid_split, RegionGuard};
use crate::types::ValueKind;

verus! {

/// A buffer of `product(shape)` items.
#[derive(Debug, PartialEq, Eq)]
pub struct Tensor<C> {
    pub data: Vec<C>,
    pub shape: Vec<usize>,
}

/// The product of the first `n` extents.
pub open spec fn product(shape: Seq<usize>, n: nat) -> nat
    decreases n,
{
    if n == 0 {
        1
    } else {
        product(shape, (n - 1) as nat) * (shape[n - 1] as nat)
    }
}

/// How many items one index of the first axis stands for: the product of
/// the other extents.
pub open spec fn row_length(shape: Seq<usize>) -> nat {
    product(shape.skip(1), shape.skip(1).len())
}

/// Whether the product of every run of leading extents fits the machine.
pub open spec fn fits(shape: Seq<usize>) -> bool {
    forall|n: nat| n <= shape.len() ==> #[trigger] product(shape, n) <= usize::MAX
}

/// The product of the extents, or `None` where it does not fit.
pub fn checked_product(shape: &Vec<usize>) -> (r: Option<usize>)
    ensures
        match r {
            Some(p) => fits(shape@) && p == product(shape@, shape@.len()),
            None => !fits(shape@),
        },
{
    let mut p: usize = 1;
    let mut i: usize = 0;
    while i < shape.len()
        invariant
            i <= shape.len(),
            p == product(shape@, i as nat),
            forall|n: nat| n <= i ==> #[trigger] product(shape@, n) <= usize::MAX,
        decreases shape.len() - i,
    {
        match p.checked_mul(shape[i]) {
            Some(q) => {
                p = q;
            },
            None => {
                assert(product(shape@, (i + 1) as nat) > usize::MAX);
                return None;
            },
        }
        i += 1;
    }
    Some(p)
}

/// The regions of a buffer of `rows` rows of `row` items: one region for
/// each row.
pub fn row_regions(rows: usize, row: usize) -> (r: Vec<(usize, usize)>)
    requires
        rows * row <= usize::MAX,
    ensures
        r.len() == rows,
        forall|i: int| 0 <= i < rows ==> #[trigger] r[i] == ((i * row) as usize, (i * row + row) as usize),
        forall|n: nat| valid_split(r@, n) <==> rows > 0 && rows * row <= n,
{
    let mut regions: Vec<(usize, usize)> = Vec::new();
    let mut current: usize = 0;
    let mut i: usize = 0;
    while i < rows
        invariant
            i <= rows,
            rows * row <= usize::MAX,
            current == i * row,
            regions.len() == i,
            forall|k: int|
                0 <= k < i ==> #[trigger] regions[k] == ((k * row) as usize, (k * row + row) as usize),
        decreases rows - i,
    {
        assert((i + 1) * row <= rows * row) by (nonlinear_arith)
            requires
                i + 1 <= rows,
                row >= 0,
        ;
        assert((i + 1) * row == i * row + row) by (nonlinear_arith);
        regions.push((current, current + row));
        current = current + row;
        i += 1;
    }
    proof {
        assert forall|n: nat| valid_split(regions@, n) <==> rows > 0 && rows * row <= n by {
            if rows > 0 {
                assert((rows - 1) * row + row == rows * row) by (nonlinear_arith);
                assert(regions@[rows - 1].1 == rows * row);
                if rows * row <= n {
                    assert forall|k: int| 0 <= k < rows implies (#[trigger] regions@[k]).0
                        <= regions@[k].1 <= n by {
                        assert((k + 1) * row <= rows * row) by (nonlinear_arith)
                            requires
                                k + 1 <= rows,
                                row >= 0,
                        ;
                        assert((k + 1) * row == k * row + row) by (nonlinear_arith);
                        assert(k * row >= 0) by (nonlinear_arith)
                            requires
                                k >= 0,
                                row >= 0,
                        ;
                    }
                    assert forall|k: int| 0 <= k < rows - 1 implies (#[trigger] regions@[k]).1
                        <= regions@[k + 1].0 by {
                        assert((k + 1) * row == k * row + row) by (nonlinear_arith);
                        assert((k + 2) * row <= rows * row) by (nonlinear_arith)
                            requires
                                k + 2 <= rows,
                                row >= 0,
                        ;
                        assert((k + 1) * row >= 0) by (nonlinear_arith)
                            requires
                                k >= 0,
                                row >= 0,
                        ;
                    }
                }
            }
        }
    }
    regions
}

impl<C: Copy> Tensor<C> {
    /// A tensor of the given shape, filled with `val`; `None` where the
    /// number of its items does not fit the machine.
    pub fn new(val: C, shape: Vec<usize>) -> (r: Option<Tensor<C>>)
        ensures
            r is Some == fits(shape@),
            r matches Some(t) ==> t.shape == shape && t.data.len() == product(
                shape@,
                shape@.len(),
            ) && forall|i: int| 0 <= i < t.data.len() ==> t.data[i] == val,
    {
        match checked_product(&shape) {
            None => None,
            Some(n) => {
                let mut data: Vec<C> = Vec::new();
                let mut i: usize = 0;
                while i < n
                    invariant
                        i <= n,
                        data.len() == i,
                        forall|k: int| 0 <= k < i ==> data[k] == val,
                    decreases n - i,
                {
                    data.push(val);
                    i += 1;
                }
                Some(Tensor { data, shape })
            },
        }
    }

    /// The item at `index`.
    pub fn index(&self, index: u32) -> (r: &C)
        requires
            index < self.data.len(),
        ensures
            *r == self.data[index as int],
    {
        &self.data[index as usize]
    }

    /// How a tensor of items of this kind lies in memory.
    pub fn get_memory_layout(element: ValueKind) -> (r: MemoryLayoutDescriptor)
        ensures
            crate::allocated::is_tensor_layout(r, element),
    {
        MemoryLayoutDescriptor::of_tensor(element)
    }

    /// How far the tensor can be split among workers: along its first axis.
    /// The shape is read by all workers; the data is split as the tensor is.
    pub fn get_parallelization_info(&self, element: ValueKind) -> (r: ParallelizationDescriptor)
        requires
            self.shape.len() > 0,
        ensures
            r matches ParallelizationDescriptor::Struct(s) && s.this == Parallelizable::X(
                self.shape[0] as u64,
            ) && s.fields.len() == 2 && s.fields[0].name@ == "shape"@ && s.fields[0].value == (
            ParallelField {
                position: 0,
                layout: MemoryLayoutDescriptor::Vector {
                    item_typ: Box::new(MemoryLayoutDescriptor::UInteger(8)),
                },
                parallel: ParallelizationDescriptor::Data(Parallelizable::Sync),
            }) && s.fields[1].name@ == "data"@ && s.fields[1].value == (ParallelField {
                position: 1,
                layout: MemoryLayoutDescriptor::Vector {
                    item_typ: Box::new(MemoryLayoutDescriptor::of_kind(element)),
                },
                parallel: ParallelizationDescriptor::Data(Parallelizable::X(self.shape[0] as u64)),
            }),
    {
        let rows = self.shape[0] as u64;
        let mut fields: Vec<Named<ParallelField>> = Vec::new();
        fields.push(
            Named {
                name: "shape".to_owned(),
                value: ParallelField {
                    position: 0,
                    layout: MemoryLayoutDescriptor::Vector {
                        item_typ: Box::new(MemoryLayoutDescriptor::UInteger(8)),
                    },
                    parallel: ParallelizationDescriptor::Data(Parallelizable::Sync),
                },
            },
        );
        fields.push(
            Named {
                name: "data".to_owned(),
                value: ParallelField {
                    position: 1,
                    layout: MemoryLayoutDescriptor::Vector {
                        item_typ: Box::new(MemoryLayoutDescriptor::get_memory_layout(element)),
                    },
                    parallel: ParallelizationDescriptor::Data(Parallelizable::X(rows)),
                },
            },
        );
        ParallelizationDescriptor::Struct(
            StructParallelizationDescriptor { this: Parallelizable::X(rows), fields },
        )
    }

    /// The tensor behind region locks, one region for each index of its
    /// first axis. `None` where the tensor has no axis, no index on its
    /// first axis, or fewer items than its shape says.
    pub fn into_regions(self) -> (r: Option<MyCPUTensor<C>>)
        ensures
            r is Some == (self.shape.len() > 0 && self.shape[0] > 0 && fits(self.shape@.skip(1))
                && self.shape[0] * row_length(self.shape@) <= self.data.len()),
            r matches Some(t) ==> t.data.wf() && t.shape == self.shape && t.data.state().lock
                is None && t.data.state().regions.len == self.shape[0] && t.data.made().len()
                == self.shape[0] && (forall|i: int|
                0 <= i < self.shape[0] ==> (#[trigger] t.data.state().regions.regions[i]).0 == i
                    * row_length(self.shape@)) && (forall|i: int|
                0 <= i < self.shape[0] ==> #[trigger] t.data.made()[i] == self.data@.subrange(
                    i * row_length(self.shape@),
                    i * row_length(self.shape@) + row_length(self.shape@),
                )),
    {
        if self.shape.len() == 0 {
            return None;
        }
        let rows = self.shape[0];
        let mut rest: Vec<usize> = Vec::new();
        let mut i: usize = 1;
        while i < self.shape.len()
            invariant
                1 <= i <= self.shape.len(),
                rest@ == self.shape@.skip(1).take(i - 1),
            decreases self.shape.len() - i,
        {
            rest.push(self.shape[i]);
            assert(rest@ =~= self.shape@.skip(1).take(i as int));
            i += 1;
        }
        assert(rest@ =~= self.shape@.skip(1));
        let row = match checked_product(&rest) {
            Some(row) => row,
            None => {
                return None;
            },
        };
        match rows.checked_mul(row) {
            None => None,
            Some(_) => {
                let regions = row_regions(rows, row);
                match RegionGuard::new(self.data, regions) {
                    Some(data) => {
                        proof {
                            data.lemma_state_is_in_order();
                            let starts = crate::region_guard::starts_of(regions@);
                            let found = crate::region_guard::starts_of(
                                data.state().regions.regions@,
                            );
                            assert forall|k: int| 0 <= k < rows implies (
                            #[trigger] data.state().regions.regions[k]).0 == k * row by {
                                assert(found[k] == starts[k]);
                                assert(starts[k] == regions@[k].0);
                                assert(0 <= k * row <= rows * row) by (nonlinear_arith)
                                    requires
                                        0 <= k < rows,
                                        row >= 0,
                                ;
                            }
                            assert forall|k: int| 0 <= k < rows implies #[trigger] data.made()[k]
                                == self.data@.subrange(k * row, k * row + row) by {
                                assert(regions[k] == ((k * row) as usize, (k * row + row) as usize));
                                assert(0 <= k * row && k * row + row <= rows * row) by (nonlinear_arith)
                                    requires
                                        0 <= k < rows,
                                        row >= 0,
                                ;
                            }
                        }
                        Some(MyCPUTensor { shape: self.shape, data })
                    },
                    None => None,
                }
            },
        }
    }
}

/// A tensor whose buffer is cut into regions, for many workers at once.
#[verifier::reject_recursive_types(C)]
pub struct MyCPUTensor<C> {
    pub shape: Vec<usize>,
    pub data: RegionGuard<C>,
}

impl<C: Copy> MyCPUTensor<C> {
    /// One more accessor to the same regions.
    pub fn share(&self) -> (r: MyCPUTensor<C>)
        requires
            self.data.wf(),
        ensures
            r.data.wf(),
            r.shape@ == self.shape@,
            r.data.state().lock is None,
            r.data.state().regions.regions@ == self.data.state().regions.regions@,
            r.data.made() == self.data.made(),
    {
        let mut shape: Vec<usize> = Vec::new();
        let mut i: usize = 0;
        while i < self.shape.len()
            invariant
                i <= self.shape.len(),
                shape@ == self.shape@.take(i as int),
            decreases self.shape.len() - i,
        {
            shape.push(self.shape[i]);
            assert(shape@ =~= self.shape@.take(i + 1));
            i += 1;
        }
        assert(self.shape@.take(i as int) =~= self.shape@);
        MyCPUTensor { shape, data: self.data.share() }
    }
}

} // verus!
