//! The CPU backend: storage for what kernels work on, counted handles to
//! it, and the plan of a dispatch.

use vstd::prelude::*;
use crate::dispatch::{chunk_end, chunk_start, workers, Worker};
use crate::kernel::{InputDescriptor, Kernel};
use crate::region_guard::RegionGuard;
use crate::syntax::Block;
use crate::tables::{
    lemma_push_keeps_others, lemma_update_keeps_others, position_named, value_of, Named,
};
use crate::types::Pos;

verus! {

/// What storage holds under one key: the data, and how many handles to it
/// are out.
#[derive(Debug, PartialEq, Eq)]
pub struct Entry<T> {
    pub references: usize,
    pub data: T,
}

/// Storage on the host. A key is the place of an entry; the place of an
/// entry that was removed stays empty.
#[derive(Debug, PartialEq, Eq)]
pub struct CPUStorage<T> {
    pub slots: Vec<Option<Entry<T>>>,
}

/// A handle to an entry of storage.
#[derive(Debug, PartialEq, Eq)]
pub struct Binding {
    reference: usize,
}

impl Binding {
    /// The key of the entry.
    pub closed spec fn key(self) -> usize {
        self.reference
    }

    pub fn new(reference: usize) -> (r: Binding)
        ensures
            r.key() == reference,
    {
        Binding { reference }
    }

    pub fn get_reference(&self) -> (r: usize)
        ensures
            r == self.key(),
    {
        self.reference
    }

    /// What the handle stands for, as long as storage holds it.
    pub fn deref<'a, T>(&self, storage: &'a CPUStorage<T>) -> (r: Option<&'a T>)
        ensures
            match r {
                Some(data) => storage.holds(self.key()) && *data == storage.data(self.key()),
                None => !storage.holds(self.key()),
            },
    {
        storage.get(self.reference)
    }

    /// Puts `value` in the place of what the handle stands for and hands
    /// out what was there.
    pub fn deref_mut<T>(&self, storage: &mut CPUStorage<T>, value: T) -> (r: Option<T>)
        ensures
            match r {
                Some(data) => old(storage).holds(self.key()) && data == old(storage).data(
                    self.key(),
                ) && final(storage).slots@ == old(storage).slots@.update(
                    self.key() as int,
                    Some(Entry { references: old(storage).references(self.key()), data: value }),
                ),
                None => !old(storage).holds(self.key()) && final(storage).slots@ == old(storage).slots@,
            },
    {
        storage.replace(self.reference, value)
    }
}

impl<T> CPUStorage<T> {
    /// Whether storage holds an entry under the key.
    pub open spec fn holds(self, key: usize) -> bool {
        key < self.slots.len() && self.slots[key as int] is Some
    }

    /// How many handles to the entry are out.
    pub open spec fn references(self, key: usize) -> usize {
        self.slots[key as int]->0.references
    }

    /// The data of the entry.
    pub open spec fn data(self, key: usize) -> T {
        self.slots[key as int]->0.data
    }

    /// Storage that holds nothing.
    pub fn new() -> (r: CPUStorage<T>)
        ensures
            r.slots@.len() == 0,
    {
        CPUStorage { slots: Vec::new() }
    }

    /// Stores `val` under a new key, with one handle out.
    pub fn insert(&mut self, val: T) -> (key: usize)
        ensures
            key == old(self).slots.len(),
            final(self).slots@ == old(self).slots@.push(Some(Entry { references: 1, data: val })),
    {
        let key = self.slots.len();
        self.slots.push(Some(Entry { references: 1, data: val }));
        key
    }

    pub fn get(&self, key: usize) -> (r: Option<&T>)
        ensures
            match r {
                Some(data) => self.holds(key) && *data == self.data(key),
                None => !self.holds(key),
            },
    {
        if key < self.slots.len() {
            match &self.slots[key] {
                Some(entry) => Some(&entry.data),
                None => None,
            }
        } else {
            None
        }
    }

    /// Puts `val` in the place of the data under `key` and hands out what
    /// was there.
    pub fn replace(&mut self, key: usize, val: T) -> (r: Option<T>)
        ensures
            match r {
                Some(data) => old(self).holds(key) && data == old(self).data(key) && final(self).slots@ == old(self).slots@.update(
                    key as int,
                    Some(Entry { references: old(self).references(key), data: val }),
                ),
                None => !old(self).holds(key) && final(self).slots@ == old(self).slots@,
            },
    {
        if key >= self.slots.len() {
            return None;
        }
        let mut taken: Option<Entry<T>> = None;
        self.slots.set_and_swap(key, &mut taken);
        match taken {
            Some(entry) => {
                self.slots.set(key, Some(Entry { references: entry.references, data: val }));
                assert(self.slots@ =~= old(self).slots@.update(
                    key as int,
                    Some(Entry { references: old(self).references(key), data: val }),
                ));
                Some(entry.data)
            },
            None => {
                assert(self.slots@ =~= old(self).slots@);
                None
            },
        }
    }

    /// Counts one more handle to the entry under `key`. The result says
    /// whether there is such an entry and the count could grow.
    pub fn retain(&mut self, key: usize) -> (r: bool)
        ensures
            r == (old(self).holds(key) && old(self).references(key) < usize::MAX),
            r ==> final(self).slots@ == old(self).slots@.update(
                key as int,
                Some(
                    Entry {
                        references: (old(self).references(key) + 1) as usize,
                        data: old(self).data(key),
                    },
                ),
            ),
            !r ==> final(self).slots@ == old(self).slots@,
    {
        if key >= self.slots.len() {
            return false;
        }
        let mut taken: Option<Entry<T>> = None;
        self.slots.set_and_swap(key, &mut taken);
        match taken {
            Some(entry) => {
                if entry.references < usize::MAX {
                    self.slots.set(
                        key,
                        Some(Entry { references: entry.references + 1, data: entry.data }),
                    );
                    assert(self.slots@ =~= old(self).slots@.update(
                        key as int,
                        Some(
                            Entry {
                                references: (old(self).references(key) + 1) as usize,
                                data: old(self).data(key),
                            },
                        ),
                    ));
                    true
                } else {
                    self.slots.set(key, Some(entry));
                    assert(self.slots@ =~= old(self).slots@);
                    false
                }
            },
            None => {
                assert(self.slots@ =~= old(self).slots@);
                false
            },
        }
    }

    /// Takes one handle back. The entry is removed, and its data handed
    /// out, exactly when this was the last handle.
    pub fn release(&mut self, key: usize) -> (r: Option<T>)
        ensures
            match r {
                Some(data) => old(self).holds(key) && old(self).references(key) <= 1 && data
                    == old(self).data(key) && final(self).slots@ == old(self).slots@.update(
                    key as int,
                    None,
                ),
                None => if old(self).holds(key) {
                    old(self).references(key) > 1 && final(self).slots@ == old(self).slots@.update(
                        key as int,
                        Some(
                            Entry {
                                references: (old(self).references(key) - 1) as usize,
                                data: old(self).data(key),
                            },
                        ),
                    )
                } else {
                    final(self).slots@ == old(self).slots@
                },
            },
    {
        if key >= self.slots.len() {
            return None;
        }
        let mut taken: Option<Entry<T>> = None;
        self.slots.set_and_swap(key, &mut taken);
        match taken {
            Some(entry) => {
                if entry.references > 1 {
                    self.slots.set(
                        key,
                        Some(Entry { references: entry.references - 1, data: entry.data }),
                    );
                    assert(self.slots@ =~= old(self).slots@.update(
                        key as int,
                        Some(
                            Entry {
                                references: (old(self).references(key) - 1) as usize,
                                data: old(self).data(key),
                            },
                        ),
                    ));
                    None
                } else {
                    Some(entry.data)
                }
            },
            None => {
                assert(self.slots@ =~= old(self).slots@);
                None
            },
        }
    }

    /// Removes the entry under `key`, however many handles are out.
    pub fn remove(&mut self, key: usize) -> (r: Option<T>)
        ensures
            match r {
                Some(data) => old(self).holds(key) && data == old(self).data(key),
                None => !old(self).holds(key),
            },
            old(self).holds(key) ==> final(self).slots@ == old(self).slots@.update(
                key as int,
                None,
            ),
            !old(self).holds(key) ==> final(self).slots@ == old(self).slots@,
    {
        if key >= self.slots.len() {
            return None;
        }
        let mut taken: Option<Entry<T>> = None;
        self.slots.set_and_swap(key, &mut taken);
        match taken {
            Some(entry) => Some(entry.data),
            None => {
                assert(self.slots@ =~= old(self).slots@);
                None
            },
        }
    }
}

/// The CPU backend: its storage, and how many entries it has handed out.
#[derive(Debug, PartialEq, Eq)]
pub struct CPUProcessor<T> {
    pub heap: CPUStorage<T>,
    pub counter: usize,
}

/// A kernel that is ready to be bound and dispatched.
#[derive(Debug, PartialEq, Eq)]
pub struct CPUExecutable {
    /// The plain form of the body: what runs for each cell.
    pub function: Block,
    /// What has to be bound: the inputs and the output.
    pub descriptors: Vec<InputDescriptor>,
    /// The keys that are bound, one for each descriptor once all are bound.
    pub bindings: Vec<usize>,
}

impl CPUExecutable {
    /// Whether every input and the output are bound.
    pub open spec fn bound(self) -> bool {
        self.bindings.len() == self.descriptors.len()
    }

    /// Binds the inputs and the output, in the order of the descriptors.
    /// The result says whether there is one key for each descriptor; where
    /// there is not, nothing is bound.
    pub fn bind(&mut self, keys: Vec<usize>) -> (r: bool)
        ensures
            r == (keys.len() == old(self).descriptors.len()),
            r ==> final(self).bindings == keys && final(self).bound(),
            !r ==> final(self).bindings == old(self).bindings,
            final(self).descriptors == old(self).descriptors,
            final(self).function == old(self).function,
    {
        if keys.len() == self.descriptors.len() {
            self.bindings = keys;
            true
        } else {
            false
        }
    }

    /// The keys of the inputs, in the order of their positions.
    pub fn get_input_references(&self) -> (r: Vec<usize>)
        requires
            self.bound(),
        ensures
            r@ == input_keys(self.descriptors@, self.bindings@, self.descriptors@.len()),
    {
        let mut keys: Vec<usize> = Vec::new();
        let mut i: usize = 0;
        while i < self.descriptors.len()
            invariant
                i <= self.descriptors.len(),
                self.bound(),
                keys@ == input_keys(self.descriptors@, self.bindings@, i as nat),
            decreases self.descriptors.len() - i,
        {
            if !self.descriptors[i].output {
                keys.push(self.bindings[i]);
            }
            i += 1;
        }
        keys
    }

    /// The key of the output.
    pub fn get_out_reference(&self) -> (r: Option<usize>)
        requires
            self.bound(),
        ensures
            r == output_key(self.descriptors@, self.bindings@, self.descriptors@.len()),
    {
        let mut found: Option<usize> = None;
        let mut i: usize = 0;
        while i < self.descriptors.len()
            invariant
                i <= self.descriptors.len(),
                self.bound(),
                found == output_key(self.descriptors@, self.bindings@, i as nat),
            decreases self.descriptors.len() - i,
        {
            if self.descriptors[i].output {
                found = Some(self.bindings[i]);
            }
            i += 1;
        }
        found
    }
}

/// The keys that are bound to the inputs among the first `n` descriptors.
pub open spec fn input_keys(descriptors: Seq<InputDescriptor>, bindings: Seq<usize>, n: nat) -> Seq<
    usize,
>
    decreases n,
{
    if n == 0 {
        Seq::empty()
    } else if descriptors[n - 1].output {
        input_keys(descriptors, bindings, (n - 1) as nat)
    } else {
        input_keys(descriptors, bindings, (n - 1) as nat).push(bindings[n - 1])
    }
}

/// The key that is bound to the last output among the first `n`
/// descriptors.
pub open spec fn output_key(descriptors: Seq<InputDescriptor>, bindings: Seq<usize>, n: nat) -> Option<
    usize,
>
    decreases n,
{
    if n == 0 {
        None
    } else if descriptors[n - 1].output {
        Some(bindings[n - 1])
    } else {
        output_key(descriptors, bindings, (n - 1) as nat)
    }
}

impl<T> CPUProcessor<T> {
    pub fn new() -> (r: CPUProcessor<T>)
        ensures
            r.counter == 0,
            r.heap.slots@.len() == 0,
    {
        CPUProcessor { heap: CPUStorage::new(), counter: 0 }
    }

    /// The kernel as an executable without bindings.
    pub fn build(&mut self, kernel: Kernel) -> (r: CPUExecutable)
        ensures
            r.function == kernel.cpu_fn,
            r.descriptors == kernel.inputs,
            r.bindings@.len() == 0,
            *final(self) == *old(self),
    {
        CPUExecutable { function: kernel.cpu_fn, descriptors: kernel.inputs, bindings: Vec::new() }
    }

    /// Stores `val` and hands out the first handle to it.
    pub fn allocate(&mut self, val: T) -> (r: Binding)
        ensures
            r.key() == old(self).heap.slots.len(),
            final(self).heap.slots@ == old(self).heap.slots@.push(
                Some(Entry { references: 1, data: val }),
            ),
            final(self).counter == if old(self).counter < usize::MAX {
                (old(self).counter + 1) as usize
            } else {
                usize::MAX
            },
    {
        let key = self.heap.insert(val);
        if self.counter < usize::MAX {
            self.counter += 1;
        }
        Binding::new(key)
    }

    /// One more handle to what `binding` stands for.
    pub fn share(&mut self, binding: &Binding) -> (r: Option<Binding>)
        ensures
            r is Some == (old(self).heap.holds(binding.key()) && old(self).heap.references(
                binding.key(),
            ) < usize::MAX),
            r matches Some(b) ==> b.key() == binding.key() && final(self).heap.references(
                binding.key(),
            ) == old(self).heap.references(binding.key()) + 1 && final(self).heap.data(
                binding.key(),
            ) == old(self).heap.data(binding.key()),
            r is None ==> final(self).heap.slots@ == old(self).heap.slots@ && final(self).counter
                == old(self).counter,
    {
        if self.heap.retain(binding.get_reference()) {
            Some(Binding::new(binding.get_reference()))
        } else {
            None
        }
    }

    /// Gives a handle back. What it stood for is released, and handed
    /// out, exactly when it was the last handle.
    pub fn release(&mut self, binding: Binding) -> (r: Option<T>)
        ensures
            r is Some == (old(self).heap.holds(binding.key()) && old(self).heap.references(
                binding.key(),
            ) <= 1),
            r matches Some(data) ==> data == old(self).heap.data(binding.key()) && !final(self).heap.holds(binding.key()),
            r is None && old(self).heap.holds(binding.key()) ==> final(self).heap.holds(
                binding.key(),
            ) && final(self).heap.references(binding.key()) == old(self).heap.references(
                binding.key(),
            ) - 1,
    {
        self.heap.release(binding.get_reference())
    }

    /// Takes what `val` stands for out of storage.
    pub fn dealloc(&mut self, val: Binding) -> (r: Option<T>)
        ensures
            match r {
                Some(data) => old(self).heap.holds(val.key()) && data == old(self).heap.data(
                    val.key(),
                ) && !final(self).heap.holds(val.key()),
                None => !old(self).heap.holds(val.key()),
            },
    {
        self.heap.remove(val.get_reference())
    }

    /// What `val` stands for.
    pub fn copy_to_cpu<'a>(&'a self, val: &Binding) -> (r: Option<&'a T>)
        ensures
            match r {
                Some(data) => self.heap.holds(val.key()) && *data == self.heap.data(val.key()),
                None => !self.heap.holds(val.key()),
            },
    {
        self.heap.get(val.get_reference())
    }

    /// The workers of a dispatch over `x`, `y` and `z` on `cores` cores:
    /// worker `i` goes through chunk `i` of the extent in `x`.
    pub fn dispatch(&self, x: u32, y: u32, z: u32, cores: u32) -> (r: Vec<Worker>)
        requires
            cores > 0,
        ensures
            r.len() == cores,
            forall|i: int|
                0 <= i < cores ==> #[trigger] r[i] == Worker::fresh(
                    chunk_start(x as nat, cores as nat, i as nat) as u32,
                    chunk_end(x as nat, cores as nat, i as nat) as u32,
                    y,
                    z,
                ),
            forall|i: int| 0 <= i < cores ==> (#[trigger] r[i]).wf(),
    {
        workers(x, y, z, cores)
    }
}

/// The plain function of a kernel: what a worker runs once for each cell of
/// the grid, with the position of the cell, the inputs, and its own accessor to
/// the regions of the output.
pub trait CPUFunction<I, T>: Send + Sync {
    fn call_cpu(&self, pos: &Pos, inputs: &I, output: &mut RegionGuard<T>);
}

/// The values that an evaluation of an operation tree works on, by name,
/// and whether a `return` was reached.
#[derive(Debug, PartialEq, Eq)]
pub struct DifferentiatedCPUContext<K> {
    pub values: Vec<Named<Option<K>>>,
    pub return_state: bool,
}

impl<K> DifferentiatedCPUContext<K> {
    /// What the name stands for.
    pub open spec fn value(self, name: Seq<char>) -> Option<K> {
        match value_of(self.values@, name) {
            Some(Some(k)) => Some(k),
            _ => None,
        }
    }

    pub fn new() -> (r: DifferentiatedCPUContext<K>)
        ensures
            r.values@.len() == 0,
            !r.return_state,
    {
        DifferentiatedCPUContext { values: Vec::new(), return_state: false }
    }

    /// What `reference` stands for, which must be something.
    pub fn get(&self, reference: &str) -> (r: &K)
        requires
            self.value(reference@) is Some,
        ensures
            Some(*r) == self.value(reference@),
    {
        let name = reference.to_owned();
        match position_named(&self.values, &name) {
            Some(i) => match &self.values[i].value {
                Some(k) => k,
                None => vstd::pervasive::unreached(),
            },
            None => vstd::pervasive::unreached(),
        }
    }

    /// What `reference` stands for, where it stands for something.
    pub fn get_mut(&mut self, reference: &str, value: K) -> (r: Option<K>)
        ensures
            r == old(self).value(reference@),
            r is Some ==> final(self).value(reference@) == Some(value),
            r is None ==> final(self).values@ == old(self).values@,
            forall|other: Seq<char>|
                other != reference@ ==> final(self).value(other) == old(self).value(other),
            final(self).return_state == old(self).return_state,
    {
        if self.value_is_set(reference) {
            self.set(reference, value)
        } else {
            None
        }
    }

    /// Whether `reference` stands for something.
    pub fn value_is_set(&self, reference: &str) -> (r: bool)
        ensures
            r == self.value(reference@) is Some,
    {
        let name = reference.to_owned();
        match position_named(&self.values, &name) {
            Some(i) => self.values[i].value.is_some(),
            None => false,
        }
    }

    /// Lets `reference` stand for `value`; hands out what it stood for.
    pub fn set(&mut self, reference: &str, value: K) -> (r: Option<K>)
        ensures
            r == old(self).value(reference@),
            final(self).value(reference@) == Some(value),
            forall|other: Seq<char>|
                other != reference@ ==> final(self).value(other) == old(self).value(other),
            final(self).return_state == old(self).return_state,
    {
        let name = reference.to_owned();
        match position_named(&self.values, &name) {
            Some(i) => {
                let mut entry = Named { name, value: Some(value) };
                let ghost put = entry;
                self.values.set_and_swap(i, &mut entry);
                proof {
                    crate::tables::lemma_find_named(old(self).values@, reference@);
                    lemma_update_keeps_others(old(self).values@, i as int, put, reference@);
                    assert forall|other: Seq<char>| other != reference@ implies self.value(other)
                        == old(self).value(other) by {
                        lemma_update_keeps_others(old(self).values@, i as int, put, other);
                        crate::tables::lemma_find_named(old(self).values@, other);
                    }
                }
                entry.value
            },
            None => {
                let entry = Named { name, value: Some(value) };
                proof {
                    lemma_push_keeps_others(self.values@, entry, reference@);
                    assert forall|other: Seq<char>| other != reference@ implies value_of(
                        self.values@.push(entry),
                        other,
                    ) == value_of(self.values@, other) by {
                        lemma_push_keeps_others(self.values@, entry, other);
                        crate::tables::lemma_find_named(self.values@, other);
                    }
                }
                self.values.push(entry);
                None
            },
        }
    }

    /// Lets `reference` stand for nothing.
    pub fn remove(&mut self, reference: &str)
        ensures
            final(self).value(reference@) is None,
            forall|other: Seq<char>|
                other != reference@ ==> final(self).value(other) == old(self).value(other),
            final(self).return_state == old(self).return_state,
    {
        let name = reference.to_owned();
        match position_named(&self.values, &name) {
            Some(i) => {
                let mut entry = Named { name, value: None };
                let ghost put = entry;
                self.values.set_and_swap(i, &mut entry);
                proof {
                    crate::tables::lemma_find_named(old(self).values@, reference@);
                    lemma_update_keeps_others(old(self).values@, i as int, put, reference@);
                    assert forall|other: Seq<char>| other != reference@ implies self.value(other)
                        == old(self).value(other) by {
                        lemma_update_keeps_others(old(self).values@, i as int, put, other);
                        crate::tables::lemma_find_named(old(self).values@, other);
                    }
                }
            },
            None => {},
        }
    }

    pub fn is_in_return_state(&self) -> (r: bool)
        ensures
            r == self.return_state,
    {
        self.return_state
    }

    pub fn set_return_state(&mut self, state: bool)
        ensures
            final(self).return_state == state,
            final(self).values == old(self).values,
    {
        self.return_state = state;
    }
}

} // verus!
