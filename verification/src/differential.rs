//! Programs: what a backend builds and dispatches. A kernel is a program,
//! and so is its derivative.

use vstd::prelude::*;
use crate::differentiate::{diff_scope, diff_scope_exec, TraceEntry};
use crate::kernel::{InputDescriptor, Kernel};
use crate::operation::Scope;
use crate::syntax::Block;
use crate::var::Variable;

verus! {

/// The operation tree of a program.
pub trait Program {
    /// The operation tree.
    spec fn main_tree(&self) -> Scope;

    fn get_main_tree(&self) -> (r: &Scope)
        ensures
            *r == self.main_tree(),
    ;
}

/// What a backend needs of a program to build it: the plain form of its
/// body and the description of what has to be bound.
pub trait Buildable: Program {
    /// The plain form of the body.
    spec fn cpu(&self) -> Block;

    /// The inputs and the output.
    spec fn bindings(&self) -> Vec<InputDescriptor>;

    fn get_cpu(&self) -> (r: &Block)
        ensures
            *r == self.cpu(),
    ;

    fn get_bindings(&self) -> (r: &Vec<InputDescriptor>)
        ensures
            *r == self.bindings(),
    ;
}

/// The derivative of a program with respect to one variable. It is built
/// and dispatched as the program is.
#[derive(Debug, PartialEq, Eq)]
pub struct Differential {
    /// The derivative of the operation tree.
    pub main: Scope,
    /// The plain form of the body of the program.
    pub cpu_fn: Block,
    /// The inputs and the output of the program.
    pub inputs: Vec<InputDescriptor>,
}

/// A program that can be differentiated.
pub trait DifferentiableProgram: Program + Sized {
    /// The derivative of the program with respect to `var`. The dependency
    /// trace starts empty.
    fn differantiate_for(self, var: &Variable) -> (r: Differential)
        ensures
            r.main == diff_scope(self.main_tree(), *var, Seq::empty()).0,
    ;
}

impl Program for Kernel {
    open spec fn main_tree(&self) -> Scope {
        self.main
    }

    fn get_main_tree(&self) -> (r: &Scope) {
        &self.main
    }
}

impl Buildable for Kernel {
    open spec fn cpu(&self) -> Block {
        self.cpu_fn
    }

    open spec fn bindings(&self) -> Vec<InputDescriptor> {
        self.inputs
    }

    fn get_cpu(&self) -> (r: &Block) {
        &self.cpu_fn
    }

    fn get_bindings(&self) -> (r: &Vec<InputDescriptor>) {
        &self.inputs
    }
}

impl DifferentiableProgram for Kernel {
    fn differantiate_for(self, var: &Variable) -> (r: Differential)
        ensures
            r.cpu_fn == self.cpu_fn,
            r.inputs == self.inputs,
    {
        let mut trace: Vec<TraceEntry> = Vec::new();
        let main = diff_scope_exec(&self.main, var, &mut trace);
        Differential { main, cpu_fn: self.cpu_fn, inputs: self.inputs }
    }
}

impl Program for Differential {
    open spec fn main_tree(&self) -> Scope {
        self.main
    }

    fn get_main_tree(&self) -> (r: &Scope) {
        &self.main
    }
}

impl Buildable for Differential {
    open spec fn cpu(&self) -> Block {
        self.cpu_fn
    }

    open spec fn bindings(&self) -> Vec<InputDescriptor> {
        self.inputs
    }

    fn get_cpu(&self) -> (r: &Block) {
        &self.cpu_fn
    }

    fn get_bindings(&self) -> (r: &Vec<InputDescriptor>) {
        &self.inputs
    }
}

impl DifferentiableProgram for Differential {
    fn differantiate_for(self, var: &Variable) -> (r: Differential)
        ensures
            r.cpu_fn == self.cpu_fn,
            r.inputs == self.inputs,
    {
        let mut trace: Vec<TraceEntry> = Vec::new();
        let main = diff_scope_exec(&self.main, var, &mut trace);
        Differential { main, cpu_fn: self.cpu_fn, inputs: self.inputs }
    }
}

} // verus!
