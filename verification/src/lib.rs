//! Numeric kernels as data: a typed operation tree built from a function body,
//! its symbolic derivative, shader text generated from it, and the parts of
//! parallel CPU execution that can be decided ahead of the run.

pub mod allocated;
pub mod cpu;
pub mod differential;
pub mod differentiate;
pub mod dispatch;
pub mod evaluate;
pub mod function;
pub mod gpu;
pub mod kernel;
pub mod lowering;
pub mod operation;
pub mod operations;
pub mod parse_cpu_function;
pub mod parse_function;
pub mod parseatt;
pub mod region_guard;
pub mod syntax;
pub mod tables;
pub mod tensor;
pub mod text;
pub mod types;
pub mod var;
