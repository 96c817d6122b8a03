//! Contract-level code generation core: the two-segment compilation pipeline
//! and the decisions of the worker-process protocol around it.

pub mod names;
pub mod ir;
pub mod selection;
pub mod foreign;
pub mod contract;
pub mod process;
